//! The delay routes of the HTTP server: the commands that put a `tc netem` delay on one
//! container of the cluster and take it off again, and what the requests are answered.

use crate::json::{empty_object, insert_bool, insert_number, insert_text, json_members, Json};
use crate::text::{and_line, decimal, decimal_text, law_decimal_reads_back, no_lines, texts};
use vstd::prelude::*;

verus! {

/// The delay of a request that names none, in milliseconds.
pub const DEFAULT_DELAY_MS: u64 = 15000;

/// The query of a pause request.
pub struct PauseParams {
    pub ms: Option<u64>,
}

/// What running a command came to: it ran and exited, or it could not be started.
pub enum CommandOutcome {
    Exited { success: bool, stderr: Vec<u8> },
    NotStarted { error: String },
}

impl CommandOutcome {
    /// Whether the command ran and reported success.
    pub open spec fn succeeded(self) -> bool {
        match self {
            CommandOutcome::Exited { success, .. } => success,
            CommandOutcome::NotStarted { .. } => false,
        }
    }

    /// Whether the command ran and reported success.
    fn is_success(&self) -> (success: bool)
        ensures
            success == self.succeeded(),
    {
        match self {
            CommandOutcome::Exited { success, .. } => *success,
            CommandOutcome::NotStarted { .. } => false,
        }
    }
}

/// Where a pause stands: the command that is to run next, or the end.
#[derive(Clone, Copy, PartialEq, Eq, Structural)]
pub enum PauseStep {
    /// Look for `tc` in the container.
    Probe,
    /// Install `tc`.
    Install,
    /// Remove a queueing discipline that is still in place.
    Clear,
    /// Add the delay.
    Add,
    /// Nothing is left to run.
    Done,
}

/// What a request is answered, and the line for the log that goes with it.
pub struct Answer {
    pub log: Option<String>,
    pub reply: serde_json::Map<String, serde_json::Value>,
}

/// The arguments of `docker` that run a command in the container under test.
pub open spec fn in_container(command: Seq<Seq<char>>) -> Seq<Seq<char>> {
    seq!["exec"@, "redis-cluster-2"@] + command
}

/// The arguments of `docker` at a step of a pause.
pub open spec fn pause_command(step: PauseStep, delay_ms: nat) -> Seq<Seq<char>> {
    match step {
        PauseStep::Probe => in_container(seq!["which"@, "tc"@]),
        PauseStep::Install => in_container(
            seq!["bash"@, "-c"@, "apt-get update -qq && apt-get install -y -qq iproute2"@],
        ),
        PauseStep::Clear => in_container(
            seq!["tc"@, "qdisc"@, "del"@, "dev"@, "eth0"@, "root"@],
        ),
        PauseStep::Add => in_container(
            seq!["tc"@, "qdisc"@, "add"@, "dev"@, "eth0"@, "root"@, "netem"@, "delay"@, decimal(delay_ms) + "ms"@],
        ),
        PauseStep::Done => Seq::empty(),
    }
}

/// The step that follows. Only the probe's outcome decides anything: `tc` is installed
/// where the probe did not find it.
pub open spec fn pause_next(step: PauseStep, outcome: CommandOutcome) -> PauseStep {
    match step {
        PauseStep::Probe => if outcome.succeeded() {
            PauseStep::Clear
        } else {
            PauseStep::Install
        },
        PauseStep::Install => PauseStep::Clear,
        PauseStep::Clear => PauseStep::Add,
        PauseStep::Add => PauseStep::Done,
        PauseStep::Done => PauseStep::Done,
    }
}

/// A command to run: a program and its arguments.
pub struct ShellCommand {
    pub program: String,
    pub args: Vec<String>,
}

impl ShellCommand {
    /// Whether this is a call of `docker` with these arguments.
    pub open spec fn is_docker(self, args: Seq<Seq<char>>) -> bool {
        self.program@ == "docker"@ && texts(self.args@) == args
    }
}

/// The start of every list of arguments: it names the container.
fn container_args() -> (args: Vec<String>)
    ensures
        texts(args@) == seq!["exec"@, "redis-cluster-2"@],
{
    and_line(and_line(no_lines(), "exec".to_string()), "redis-cluster-2".to_string())
}

/// Adds the words of a list to some arguments.
fn and_words(mut args: Vec<String>, words: &[&str]) -> (longer: Vec<String>)
    ensures
        texts(longer@) == texts(args@) + words@.map_values(|word: &str| word@),
{
    let ghost before = args@;
    for i in 0..words.len()
        invariant
            texts(args@) == texts(before) + words@.take(i as int).map_values(
                |word: &str| word@,
            ),
    {
        let ghost shorter = texts(args@);
        args.push(words[i].to_string());
        assert(texts(args@) =~= shorter.push(words@[i as int]@));
        assert(words@.take(i + 1).map_values(|word: &str| word@) =~= words@.take(
            i as int,
        ).map_values(|word: &str| word@).push(words@[i as int]@));
    }
    assert(words@.take(words@.len() as int) =~= words@);
    args
}

/// What `String::from_utf8_lossy` makes of some bytes.
pub uninterp spec fn lossy_text(bytes: Seq<u8>) -> Seq<char>;

/// `String::from_utf8_lossy` of the standard library. The text is a function of the
/// bytes, and bytes that are valid UTF-8 are decoded as they are; how the replacement
/// characters fall in other bytes is left unsaid.
#[verifier::external_body]
fn text_of_bytes(bytes: &Vec<u8>) -> (text: String)
    ensures
        text@ == lossy_text(bytes@),
        vstd::utf8::valid_utf8(bytes@) ==> text@ == vstd::utf8::decode_utf8(bytes@),
{
    String::from_utf8_lossy(bytes).to_string()
}

/// The log line and the reply of a request that was served.
pub open spec fn served(answer: Answer, log: Seq<char>, reply: Map<Seq<char>, Json>) -> bool {
    &&& answer.log matches Some(line) && line@ == log
    &&& json_members(answer.reply) == reply
}

/// The reply that reports an error.
pub open spec fn error_reply(error: Seq<char>) -> Map<Seq<char>, Json> {
    map![
        "ok"@ => Json::Bool(false),
        "error"@ => Json::Text(error),
    ]
}

/// The answer where the last command could not be started. Nothing is logged.
pub open spec fn answers_not_started(answer: Answer, error: Seq<char>) -> bool {
    &&& answer.log is None
    &&& json_members(answer.reply) == error_reply(error)
}

/// The answer to a pause once the delay is in place.
pub open spec fn answers_paused(answer: Answer, delay_ms: nat) -> bool {
    served(
        answer,
        "[PAUSE] tc netem delay "@ + decimal(delay_ms) + "ms applied to redis-cluster-2 eth0"@,
        map![
            "ok"@ => Json::Bool(true),
            "delay_ms"@ => Json::Number(delay_ms),
            "msg"@ => Json::Text(
                "tc netem delay "@ + decimal(delay_ms)
                    + "ms applied. cluster-node-timeout=60s keeps cluster healthy."@,
            ),
        ],
    )
}

/// The answer to a pause whose last command failed with `error` on its error stream.
pub open spec fn answers_pause_failed(answer: Answer, error: Seq<char>) -> bool {
    served(answer, "[PAUSE] tc netem failed: "@ + error, error_reply(error))
}

/// The answer to an unpause once the delay is gone.
pub open spec fn answers_unpaused(answer: Answer) -> bool {
    served(
        answer,
        "[UNPAUSE] tc netem removed from redis-cluster-2"@,
        map![
            "ok"@ => Json::Bool(true),
            "msg"@ => Json::Text("tc netem delay removed from redis-cluster-2 eth0"@),
        ],
    )
}

/// The answer to an unpause whose command failed with `error` on its error stream.
pub open spec fn answers_unpause_failed(answer: Answer, error: Seq<char>) -> bool {
    served(
        answer,
        "[UNPAUSE] tc del failed (may already be clear): "@ + error,
        error_reply(error),
    )
}

/// The answer to a pause, by what the command that adds the delay came to.
pub open spec fn answers_pause(answer: Answer, delay_ms: nat, outcome: CommandOutcome) -> bool {
    match outcome {
        CommandOutcome::Exited { success, stderr } => if success {
            answers_paused(answer, delay_ms)
        } else {
            answers_pause_failed(answer, lossy_text(stderr@))
        },
        CommandOutcome::NotStarted { error } => answers_not_started(answer, error@),
    }
}

/// The answer to an unpause, by what the command that removes the delay came to.
pub open spec fn answers_unpause(answer: Answer, outcome: CommandOutcome) -> bool {
    match outcome {
        CommandOutcome::Exited { success, stderr } => if success {
            answers_unpaused(answer)
        } else {
            answers_unpause_failed(answer, lossy_text(stderr@))
        },
        CommandOutcome::NotStarted { error } => answers_not_started(answer, error@),
    }
}

/// The reply that reports an error.
fn make_error_reply(error: &str) -> (reply: serde_json::Map<String, serde_json::Value>)
    ensures
        json_members(reply) == error_reply(error@),
        json_members(reply)["ok"@] == Json::Bool(false),
        json_members(reply)["error"@] == Json::Text(error@),
{
    proof {
        lemma_names_differ();
    }
    let mut reply = empty_object();
    insert_bool(&mut reply, "ok", false);
    insert_text(&mut reply, "error", error);
    reply
}

/// The answer where a command could not be started.
pub fn not_started_answer(error: &str) -> (answer: Answer)
    ensures
        answers_not_started(answer, error@),
        answer.log is None,
        json_members(answer.reply)["ok"@] == Json::Bool(false),
        json_members(answer.reply)["error"@] == Json::Text(error@),
{
    Answer { log: None, reply: make_error_reply(error) }
}

/// The answer to a pause once the delay is in place.
pub fn paused_answer(delay_ms: u64) -> (answer: Answer)
    ensures
        answers_paused(answer, delay_ms as nat),
        answer.log is Some,
        json_members(answer.reply)["ok"@] == Json::Bool(true),
        json_members(answer.reply)["delay_ms"@] == Json::Number(delay_ms as nat),
{
    proof {
        lemma_names_differ();
    }
    let number = decimal_text(delay_ms as u128);
    let log = "[PAUSE] tc netem delay ".to_string().concat(number.as_str()).concat(
        "ms applied to redis-cluster-2 eth0",
    );
    let msg = "tc netem delay ".to_string().concat(number.as_str()).concat(
        "ms applied. cluster-node-timeout=60s keeps cluster healthy.",
    );
    let mut reply = empty_object();
    insert_bool(&mut reply, "ok", true);
    insert_number(&mut reply, "delay_ms", delay_ms);
    insert_text(&mut reply, "msg", msg.as_str());
    Answer { log: Some(log), reply }
}

/// The answer to a pause that failed with `error`.
pub fn pause_failed_answer(error: &str) -> (answer: Answer)
    ensures
        answers_pause_failed(answer, error@),
        answer.log is Some,
        json_members(answer.reply)["ok"@] == Json::Bool(false),
        json_members(answer.reply)["error"@] == Json::Text(error@),
{
    let log = "[PAUSE] tc netem failed: ".to_string().concat(error);
    Answer { log: Some(log), reply: make_error_reply(error) }
}

/// The answer to an unpause once the delay is gone.
pub fn unpaused_answer() -> (answer: Answer)
    ensures
        answers_unpaused(answer),
        answer.log is Some,
        json_members(answer.reply)["ok"@] == Json::Bool(true),
{
    proof {
        lemma_names_differ();
    }
    let log = "[UNPAUSE] tc netem removed from redis-cluster-2".to_string();
    let mut reply = empty_object();
    insert_bool(&mut reply, "ok", true);
    insert_text(&mut reply, "msg", "tc netem delay removed from redis-cluster-2 eth0");
    Answer { log: Some(log), reply }
}

/// The answer to an unpause that failed with `error`.
pub fn unpause_failed_answer(error: &str) -> (answer: Answer)
    ensures
        answers_unpause_failed(answer, error@),
        answer.log is Some,
        json_members(answer.reply)["ok"@] == Json::Bool(false),
        json_members(answer.reply)["error"@] == Json::Text(error@),
{
    let log = "[UNPAUSE] tc del failed (may already be clear): ".to_string().concat(error);
    Answer { log: Some(log), reply: make_error_reply(error) }
}

/// A pause on its way: the delay that was asked for, and the step that is due.
pub struct PauseRun {
    delay_ms: u64,
    step: PauseStep,
}

impl PauseRun {
    /// The delay that the pause will put in place.
    pub closed spec fn delay_ms(self) -> u64 {
        self.delay_ms
    }

    /// The step that is due.
    pub closed spec fn step(self) -> PauseStep {
        self.step
    }

    /// The command that is due, or `None` once all have run.
    pub fn command(&self) -> (command: Option<ShellCommand>)
        ensures
            match command {
                Some(command) => {
                    &&& self.step() != PauseStep::Done
                    &&& command.is_docker(pause_command(self.step(), self.delay_ms() as nat))
                    &&& command.program@ == "docker"@
                    &&& self.step() == PauseStep::Probe ==> texts(command.args@) == seq![
                        "exec"@,
                        "redis-cluster-2"@,
                        "which"@,
                        "tc"@,
                    ]
                    &&& self.step() == PauseStep::Add ==> texts(command.args@) == seq![
                        "exec"@,
                        "redis-cluster-2"@,
                        "tc"@,
                        "qdisc"@,
                        "add"@,
                        "dev"@,
                        "eth0"@,
                        "root"@,
                        "netem"@,
                        "delay"@,
                        decimal(self.delay_ms() as nat) + "ms"@,
                    ]
                    &&& self.step() == PauseStep::Clear ==> texts(command.args@) == seq![
                        "exec"@,
                        "redis-cluster-2"@,
                        "tc"@,
                        "qdisc"@,
                        "del"@,
                        "dev"@,
                        "eth0"@,
                        "root"@,
                    ]
                },
                None => self.step() == PauseStep::Done,
            },
    {
        let start = container_args();
        let args = match self.step {
            PauseStep::Probe => and_words(start, &["which", "tc"]),
            PauseStep::Install => and_words(
                start,
                &["bash", "-c", "apt-get update -qq && apt-get install -y -qq iproute2"],
            ),
            PauseStep::Clear => and_words(start, &["tc", "qdisc", "del", "dev", "eth0", "root"]),
            PauseStep::Add => {
                let delay = decimal_text(self.delay_ms as u128).concat("ms");
                and_words(
                    start,
                    &["tc", "qdisc", "add", "dev", "eth0", "root", "netem", "delay", delay.as_str()],
                )
            },
            PauseStep::Done => return None,
        };
        proof {
            let goal = pause_command(self.step, self.delay_ms as nat);
            assert(texts(args@) =~= goal);
        }
        Some(ShellCommand { program: "docker".to_string(), args })
    }

    /// Takes in what the due command came to. The pause is answered when the command
    /// that adds the delay has run. An error stream that is text is reported as it reads.
    pub fn record(&mut self, outcome: &CommandOutcome) -> (answer: Option<Answer>)
        requires
            old(self).step() != PauseStep::Done,
        ensures
            final(self).delay_ms() == old(self).delay_ms(),
            final(self).step() == pause_next(old(self).step(), *outcome),
            match answer {
                Some(answer) => {
                    &&& old(self).step() == PauseStep::Add
                    &&& answers_pause(answer, old(self).delay_ms() as nat, *outcome)
                    &&& *outcome matches CommandOutcome::Exited { success, stderr } ==> !success
                        && vstd::utf8::valid_utf8(stderr@) ==> answers_pause_failed(
                        answer,
                        vstd::utf8::decode_utf8(stderr@),
                    )
                    &&& json_members(answer.reply)["ok"@] == Json::Bool(
                        (*outcome matches CommandOutcome::Exited { success, .. } && success),
                    )
                    &&& json_members(answer.reply).contains_key("error"@) <==> !(
                    *outcome matches CommandOutcome::Exited { success, .. } && success)
                },
                None => old(self).step() != PauseStep::Add,
            },
            old(self).step() == PauseStep::Probe ==> final(self).step() == (
            if *outcome matches CommandOutcome::Exited { success, .. } && success {
                PauseStep::Clear
            } else {
                PauseStep::Install
            }),
            old(self).step() == PauseStep::Install ==> final(self).step() == PauseStep::Clear,
            old(self).step() == PauseStep::Clear ==> final(self).step() == PauseStep::Add,
            old(self).step() == PauseStep::Add ==> final(self).step() == PauseStep::Done,
    {
        proof {
            lemma_names_differ();
        }
        match self.step {
            PauseStep::Probe => {
                self.step = if outcome.is_success() {
                    PauseStep::Clear
                } else {
                    PauseStep::Install
                };
                None
            },
            PauseStep::Install => {
                self.step = PauseStep::Clear;
                None
            },
            PauseStep::Clear => {
                self.step = PauseStep::Add;
                None
            },
            _ => {
                self.step = PauseStep::Done;
                Some(
                    match outcome {
                        CommandOutcome::Exited { success, stderr } => if *success {
                            paused_answer(self.delay_ms)
                        } else {
                            pause_failed_answer(text_of_bytes(stderr).as_str())
                        },
                        CommandOutcome::NotStarted { error } => not_started_answer(
                            error.as_str(),
                        ),
                    },
                )
            },
        }
    }
}

/// `POST /pause?ms=N`: begins a pause. A request that names no delay gets the default.
pub fn handle_pause(params: PauseParams) -> (run: PauseRun)
    ensures
        run.step() == PauseStep::Probe,
        run.delay_ms() == (match params.ms {
            Some(ms) => ms,
            None => DEFAULT_DELAY_MS,
        }),
        params.ms matches Some(ms) ==> run.delay_ms() == ms,
        params.ms is None ==> run.delay_ms() == 15000,
{
    let delay_ms: u64 = match params.ms {
        Some(ms) => ms,
        None => DEFAULT_DELAY_MS,
    };
    PauseRun { delay_ms, step: PauseStep::Probe }
}

/// The arguments of `docker` that take a delay off.
pub open spec fn unpause_command() -> Seq<Seq<char>> {
    in_container(seq!["tc"@, "qdisc"@, "del"@, "dev"@, "eth0"@, "root"@])
}

/// `DELETE /pause`: the command that takes the delay off.
pub fn handle_unpause() -> (command: ShellCommand)
    ensures
        command.is_docker(unpause_command()),
        command.program@ == "docker"@,
        texts(command.args@) == seq![
            "exec"@,
            "redis-cluster-2"@,
            "tc"@,
            "qdisc"@,
            "del"@,
            "dev"@,
            "eth0"@,
            "root"@,
        ],
{
    let args = and_words(container_args(), &["tc", "qdisc", "del", "dev", "eth0", "root"]);
    assert(texts(args@) =~= unpause_command());
    ShellCommand { program: "docker".to_string(), args }
}

/// The answer to an unpause, once its command has run. An error stream that is text is
/// reported as it reads.
pub fn unpause_answer(outcome: &CommandOutcome) -> (answer: Answer)
    ensures
        answers_unpause(answer, *outcome),
        *outcome matches CommandOutcome::Exited { success, stderr } ==> !success
            && vstd::utf8::valid_utf8(stderr@) ==> answers_unpause_failed(
            answer,
            vstd::utf8::decode_utf8(stderr@),
        ),
        json_members(answer.reply)["ok"@] == Json::Bool(
            (*outcome matches CommandOutcome::Exited { success, .. } && success),
        ),
        json_members(answer.reply).contains_key("error"@) <==> !(
        *outcome matches CommandOutcome::Exited { success, .. } && success),
{
    proof {
        lemma_names_differ();
    }
    match outcome {
        CommandOutcome::Exited { success, stderr } => if *success {
            unpaused_answer()
        } else {
            unpause_failed_answer(text_of_bytes(stderr).as_str())
        },
        CommandOutcome::NotStarted { error } => not_started_answer(error.as_str()),
    }
}

/// The step that is due after some outcomes, from the start of a pause.
pub open spec fn pause_step_after(outcomes: Seq<CommandOutcome>) -> PauseStep
    decreases outcomes.len(),
{
    if outcomes.len() == 0 {
        PauseStep::Probe
    } else {
        pause_next(pause_step_after(outcomes.drop_last()), outcomes.last())
    }
}

/// The commands that a pause runs, given what each of them comes to.
pub open spec fn pause_commands(delay_ms: nat, outcomes: Seq<CommandOutcome>) -> Seq<
    Seq<Seq<char>>,
>
    decreases outcomes.len(),
{
    if outcomes.len() == 0 {
        Seq::empty()
    } else {
        let fewer = outcomes.drop_last();
        let earlier = pause_commands(delay_ms, fewer);
        if pause_step_after(fewer) == PauseStep::Done {
            earlier
        } else {
            earlier.push(pause_command(pause_step_after(fewer), delay_ms))
        }
    }
}

/// A pause runs the probe, the installation where the probe did not succeed, the removal
/// and the addition, in this order and nothing else, whatever the other commands come
/// to. So it is answered after three or four commands, by the outcome of the last.
pub proof fn law_pause_runs_its_commands(delay_ms: nat, outcomes: Seq<CommandOutcome>)
    requires
        outcomes.len() == (if outcomes[0].succeeded() {
            3
        } else {
            4int
        }),
    ensures
        pause_step_after(outcomes) == PauseStep::Done,
        pause_step_after(outcomes.drop_last()) == PauseStep::Add,
        pause_commands(delay_ms, outcomes) == (if outcomes[0].succeeded() {
            seq![
                pause_command(PauseStep::Probe, delay_ms),
                pause_command(PauseStep::Clear, delay_ms),
                pause_command(PauseStep::Add, delay_ms),
            ]
        } else {
            seq![
                pause_command(PauseStep::Probe, delay_ms),
                pause_command(PauseStep::Install, delay_ms),
                pause_command(PauseStep::Clear, delay_ms),
                pause_command(PauseStep::Add, delay_ms),
            ]
        }),
{
    let n = outcomes.len() as int;
    assert(outcomes.take(n) =~= outcomes);
    assert(outcomes.take(n).drop_last() =~= outcomes.take(n - 1));
    assert(outcomes.take(n - 1).drop_last() =~= outcomes.take(n - 2));
    assert(outcomes.take(n - 2).drop_last() =~= outcomes.take(n - 3));
    if n == 4 {
        assert(outcomes.take(1).drop_last() =~= outcomes.take(0));
    }
    reveal_with_fuel(pause_step_after, 5);
    reveal_with_fuel(pause_commands, 5);
}

/// A pause first removes what an earlier one may have left, with the very command that
/// an unpause runs.
pub proof fn law_pause_clears_as_unpause_does(delay_ms: nat)
    ensures
        pause_command(PauseStep::Clear, delay_ms) == unpause_command(),
{
}

/// Every command of a pause and of an unpause runs inside the one container.
pub proof fn law_commands_stay_in_the_container(step: PauseStep, delay_ms: nat)
    requires
        step != PauseStep::Done,
    ensures
        pause_command(step, delay_ms).take(2) == seq!["exec"@, "redis-cluster-2"@],
        unpause_command().take(2) == seq!["exec"@, "redis-cluster-2"@],
{
    assert(pause_command(step, delay_ms).take(2) =~= seq!["exec"@, "redis-cluster-2"@]);
    assert(unpause_command().take(2) =~= seq!["exec"@, "redis-cluster-2"@]);
}

/// The commands that add two delays differ in their last word only: up to there they are
/// the same words for every delay, and the device that they name is the one from which an
/// unpause takes the delay off.
pub proof fn law_delays_differ_in_the_last_word_only(delay_ms: nat, other_ms: nat)
    ensures
        ({
            let command = pause_command(PauseStep::Add, delay_ms);
            let other = pause_command(PauseStep::Add, other_ms);
            &&& command.len() == 11
            &&& command.drop_last() == other.drop_last()
            &&& command.drop_last() == seq![
                "exec"@,
                "redis-cluster-2"@,
                "tc"@,
                "qdisc"@,
                "add"@,
                "dev"@,
                "eth0"@,
                "root"@,
                "netem"@,
                "delay"@,
            ]
            &&& command.take(8) == unpause_command().update(4, "add"@)
        }),
{
    let command = pause_command(PauseStep::Add, delay_ms);
    assert(command.drop_last() =~= pause_command(PauseStep::Add, other_ms).drop_last());
    assert(command.drop_last() =~= seq![
        "exec"@,
        "redis-cluster-2"@,
        "tc"@,
        "qdisc"@,
        "add"@,
        "dev"@,
        "eth0"@,
        "root"@,
        "netem"@,
        "delay"@,
    ]);
    assert(command.take(8) =~= unpause_command().update(4, "add"@));
}

/// The commands that come before it are the same whatever the delay: the probe, the
/// installation and the removal name no delay at all.
pub proof fn law_only_the_addition_names_the_delay(step: PauseStep, delay_ms: nat, other_ms: nat)
    requires
        step != PauseStep::Add,
    ensures
        pause_command(step, delay_ms) == pause_command(step, other_ms),
        pause_command(PauseStep::Probe, delay_ms) == seq![
            "exec"@,
            "redis-cluster-2"@,
            "which"@,
            "tc"@,
        ],
        pause_command(PauseStep::Install, delay_ms) == seq![
            "exec"@,
            "redis-cluster-2"@,
            "bash"@,
            "-c"@,
            "apt-get update -qq && apt-get install -y -qq iproute2"@,
        ],
        unpause_command() == seq![
            "exec"@,
            "redis-cluster-2"@,
            "tc"@,
            "qdisc"@,
            "del"@,
            "dev"@,
            "eth0"@,
            "root"@,
        ],
        pause_command(PauseStep::Done, delay_ms).len() == 0,
{
}

/// A command has succeeded where it ran and exited with success. What it left on its
/// error stream does not matter, and one that could not be started has not.
pub proof fn law_success_is_the_exit_status(
    success: bool,
    stderr: Vec<u8>,
    other: Vec<u8>,
    error: String,
)
    ensures
        (CommandOutcome::Exited { success, stderr }).succeeded() == success,
        (CommandOutcome::Exited { success, stderr }).succeeded() == (CommandOutcome::Exited {
            success,
            stderr: other,
        }).succeeded(),
        !(CommandOutcome::NotStarted { error }).succeeded(),
{
}

/// The names of the members of the replies are different names.
proof fn lemma_names_differ()
    ensures
        "ok"@ != "error"@,
        "ok"@ != "msg"@,
        "ok"@ != "delay_ms"@,
        "error"@ != "msg"@,
        "error"@ != "delay_ms"@,
        "msg"@ != "delay_ms"@,
{
    reveal_strlit("ok");
    reveal_strlit("error");
    reveal_strlit("msg");
    reveal_strlit("delay_ms");
    assert("ok"@.len() == 2 && "error"@.len() == 5);
    assert("msg"@.len() == 3 && "delay_ms"@.len() == 8);
}

/// The answer to a pause follows the exit status of its last command alone. It is `ok`
/// exactly where that command ran and exited with success, whatever is on its error
/// stream, and then names the delay; otherwise it holds the error in place of the delay.
/// A line is logged unless the command could not be started.
pub proof fn law_pause_answer_follows_the_exit_status(
    answer: Answer,
    delay_ms: nat,
    outcome: CommandOutcome,
)
    requires
        answers_pause(answer, delay_ms, outcome),
    ensures
        ({
            let reply = json_members(answer.reply);
            match outcome {
                CommandOutcome::Exited { success: true, .. } => {
                    &&& reply["ok"@] == Json::Bool(true)
                    &&& reply["delay_ms"@] == Json::Number(delay_ms)
                    &&& reply["msg"@] == Json::Text(
                        "tc netem delay "@ + decimal(delay_ms)
                            + "ms applied. cluster-node-timeout=60s keeps cluster healthy."@,
                    )
                    &&& reply.dom() == set!["ok"@, "delay_ms"@, "msg"@]
                    &&& !reply.contains_key("error"@)
                    &&& answer.log matches Some(line) && line@ == "[PAUSE] tc netem delay "@
                        + decimal(delay_ms) + "ms applied to redis-cluster-2 eth0"@
                },
                CommandOutcome::Exited { success: false, stderr } => {
                    &&& reply["ok"@] == Json::Bool(false)
                    &&& reply["error"@] == Json::Text(lossy_text(stderr@))
                    &&& reply.dom() == set!["ok"@, "error"@]
                    &&& answer.log matches Some(line) && line@ == "[PAUSE] tc netem failed: "@
                        + lossy_text(stderr@)
                },
                CommandOutcome::NotStarted { error } => {
                    &&& reply["ok"@] == Json::Bool(false)
                    &&& reply["error"@] == Json::Text(error@)
                    &&& reply.dom() == set!["ok"@, "error"@]
                    &&& answer.log is None
                },
            }
        }),
{
    lemma_names_differ();
    let reply = json_members(answer.reply);
    if outcome.succeeded() {
        assert(reply.dom() =~= set!["ok"@, "delay_ms"@, "msg"@]);
    } else {
        assert(reply.dom() =~= set!["ok"@, "error"@]);
    }
}

/// The answer to an unpause follows the exit status of its command alone. It is `ok`
/// exactly where the command ran and exited with success, whatever is on its error
/// stream, and it holds an error exactly where it is not `ok`. A line is logged unless
/// the command could not be started.
pub proof fn law_unpause_answer_follows_the_exit_status(answer: Answer, outcome: CommandOutcome)
    requires
        answers_unpause(answer, outcome),
    ensures
        ({
            let reply = json_members(answer.reply);
            &&& reply["ok"@] == Json::Bool(outcome.succeeded())
            &&& reply.contains_key("error"@) <==> !outcome.succeeded()
            &&& match outcome {
                CommandOutcome::Exited { success: true, .. } => {
                    &&& reply["ok"@] == Json::Bool(true)
                    &&& reply["msg"@] == Json::Text(
                        "tc netem delay removed from redis-cluster-2 eth0"@,
                    )
                    &&& reply.dom() == set!["ok"@, "msg"@]
                    &&& answer.log matches Some(line) && line@
                        == "[UNPAUSE] tc netem removed from redis-cluster-2"@
                },
                CommandOutcome::Exited { success: false, stderr } => {
                    &&& reply["ok"@] == Json::Bool(false)
                    &&& reply["error"@] == Json::Text(lossy_text(stderr@))
                    &&& reply.dom() == set!["ok"@, "error"@]
                    &&& answer.log matches Some(line) && line@
                        == "[UNPAUSE] tc del failed (may already be clear): "@ + lossy_text(
                        stderr@,
                    )
                },
                CommandOutcome::NotStarted { error } => {
                    &&& reply["ok"@] == Json::Bool(false)
                    &&& reply["error"@] == Json::Text(error@)
                    &&& reply.dom() == set!["ok"@, "error"@]
                    &&& answer.log is None
                },
            }
        }),
{
    lemma_names_differ();
    let reply = json_members(answer.reply);
    if outcome.succeeded() {
        assert(reply.dom() =~= set!["ok"@, "msg"@]);
    } else {
        assert(reply.dom() =~= set!["ok"@, "error"@]);
    }
}

/// What is on the error stream of a command that exited with success shows in no answer:
/// an answer that fits one error stream fits every other.
pub proof fn law_success_hides_the_error_stream(
    answer: Answer,
    delay_ms: nat,
    stderr: Vec<u8>,
    other: Vec<u8>,
)
    ensures
        answers_unpause(answer, CommandOutcome::Exited { success: true, stderr })
            == answers_unpause(answer, CommandOutcome::Exited { success: true, stderr: other }),
        answers_pause(answer, delay_ms, CommandOutcome::Exited { success: true, stderr })
            == answers_pause(
            answer,
            delay_ms,
            CommandOutcome::Exited { success: true, stderr: other },
        ),
{
}

/// A pause and an unpause whose command failed alike are answered with the same reply,
/// and so are two that could not be started.
pub proof fn law_failures_are_answered_alike(
    pause: Answer,
    unpause: Answer,
    delay_ms: nat,
    outcome: CommandOutcome,
)
    requires
        answers_pause(pause, delay_ms, outcome),
        answers_unpause(unpause, outcome),
        !outcome.succeeded(),
    ensures
        json_members(pause.reply) == json_members(unpause.reply),
        pause.log is None <==> outcome is NotStarted,
        unpause.log is None <==> outcome is NotStarted,
{
}

/// The command that adds a delay names that delay: its last word is the numeral of the
/// delay with its unit, so two delays never share a command.
pub proof fn law_command_names_the_delay(delay_ms: nat, other_ms: nat)
    ensures
        pause_command(PauseStep::Add, delay_ms).last() == decimal(delay_ms) + "ms"@,
        delay_ms != other_ms ==> pause_command(PauseStep::Add, delay_ms) != pause_command(
            PauseStep::Add,
            other_ms,
        ),
{
    let word = decimal(delay_ms) + "ms"@;
    let other = decimal(other_ms) + "ms"@;
    assert(pause_command(PauseStep::Add, delay_ms).last() == word);
    assert(pause_command(PauseStep::Add, other_ms).last() == other);
    if word == other {
        assert(decimal(delay_ms) =~= word.take(word.len() - "ms"@.len()));
        assert(decimal(other_ms) =~= other.take(other.len() - "ms"@.len()));
        law_decimal_reads_back(delay_ms);
        law_decimal_reads_back(other_ms);
    }
}

} // verus!
