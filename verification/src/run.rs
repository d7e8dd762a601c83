//! The course of a scenario: what it does, step by step, and how the answers that come
//! back carry it on or end it.

use crate::handlers::read_outcome;
use crate::report::{
    banner, banner_lines, completed_line, connected_line, expectation_lines, expectations,
    failed_line, make_completed_line, make_connected_line, make_failed_line, make_node_error_line,
    make_node_read_line, make_reads_line, make_sending_line, make_succeeded_line,
    make_written_line, node_error_line, node_read_line, reads_line, sending_line, succeeded_line,
    usage, usage_lines, written_line, HTTP_PORT,
};
use crate::settings::{host_for, host_of, Key, Node, Scenario};
use crate::text::{and_line, debug_optional, debug_optional_text, no_lines, optional_text, texts};
use vstd::prelude::*;

verus! {

/// The client that a command goes through.
#[derive(Clone, Copy, Debug, PartialEq, Eq, Structural)]
pub enum Via {
    /// The only client, or the one that was taken from the pool and kept.
    Held,
    /// The next client of the pool.
    Next,
}

/// One step of a scenario, for the program to perform.
pub enum Effect {
    /// Print lines, and flush the output where asked to.
    Print { lines: Vec<String>, flush: bool },
    /// Make the clients and listen to their events.
    Open,
    /// Connect, and wait until every client is connected.
    Connect,
    /// Take the next client of the pool and keep it.
    Hold,
    /// Write a key through the client that is held.
    Write { key: Key, value: String },
    /// Read a key.
    Read { via: Via, key: Key },
    /// Wait.
    Sleep { secs: u64 },
    /// Start reading the keys of these nodes, all at once, and report each as it ends.
    StartReads { nodes: Vec<Node> },
    /// Wait for the reads that were started.
    JoinReads,
    /// Bind the HTTP server to a port.
    Bind { port: u16 },
    /// Serve HTTP requests.
    Serve,
    /// Close the connections.
    Quit,
    /// Nothing is left to do: the scenario ran through, or an error ended it.
    Finish { ok: bool },
}

/// The view of a step.
pub enum EffectView {
    Print { lines: Seq<Seq<char>>, flush: bool },
    Open,
    Connect,
    Hold,
    Write { key: Key, value: Seq<char> },
    Read { via: Via, key: Key },
    Sleep { secs: nat },
    StartReads { nodes: Seq<Node> },
    JoinReads,
    Bind { port: nat },
    Serve,
    Quit,
    Finish { ok: bool },
}

impl View for Effect {
    type V = EffectView;

    open spec fn view(&self) -> EffectView {
        match *self {
            Effect::Print { lines, flush } => EffectView::Print { lines: texts(lines@), flush },
            Effect::Open => EffectView::Open,
            Effect::Connect => EffectView::Connect,
            Effect::Hold => EffectView::Hold,
            Effect::Write { key, value } => EffectView::Write { key, value: value@ },
            Effect::Read { via, key } => EffectView::Read { via, key },
            Effect::Sleep { secs } => EffectView::Sleep { secs: secs as nat },
            Effect::StartReads { nodes } => EffectView::StartReads { nodes: nodes@ },
            Effect::JoinReads => EffectView::JoinReads,
            Effect::Bind { port } => EffectView::Bind { port: port as nat },
            Effect::Serve => EffectView::Serve,
            Effect::Quit => EffectView::Quit,
            Effect::Finish { ok } => EffectView::Finish { ok },
        }
    }
}

/// How a step ended.
pub enum Event {
    /// It was performed.
    Done,
    /// It was a read, and it gave this value.
    Value { value: Option<String> },
    /// The client reported an error.
    Failed { message: String, kind: String },
}

/// The view of how a step ended.
pub enum EventView {
    Done,
    Value { value: Option<Seq<char>> },
    Failed { message: Seq<char>, kind: Seq<char> },
}

impl View for Event {
    type V = EventView;

    open spec fn view(&self) -> EventView {
        match *self {
            Event::Done => EventView::Done,
            Event::Value { value } => EventView::Value { value: optional_text(value) },
            Event::Failed { message, kind } => EventView::Failed {
                message: message@,
                kind: kind@,
            },
        }
    }
}

/// Whether an event can answer a step: a read ends with a value or an error, a call of
/// the client is performed or ends with an error, and any other step is performed. The
/// end has no answer.
pub open spec fn answers(effect: EffectView, event: EventView) -> bool {
    match effect {
        EffectView::Read { .. } => !(event is Done),
        EffectView::Open | EffectView::Connect | EffectView::Write { .. } | EffectView::Quit => !(
        event is Value),
        EffectView::Finish { .. } => false,
        _ => event is Done,
    }
}

/// The state of a run: what it was started with, how far it is, and what was learnt on
/// the way.
pub struct RunView {
    pub scenario: Scenario,
    pub host: Seq<char>,
    pub at: nat,
    pub alpha: Option<Seq<char>>,
    pub key1: Option<Seq<char>>,
    pub beta: Option<Seq<char>>,
    pub outcome: Seq<char>,
    pub joined_ms: nat,
    pub failed: bool,
}

/// A step that prints.
pub open spec fn print(lines: Seq<Seq<char>>) -> EffectView {
    EffectView::Print { lines, flush: false }
}

/// A step that prints and flushes, for whoever waits for the last line.
pub open spec fn signal(lines: Seq<Seq<char>>) -> EffectView {
    EffectView::Print { lines, flush: true }
}

/// A step that reads.
pub open spec fn read(via: Via, key: Key) -> EffectView {
    EffectView::Read { via, key }
}

/// A step that writes the value of a node under its key.
pub open spec fn write(node: Node) -> EffectView {
    EffectView::Write {
        key: node.spec_key(),
        value: match node {
            Node::Node1 => "value-from-node1"@,
            Node::Node2 => "value-from-node2"@,
            Node::Node3 => "value-from-node3"@,
        },
    }
}

impl RunView {
    /// The state that a scenario starts in.
    pub open spec fn initial(scenario: Scenario, host: Seq<char>) -> RunView {
        RunView {
            scenario,
            host,
            at: 0,
            alpha: None,
            key1: None,
            beta: None,
            outcome: Seq::empty(),
            joined_ms: 0,
            failed: false,
        }
    }

    /// The line that shows what was read before the pause.
    pub open spec fn reads(self) -> Seq<char> {
        reads_line(
            debug_optional(self.alpha),
            debug_optional(self.key1),
            debug_optional(self.beta),
        )
    }

    /// The steps of the scenario, in their order. A step may print what an earlier one
    /// learnt.
    pub open spec fn script(self) -> Seq<EffectView> {
        match self.scenario {
            Scenario::Misconfigured => seq![
                EffectView::Open,
                EffectView::Connect,
                print(seq![connected_line(self.scenario)]),
                EffectView::Write { key: Key::MyKey, value: "hello"@ },
                signal(seq![written_line(self.scenario), "[READY_FOR_PAUSE]"@]),
                EffectView::Sleep { secs: 1 },
                print(seq![""@, sending_line(self.scenario)]),
                read(Via::Held, Key::MyKey),
                signal(
                    seq![
                        self.outcome,
                        ""@,
                        "Waiting 15 more seconds to observe background events (unresponsive + reconnect)..."@,
                        "[READY_FOR_UNPAUSE]"@,
                    ],
                ),
                EffectView::Sleep { secs: 15 },
                print(seq!["[DONE] Exiting."@]),
                EffectView::Quit,
                EffectView::Finish { ok: true },
            ],
            Scenario::Correct => seq![
                EffectView::Open,
                EffectView::Connect,
                print(seq![connected_line(self.scenario)]),
                EffectView::Write { key: Key::MyKey, value: "hello"@ },
                signal(seq![written_line(self.scenario), "[READY_FOR_PAUSE]"@]),
                EffectView::Sleep { secs: 1 },
                print(seq![""@, sending_line(self.scenario)]),
                read(Via::Held, Key::MyKey),
                print(seq![self.outcome, "[DONE] Exiting."@]),
                EffectView::Quit,
                EffectView::Finish { ok: true },
            ],
            Scenario::Cluster => seq![
                print(banner(self.scenario, self.host)),
                EffectView::Open,
                EffectView::Connect,
                print(seq![connected_line(self.scenario)]),
                write(Node::Node1),
                write(Node::Node2),
                write(Node::Node3),
                print(seq![written_line(self.scenario)]),
                read(Via::Held, Key::Alpha),
                read(Via::Held, Key::Key1),
                read(Via::Held, Key::Beta),
                signal(seq![self.reads(), ""@, "[READY_FOR_PAUSE]"@]),
                EffectView::Sleep { secs: 1 },
                print(expectations()),
                EffectView::StartReads { nodes: seq![Node::Node1, Node::Node2, Node::Node3] },
                signal(seq!["[READY_FOR_UNPAUSE]"@]),
                EffectView::JoinReads,
                print(seq![""@, completed_line(self.joined_ms), "[DONE] Exiting."@]),
                EffectView::Quit,
                EffectView::Finish { ok: true },
            ],
            Scenario::ClusterServer => seq![
                print(banner(self.scenario, self.host)),
                EffectView::Open,
                EffectView::Connect,
                print(seq![connected_line(self.scenario)]),
                EffectView::Hold,
                write(Node::Node1),
                write(Node::Node2),
                write(Node::Node3),
                print(seq![written_line(self.scenario)]),
                read(Via::Next, Key::Alpha),
                read(Via::Next, Key::Key1),
                read(Via::Next, Key::Beta),
                print(seq![self.reads(), ""@]),
                EffectView::Bind { port: HTTP_PORT as nat },
                signal(usage()),
                EffectView::Serve,
                EffectView::Quit,
                EffectView::Finish { ok: true },
            ],
        }
    }

    /// The step that is due. Once an error has ended the run, that is the end.
    pub open spec fn effect(self) -> EffectView {
        if self.failed {
            EffectView::Finish { ok: false }
        } else {
            self.script()[self.at as int]
        }
    }

    /// The run is within its script.
    pub open spec fn wf(self) -> bool {
        self.at < self.script().len()
    }

    /// The run one step further.
    pub open spec fn stepped(self) -> RunView {
        RunView { at: self.at + 1, ..self }
    }

    /// The state after an event, `elapsed_ms` after the step or the reads were started.
    /// An error ends the run, but for the one read whose outcome is what a one-server
    /// scenario is about: there it is reported like a value.
    pub open spec fn next(self, event: EventView, elapsed_ms: nat) -> RunView {
        match (self.effect(), event) {
            (EffectView::Finish { .. }, _) => self,
            (EffectView::Read { key: Key::MyKey, .. }, EventView::Value { value }) => RunView {
                outcome: succeeded_line(self.scenario, elapsed_ms, debug_optional(value)),
                ..self.stepped()
            },
            (EffectView::Read { key: Key::MyKey, .. }, EventView::Failed { message, kind }) => RunView {
                outcome: failed_line(elapsed_ms, message, kind),
                ..self.stepped()
            },
            (_, EventView::Failed { .. }) => RunView { failed: true, ..self },
            (EffectView::Read { key: Key::Alpha, .. }, EventView::Value { value }) => RunView {
                alpha: value,
                ..self.stepped()
            },
            (EffectView::Read { key: Key::Key1, .. }, EventView::Value { value }) => RunView {
                key1: value,
                ..self.stepped()
            },
            (EffectView::Read { key: Key::Beta, .. }, EventView::Value { value }) => RunView {
                beta: value,
                ..self.stepped()
            },
            (EffectView::JoinReads, _) => RunView { joined_ms: elapsed_ms, ..self.stepped() },
            _ => self.stepped(),
        }
    }
}

/// The view of a step shows all that it holds.
pub proof fn law_steps_are_seen_as_they_are(effect: Effect)
    ensures
        match effect {
            Effect::Print { lines, flush } => {
                &&& effect@ matches EffectView::Print { lines: seen, flush: flushed }
                &&& flushed == flush
                &&& seen.len() == lines@.len()
                &&& forall|i: int| 0 <= i < lines@.len() ==> #[trigger] seen[i] == lines@[i]@
            },
            Effect::Open => effect@ is Open,
            Effect::Connect => effect@ is Connect,
            Effect::Hold => effect@ is Hold,
            Effect::Write { key, value } => effect@ == (EffectView::Write { key, value: value@ }),
            Effect::Read { via, key } => effect@ == (EffectView::Read { via, key }),
            Effect::Sleep { secs } => effect@ == (EffectView::Sleep { secs: secs as nat }),
            Effect::StartReads { nodes } => effect@ == (EffectView::StartReads { nodes: nodes@ }),
            Effect::JoinReads => effect@ is JoinReads,
            Effect::Bind { port } => effect@ == (EffectView::Bind { port: port as nat }),
            Effect::Serve => effect@ is Serve,
            Effect::Quit => effect@ is Quit,
            Effect::Finish { ok } => effect@ == (EffectView::Finish { ok }),
        },
{
}

/// The view of how a step ended shows all that it holds.
pub proof fn law_events_are_seen_as_they_are(event: Event)
    ensures
        match event {
            Event::Done => event@ is Done,
            Event::Value { value: Some(text) } => event@ == (EventView::Value {
                value: Some(text@),
            }),
            Event::Value { value: None } => event@ == (EventView::Value { value: None }),
            Event::Failed { message, kind } => event@ == (EventView::Failed {
                message: message@,
                kind: kind@,
            }),
        },
{
}

/// A read may end with any value or any error, and with nothing else. A call of the
/// client is performed or ends with any error; every other step is performed. After the
/// end nothing comes.
pub proof fn law_answers_that_fit(effect: EffectView, event: EventView)
    ensures
        effect is Finish ==> !answers(effect, event),
        !(effect is Finish) ==> (answers(effect, EventView::Done) <==> !(effect is Read)),
        event is Value ==> (answers(effect, event) <==> effect is Read),
        event is Failed ==> (answers(effect, event) <==> effect is Read || effect is Open
            || effect is Connect || effect is Write || effect is Quit),
{
}

/// A scenario under way.
pub struct Runner {
    scenario: Scenario,
    host: String,
    at: usize,
    alpha: Option<String>,
    key1: Option<String>,
    beta: Option<String>,
    outcome: String,
    joined_ms: u128,
    failed: bool,
}

impl View for Runner {
    type V = RunView;

    closed spec fn view(&self) -> RunView {
        RunView {
            scenario: self.scenario,
            host: self.host@,
            at: self.at as nat,
            alpha: optional_text(self.alpha),
            key1: optional_text(self.key1),
            beta: optional_text(self.beta),
            outcome: self.outcome@,
            joined_ms: self.joined_ms as nat,
            failed: self.failed,
        }
    }
}

/// A list of one line.
fn one(line: String) -> (lines: Vec<String>)
    ensures
        texts(lines@) == seq![line@],
{
    and_line(no_lines(), line)
}

/// A list of two lines.
fn two(first: String, second: String) -> (lines: Vec<String>)
    ensures
        texts(lines@) == seq![first@, second@],
{
    and_line(one(first), second)
}

/// A list of three lines.
fn three(first: String, second: String, third: String) -> (lines: Vec<String>)
    ensures
        texts(lines@) == seq![first@, second@, third@],
{
    and_line(two(first, second), third)
}

/// A list of four lines.
fn four(first: String, second: String, third: String, fourth: String) -> (lines: Vec<String>)
    ensures
        texts(lines@) == seq![first@, second@, third@, fourth@],
{
    and_line(three(first, second, third), fourth)
}

/// A step that writes the value of a node under its key.
fn make_write(node: Node) -> (effect: Effect)
    ensures
        effect@ == write(node),
{
    let value = match node {
        Node::Node1 => "value-from-node1",
        Node::Node2 => "value-from-node2",
        Node::Node3 => "value-from-node3",
    };
    Effect::Write { key: node.key(), value: value.to_string() }
}

impl Runner {
    /// Starts a scenario. `host_ip` is the host that the environment names, if any.
    pub fn start(scenario: Scenario, host_ip: Option<String>) -> (run: Self)
        ensures
            run@ == RunView::initial(scenario, host_of(scenario, optional_text(host_ip))),
            run@.wf(),
            run@.scenario == scenario,
            run@.at == 0,
            !run@.failed,
            scenario == Scenario::ClusterServer ==> (host_ip matches Some(named) ==> run@.host
                == named@),
    {
        Runner {
            scenario,
            host: host_for(scenario, host_ip),
            at: 0,
            alpha: None,
            key1: None,
            beta: None,
            outcome: String::new(),
            joined_ms: 0,
            failed: false,
        }
    }

    /// The step of the misconfigured scenario that is due.
    fn misconfigured_effect(&self) -> (effect: Effect)
        requires
            self@.wf(),
            self@.scenario == Scenario::Misconfigured,
        ensures
            effect@ == self@.script()[self@.at as int],
    {
        match self.at {
            0 => Effect::Open,
            1 => Effect::Connect,
            2 => Effect::Print { lines: one(make_connected_line(self.scenario)), flush: false },
            3 => Effect::Write { key: Key::MyKey, value: "hello".to_string() },
            4 => Effect::Print {
                lines: two(make_written_line(self.scenario), "[READY_FOR_PAUSE]".to_string()),
                flush: true,
            },
            5 => Effect::Sleep { secs: 1 },
            6 => Effect::Print {
                lines: two("".to_string(), make_sending_line(self.scenario)),
                flush: false,
            },
            7 => Effect::Read { via: Via::Held, key: Key::MyKey },
            8 => Effect::Print {
                lines: four(
                    self.outcome.clone(),
                    "".to_string(),
                    "Waiting 15 more seconds to observe background events (unresponsive + reconnect)...".to_string(),
                    "[READY_FOR_UNPAUSE]".to_string(),
                ),
                flush: true,
            },
            9 => Effect::Sleep { secs: 15 },
            10 => Effect::Print { lines: one("[DONE] Exiting.".to_string()), flush: false },
            11 => Effect::Quit,
            _ => Effect::Finish { ok: true },
        }
    }

    /// The step of the correct scenario that is due.
    fn correct_effect(&self) -> (effect: Effect)
        requires
            self@.wf(),
            self@.scenario == Scenario::Correct,
        ensures
            effect@ == self@.script()[self@.at as int],
    {
        match self.at {
            0 => Effect::Open,
            1 => Effect::Connect,
            2 => Effect::Print { lines: one(make_connected_line(self.scenario)), flush: false },
            3 => Effect::Write { key: Key::MyKey, value: "hello".to_string() },
            4 => Effect::Print {
                lines: two(make_written_line(self.scenario), "[READY_FOR_PAUSE]".to_string()),
                flush: true,
            },
            5 => Effect::Sleep { secs: 1 },
            6 => Effect::Print {
                lines: two("".to_string(), make_sending_line(self.scenario)),
                flush: false,
            },
            7 => Effect::Read { via: Via::Held, key: Key::MyKey },
            8 => Effect::Print {
                lines: two(self.outcome.clone(), "[DONE] Exiting.".to_string()),
                flush: false,
            },
            9 => Effect::Quit,
            _ => Effect::Finish { ok: true },
        }
    }

    /// The line that shows what was read before the pause.
    fn make_reads(&self) -> (line: String)
        ensures
            line@ == self@.reads(),
    {
        make_reads_line(
            debug_optional_text(&self.alpha).as_str(),
            debug_optional_text(&self.key1).as_str(),
            debug_optional_text(&self.beta).as_str(),
        )
    }

    /// The step of the cluster scenario that is due.
    fn cluster_effect(&self) -> (effect: Effect)
        requires
            self@.wf(),
            self@.scenario == Scenario::Cluster,
        ensures
            effect@ == self@.script()[self@.at as int],
    {
        match self.at {
            0 => Effect::Print {
                lines: banner_lines(self.scenario, self.host.as_str()),
                flush: false,
            },
            1 => Effect::Open,
            2 => Effect::Connect,
            3 => Effect::Print { lines: one(make_connected_line(self.scenario)), flush: false },
            4 => make_write(Node::Node1),
            5 => make_write(Node::Node2),
            6 => make_write(Node::Node3),
            7 => Effect::Print { lines: one(make_written_line(self.scenario)), flush: false },
            8 => Effect::Read { via: Via::Held, key: Key::Alpha },
            9 => Effect::Read { via: Via::Held, key: Key::Key1 },
            10 => Effect::Read { via: Via::Held, key: Key::Beta },
            11 => Effect::Print {
                lines: three(
                    self.make_reads(),
                    "".to_string(),
                    "[READY_FOR_PAUSE]".to_string(),
                ),
                flush: true,
            },
            12 => Effect::Sleep { secs: 1 },
            13 => Effect::Print { lines: expectation_lines(), flush: false },
            14 => {
                let nodes: Vec<Node> = vec![Node::Node1, Node::Node2, Node::Node3];
                assert(nodes@ =~= seq![Node::Node1, Node::Node2, Node::Node3]);
                Effect::StartReads { nodes }
            },
            15 => Effect::Print { lines: one("[READY_FOR_UNPAUSE]".to_string()), flush: true },
            16 => Effect::JoinReads,
            17 => Effect::Print {
                lines: three(
                    "".to_string(),
                    make_completed_line(self.joined_ms),
                    "[DONE] Exiting.".to_string(),
                ),
                flush: false,
            },
            18 => Effect::Quit,
            _ => Effect::Finish { ok: true },
        }
    }

    /// The step of the HTTP server that is due.
    fn server_effect(&self) -> (effect: Effect)
        requires
            self@.wf(),
            self@.scenario == Scenario::ClusterServer,
        ensures
            effect@ == self@.script()[self@.at as int],
    {
        match self.at {
            0 => Effect::Print {
                lines: banner_lines(self.scenario, self.host.as_str()),
                flush: false,
            },
            1 => Effect::Open,
            2 => Effect::Connect,
            3 => Effect::Print { lines: one(make_connected_line(self.scenario)), flush: false },
            4 => Effect::Hold,
            5 => make_write(Node::Node1),
            6 => make_write(Node::Node2),
            7 => make_write(Node::Node3),
            8 => Effect::Print { lines: one(make_written_line(self.scenario)), flush: false },
            9 => Effect::Read { via: Via::Next, key: Key::Alpha },
            10 => Effect::Read { via: Via::Next, key: Key::Key1 },
            11 => Effect::Read { via: Via::Next, key: Key::Beta },
            12 => Effect::Print { lines: two(self.make_reads(), "".to_string()), flush: false },
            13 => Effect::Bind { port: HTTP_PORT },
            14 => Effect::Print { lines: usage_lines(), flush: true },
            15 => Effect::Serve,
            16 => Effect::Quit,
            _ => Effect::Finish { ok: true },
        }
    }

    /// The step that is due.
    pub fn effect(&self) -> (effect: Effect)
        requires
            self@.wf(),
        ensures
            effect@ == self@.effect(),
    {
        if self.failed {
            return Effect::Finish { ok: false };
        }
        match self.scenario {
            Scenario::Misconfigured => self.misconfigured_effect(),
            Scenario::Correct => self.correct_effect(),
            Scenario::Cluster => self.cluster_effect(),
            Scenario::ClusterServer => self.server_effect(),
        }
    }

    /// The host of the servers.
    pub fn host(&self) -> (host: &str)
        ensures
            host@ == self@.host,
    {
        self.host.as_str()
    }

    /// Takes in how the step that is due ended. `elapsed_ms` is the time that a read
    /// took, or that passed since the concurrent reads were started.
    pub fn advance(&mut self, event: Event, elapsed_ms: u128)
        requires
            old(self)@.wf(),
            answers(old(self)@.effect(), event@),
        ensures
            final(self)@.wf(),
            final(self)@ == old(self)@.next(event@, elapsed_ms as nat),
    {
        let effect = self.effect();
        match (effect, event) {
            (Effect::Finish { .. }, _) => {
                return;
            },
            (Effect::Read { key: Key::MyKey, .. }, Event::Value { value }) => {
                self.outcome = make_succeeded_line(
                    self.scenario,
                    elapsed_ms,
                    debug_optional_text(&value).as_str(),
                );
            },
            (Effect::Read { key: Key::MyKey, .. }, Event::Failed { message, kind }) => {
                self.outcome = make_failed_line(elapsed_ms, message.as_str(), kind.as_str());
            },
            (_, Event::Failed { .. }) => {
                self.failed = true;
                return;
            },
            (Effect::Read { key: Key::Alpha, .. }, Event::Value { value }) => {
                self.alpha = value;
            },
            (Effect::Read { key: Key::Key1, .. }, Event::Value { value }) => {
                self.key1 = value;
            },
            (Effect::Read { key: Key::Beta, .. }, Event::Value { value }) => {
                self.beta = value;
            },
            (Effect::JoinReads, _) => {
                self.joined_ms = elapsed_ms;
            },
            _ => {},
        }
        self.at = self.at + 1;
    }
}

/// The line of a concurrent read, by what it came to.
pub open spec fn concurrent_line(
    node: Node,
    outcome: Result<Option<Seq<char>>, Seq<char>>,
    elapsed_ms: nat,
) -> Seq<char> {
    match outcome {
        Ok(value) => node_read_line(node, elapsed_ms, debug_optional(value)),
        Err(message) => node_error_line(node, elapsed_ms, message),
    }
}

/// The line of a concurrent read, once it has ended.
pub fn make_concurrent_line(
    node: Node,
    outcome: &Result<Option<String>, String>,
    elapsed_ms: u128,
) -> (line: String)
    ensures
        line@ == concurrent_line(node, read_outcome(*outcome), elapsed_ms as nat),
        *outcome matches Ok(value) ==> line@ == node_read_line(
            node,
            elapsed_ms as nat,
            debug_optional(optional_text(value)),
        ),
        *outcome matches Err(message) ==> line@ == node_error_line(
            node,
            elapsed_ms as nat,
            message@,
        ),
{
    match outcome {
        Ok(value) => make_node_read_line(node, elapsed_ms, debug_optional_text(value).as_str()),
        Err(message) => make_node_error_line(node, elapsed_ms, message.as_str()),
    }
}

} // verus!
