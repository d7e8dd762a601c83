//! What holds of every run of a scenario, whatever the servers answer.

use crate::report::{banner, completed_line, failed_line, succeeded_line};
use crate::run::{answers, EffectView, EventView, RunView};
use crate::settings::{Key, Scenario};
use crate::text::{debug_optional, debug_text, decimal};
use crate::wording::{
    law_completed_line_shows_the_time, law_reads_line_shows_the_values, law_tested_read_is_reported,
};
use vstd::prelude::*;

verus! {

/// An answer to a step: how the step ended, and the time that goes with it.
pub type Reply = (EventView, nat);

/// The state of a run after some answers.
pub open spec fn play(run: RunView, replies: Seq<Reply>) -> RunView
    decreases replies.len(),
{
    if replies.len() == 0 {
        run
    } else {
        play(run, replies.drop_last()).next(replies.last().0, replies.last().1)
    }
}

/// The steps that were performed on the way.
pub open spec fn performed(run: RunView, replies: Seq<Reply>) -> Seq<EffectView>
    decreases replies.len(),
{
    if replies.len() == 0 {
        Seq::empty()
    } else {
        performed(run, replies.drop_last()).push(play(run, replies.drop_last()).effect())
    }
}

/// Every answer fits the step that was due.
pub open spec fn fitting(run: RunView, replies: Seq<Reply>) -> bool
    decreases replies.len(),
{
    if replies.len() == 0 {
        true
    } else {
        &&& fitting(run, replies.drop_last())
        &&& answers(play(run, replies.drop_last()).effect(), replies.last().0)
    }
}

/// A step forward leaves the steps so far as they were: only later lines show what was
/// learnt.
pub proof fn law_steps_taken_do_not_change(run: RunView, event: EventView, elapsed_ms: nat)
    requires
        run.wf(),
        answers(run.effect(), event),
    ensures
        run.next(event, elapsed_ms).wf(),
        run.next(event, elapsed_ms).script().len() == run.script().len(),
        run.next(event, elapsed_ms).script().take(run.at as int + 1) == run.script().take(
            run.at as int + 1,
        ),
{
    let next = run.next(event, elapsed_ms);
    assert forall|i: int| 0 <= i <= run.at implies next.script()[i] == run.script()[i] by {}
    assert(next.script().take(run.at as int + 1) =~= run.script().take(run.at as int + 1));
}

/// The end is the last step of every script, and no other step is the end.
proof fn lemma_end_is_last(run: RunView)
    requires
        run.wf(),
    ensures
        run.effect() == (EffectView::Finish { ok: false }) <==> run.failed,
        run.effect() == (EffectView::Finish { ok: true }) <==> !run.failed && run.at + 1
            == run.script().len(),
{
}

/// An answer carries the run on by one step, or ends it.
proof fn lemma_next(run: RunView, event: EventView, elapsed_ms: nat)
    requires
        run.wf(),
        answers(run.effect(), event),
    ensures
        !run.failed,
        run.next(event, elapsed_ms).scenario == run.scenario,
        run.next(event, elapsed_ms).host == run.host,
        run.next(event, elapsed_ms).failed ==> run.next(event, elapsed_ms).at == run.at,
        !run.next(event, elapsed_ms).failed ==> run.next(event, elapsed_ms).at == run.at + 1,
{
}

/// The steps that were performed, with the last one at its place in the script.
proof fn lemma_extend(
    before: Seq<EffectView>,
    after: Seq<EffectView>,
    n: int,
    done: Seq<EffectView>,
    step: EffectView,
)
    requires
        0 <= n < before.len(),
        n < after.len(),
        done == before.take(n),
        step == before[n],
        after.take(n + 1) == before.take(n + 1),
    ensures
        done.push(step) == after.take(n + 1),
{
    assert(before.take(n).push(before[n]) =~= before.take(n + 1));
}

/// A run performs the steps of its script, each once and in order, until it is through
/// or an error ends it. No step follows the error.
pub proof fn law_steps_are_performed_in_order(
    scenario: Scenario,
    host: Seq<char>,
    replies: Seq<Reply>,
)
    requires
        fitting(RunView::initial(scenario, host), replies),
    ensures
        ({
            let run = play(RunView::initial(scenario, host), replies);
            &&& run.wf()
            &&& run.scenario == scenario
            &&& run.host == host
            &&& performed(RunView::initial(scenario, host), replies) == run.script().take(
                replies.len() as int,
            )
            &&& run.failed ==> run.at + 1 == replies.len()
            &&& !run.failed ==> run.at == replies.len()
            &&& run.effect() == (EffectView::Finish { ok: false }) <==> run.failed
            &&& run.effect() == (EffectView::Finish { ok: true }) <==> !run.failed
                && replies.len() + 1 == run.script().len()
        }),
    decreases replies.len(),
{
    let start = RunView::initial(scenario, host);
    let run = play(start, replies);
    if replies.len() > 0 {
        let fewer = replies.drop_last();
        let before = play(start, fewer);
        law_steps_are_performed_in_order(scenario, host, fewer);
        lemma_next(before, replies.last().0, replies.last().1);
        law_steps_taken_do_not_change(before, replies.last().0, replies.last().1);
        lemma_extend(
            before.script(),
            run.script(),
            fewer.len() as int,
            performed(start, fewer),
            before.effect(),
        );
    } else {
        assert(run.script().take(0) =~= Seq::empty());
    }
    lemma_end_is_last(run);
}

/// The line that reports how the read of a one-server scenario ended.
pub open spec fn outcome_line(scenario: Scenario, reply: Reply) -> Seq<char> {
    match reply.0 {
        EventView::Value { value } => succeeded_line(scenario, reply.1, debug_optional(value)),
        EventView::Failed { message, kind } => failed_line(reply.1, message, kind),
        EventView::Done => Seq::empty(),
    }
}

/// The step at which a cluster scenario reads the first of its three keys.
pub open spec fn first_read(scenario: Scenario) -> nat {
    if scenario == Scenario::Cluster {
        8
    } else {
        9
    }
}

/// The step at which a one-server scenario reads its key.
pub open spec fn only_read() -> nat {
    7
}

/// The step at which the cluster scenario waits for its concurrent reads.
pub open spec fn join_step() -> nat {
    16
}

/// Whether a scenario talks to one server only.
pub open spec fn one_server(scenario: Scenario) -> bool {
    scenario == Scenario::Misconfigured || scenario == Scenario::Correct
}

/// What one answer adds to what a run has learnt.
proof fn lemma_next_learns(run: RunView, event: EventView, elapsed_ms: nat)
    requires
        run.wf(),
        answers(run.effect(), event),
    ensures
        ({
            let next = run.next(event, elapsed_ms);
            let first = first_read(run.scenario);
            if one_server(run.scenario) {
                next.outcome == (if run.at == only_read() {
                    outcome_line(run.scenario, (event, elapsed_ms))
                } else {
                    run.outcome
                })
            } else {
                &&& run.at == first && !next.failed ==> event == (EventView::Value {
                    value: next.alpha,
                })
                &&& run.at != first ==> next.alpha == run.alpha
                &&& run.at == first + 1 && !next.failed ==> event == (EventView::Value {
                    value: next.key1,
                })
                &&& run.at != first + 1 ==> next.key1 == run.key1
                &&& run.at == first + 2 && !next.failed ==> event == (EventView::Value {
                    value: next.beta,
                })
                &&& run.at != first + 2 ==> next.beta == run.beta
                &&& run.scenario == Scenario::Cluster ==> next.joined_ms == (if run.at
                    == join_step() {
                    elapsed_ms
                } else {
                    run.joined_ms
                })
            }
        }),
{
}

/// A run reports what the servers answered. A one-server scenario shows how its read
/// ended, a value and an error alike; the cluster scenarios show the three values that
/// were read before the pause, in their order; and the cluster scenario shows the time
/// that its concurrent reads took.
pub proof fn law_answers_are_reported(scenario: Scenario, host: Seq<char>, replies: Seq<Reply>)
    requires
        fitting(RunView::initial(scenario, host), replies),
    ensures
        ({
            let run = play(RunView::initial(scenario, host), replies);
            let first = first_read(scenario) as int;
            let known = run.at as int;
            if one_server(scenario) {
                known > only_read() ==> run.outcome == outcome_line(
                    scenario,
                    replies[only_read() as int],
                )
            } else {
                &&& known > first ==> replies[first].0 == (EventView::Value { value: run.alpha })
                &&& known > first + 1 ==> replies[first + 1].0 == (EventView::Value {
                    value: run.key1,
                })
                &&& known > first + 2 ==> replies[first + 2].0 == (EventView::Value {
                    value: run.beta,
                })
                &&& scenario == Scenario::Cluster && known > join_step() ==> run.joined_ms
                    == replies[join_step() as int].1
            }
        }),
    decreases replies.len(),
{
    let start = RunView::initial(scenario, host);
    if replies.len() > 0 {
        let fewer = replies.drop_last();
        let before = play(start, fewer);
        law_answers_are_reported(scenario, host, fewer);
        law_steps_are_performed_in_order(scenario, host, fewer);
        lemma_next(before, replies.last().0, replies.last().1);
        lemma_next_learns(before, replies.last().0, replies.last().1);
    }
}

/// The step at which a one-server scenario reports its read.
pub open spec fn outcome_step() -> nat {
    8
}

/// The step at which a cluster scenario shows its three reads.
pub open spec fn reads_step(scenario: Scenario) -> nat {
    first_read(scenario) + 3
}

/// The step at which the cluster scenario shows how long its concurrent reads took.
pub open spec fn completed_step() -> nat {
    17
}

/// Whether a step of a scenario shows something that differs from run to run: the host,
/// or what was learnt on the way.
pub open spec fn shows_something(scenario: Scenario, step: int) -> bool {
    if one_server(scenario) {
        step == outcome_step()
    } else {
        ||| step == 0
        ||| step == reads_step(scenario)
        ||| scenario == Scenario::Cluster && step == completed_step()
    }
}

/// Two runs of a scenario take the same steps, whatever their hosts and whatever they
/// have learnt, but for the lines that show just that. The host shows in the first step
/// alone, and each thing that was learnt in the one step that reports it.
pub proof fn law_runs_of_a_scenario_take_the_same_steps(run: RunView, other: RunView, i: int)
    requires
        run.scenario == other.scenario,
        0 <= i < run.script().len(),
    ensures
        run.script().len() == other.script().len(),
        !shows_something(run.scenario, i) ==> run.script()[i] == other.script()[i],
        shows_something(run.scenario, i) ==> run.script()[i] is Print && other.script()[i] is Print,
        !one_server(run.scenario) && i == 0 && run.host == other.host ==> run.script()[i]
            == other.script()[i],
        one_server(run.scenario) && run.outcome == other.outcome ==> run.script()[i]
            == other.script()[i],
        !one_server(run.scenario) && i == reads_step(run.scenario) && run.alpha == other.alpha
            && run.key1 == other.key1 && run.beta == other.beta ==> run.script()[i]
            == other.script()[i],
        run.scenario == Scenario::Cluster && i == completed_step() && run.joined_ms
            == other.joined_ms ==> run.script()[i] == other.script()[i],
{
}

/// The steps that show something show it among lines that are always the same, and only
/// those that someone waits for are flushed.
pub proof fn law_what_the_showing_steps_print(run: RunView)
    ensures
        run.scenario == Scenario::Misconfigured ==> run.script()[outcome_step() as int] == (
        EffectView::Print {
            lines: seq![
                run.outcome,
                ""@,
                "Waiting 15 more seconds to observe background events (unresponsive + reconnect)..."@,
                "[READY_FOR_UNPAUSE]"@,
            ],
            flush: true,
        }),
        run.scenario == Scenario::Correct ==> run.script()[outcome_step() as int] == (
        EffectView::Print { lines: seq![run.outcome, "[DONE] Exiting."@], flush: false }),
        !one_server(run.scenario) ==> run.script()[0] == (EffectView::Print {
            lines: banner(run.scenario, run.host),
            flush: false,
        }),
        run.scenario == Scenario::Cluster ==> run.script()[reads_step(run.scenario) as int] == (
        EffectView::Print {
            lines: seq![run.reads(), ""@, "[READY_FOR_PAUSE]"@],
            flush: true,
        }),
        run.scenario == Scenario::ClusterServer ==> run.script()[reads_step(run.scenario) as int]
            == (EffectView::Print { lines: seq![run.reads(), ""@], flush: false }),
        run.scenario == Scenario::Cluster ==> run.script()[completed_step() as int] == (
        EffectView::Print {
            lines: seq![""@, completed_line(run.joined_ms), "[DONE] Exiting."@],
            flush: false,
        }),
{
}

/// Every key that a scenario reads was written by an earlier step of it.
pub proof fn law_reads_follow_writes(run: RunView, i: int)
    requires
        0 <= i < run.script().len(),
        run.script()[i] is Read,
    ensures
        exists|j: int|
            0 <= j < i && (#[trigger] run.script()[j] matches EffectView::Write { key, .. } && key
                == run.script()[i]->Read_key),
{
    let earlier = if one_server(run.scenario) {
        3
    } else {
        let first = if run.scenario == Scenario::Cluster {
            4int
        } else {
            5int
        };
        match run.script()[i]->Read_key {
            Key::Alpha => first,
            Key::Key1 => first + 1,
            _ => first + 2,
        }
    };
    assert(run.script()[earlier] is Write);
    assert(run.script()[earlier]->Write_key == run.script()[i]->Read_key);
}

/// Every scenario opens its clients, connects them, and makes no call before that; it
/// closes the connections just before its end, and every step between is neither.
pub proof fn law_calls_come_between_connecting_and_closing(run: RunView, i: int)
    requires
        0 <= i < run.script().len(),
    ensures
        ({
            let script = run.script();
            let open = if one_server(run.scenario) {
                0int
            } else {
                1int
            };
            &&& script[i] is Open <==> i == open
            &&& script[i] is Connect <==> i == open + 1
            &&& script[i] is Read || script[i] is Write || script[i] is StartReads || script[i]
                is Serve ==> open + 1 < i < script.len() - 2
            &&& script[i] is Quit <==> i == script.len() - 2
            &&& script[i] is Finish <==> i == script.len() - 1
            &&& script[i] is Finish ==> script[i] == (EffectView::Finish { ok: true })
        }),
{
}

/// What the read of a one-server scenario came to is the next thing printed: the value
/// that was read, or the error that came in its place, after the time that it took.
pub proof fn law_tested_read_is_printed(scenario: Scenario, host: Seq<char>, replies: Seq<Reply>)
    requires
        one_server(scenario),
        fitting(RunView::initial(scenario, host), replies),
        replies.len() == outcome_step(),
        !play(RunView::initial(scenario, host), replies).failed,
    ensures
        ({
            let run = play(RunView::initial(scenario, host), replies);
            let (event, elapsed_ms) = replies[only_read() as int];
            let stamp = "[T="@ + decimal(elapsed_ms) + "ms] GET "@;
            let retried = if scenario == Scenario::Misconfigured {
                ""@
            } else {
                "  (reconnected + retried transparently!)"@
            };
            &&& run.effect() matches EffectView::Print { lines, .. }
            &&& stamp.is_prefix_of(lines[0])
            &&& match event {
                EventView::Value { value: Some(text) } => lines[0].skip(stamp.len() as int)
                    == "succeeded: "@ + ("Some("@ + debug_text(text) + ")"@) + retried,
                EventView::Value { value: None } => lines[0].skip(stamp.len() as int)
                    == "succeeded: "@ + "None"@ + retried,
                EventView::Failed { message, kind } => lines[0].skip(stamp.len() as int)
                    == "error: "@ + message + " (kind: "@ + kind + ")"@,
                EventView::Done => false,
            }
        }),
{
    let start = RunView::initial(scenario, host);
    let run = play(start, replies);
    let fewer = replies.drop_last();
    law_steps_are_performed_in_order(scenario, host, replies);
    law_steps_are_performed_in_order(scenario, host, fewer);
    law_answers_are_reported(scenario, host, replies);
    law_what_the_showing_steps_print(run);
    let (event, elapsed_ms) = replies[only_read() as int];
    let shown = match event {
        EventView::Value { value } => debug_optional(value),
        _ => Seq::empty(),
    };
    let (message, kind) = match event {
        EventView::Failed { message, kind } => (message, kind),
        _ => (Seq::empty(), Seq::empty()),
    };
    law_tested_read_is_reported(scenario, elapsed_ms, shown, message, kind);
    assert(answers(play(start, fewer).effect(), event));
    assert(play(start, fewer).at == only_read());
}

/// What a cluster scenario read before the pause is the next thing printed: the three
/// values as they came back, each behind the name of its key.
pub proof fn law_first_reads_are_printed(scenario: Scenario, host: Seq<char>, replies: Seq<Reply>)
    requires
        !one_server(scenario),
        fitting(RunView::initial(scenario, host), replies),
        replies.len() == reads_step(scenario),
        !play(RunView::initial(scenario, host), replies).failed,
    ensures
        ({
            let run = play(RunView::initial(scenario, host), replies);
            let first = first_read(scenario) as int;
            &&& replies[first].0 matches EventView::Value { value: alpha }
            &&& replies[first + 1].0 matches EventView::Value { value: key1 }
            &&& replies[first + 2].0 matches EventView::Value { value: beta }
            &&& run.effect() matches EffectView::Print { lines, .. }
            &&& lines[0].take(28) == "[OK] Pre-pause reads: alpha="@
            &&& lines[0].skip(28) == debug_optional(alpha) + " key1="@ + debug_optional(key1)
                + " beta="@ + debug_optional(beta)
        }),
{
    let run = play(RunView::initial(scenario, host), replies);
    law_steps_are_performed_in_order(scenario, host, replies);
    law_answers_are_reported(scenario, host, replies);
    law_what_the_showing_steps_print(run);
    let alpha = debug_optional(run.alpha);
    let key1 = debug_optional(run.key1);
    let beta = debug_optional(run.beta);
    law_reads_line_shows_the_values(alpha, key1, beta);
    reveal_strlit("[OK] Pre-pause reads: alpha=");
    assert(run.reads().skip(28) =~= alpha + " key1="@ + key1 + " beta="@ + beta);
}

/// How long the concurrent reads took is printed once they are joined.
pub proof fn law_joined_time_is_printed(host: Seq<char>, replies: Seq<Reply>)
    requires
        fitting(RunView::initial(Scenario::Cluster, host), replies),
        replies.len() == completed_step(),
        !play(RunView::initial(Scenario::Cluster, host), replies).failed,
    ensures
        ({
            let run = play(RunView::initial(Scenario::Cluster, host), replies);
            &&& run.effect() matches EffectView::Print { lines, .. }
            &&& lines[1] == "[T="@ + decimal(replies[join_step() as int].1)
                + "ms] All GETs completed."@
        }),
{
    let run = play(RunView::initial(Scenario::Cluster, host), replies);
    law_steps_are_performed_in_order(Scenario::Cluster, host, replies);
    law_answers_are_reported(Scenario::Cluster, host, replies);
    law_what_the_showing_steps_print(run);
    law_completed_line_shows_the_time(run.joined_ms);
}

/// An error at the read of a one-server scenario is reported and does not end the run.
/// An error of any other call ends it at once.
pub proof fn law_only_the_tested_read_may_fail(
    run: RunView,
    message: Seq<char>,
    kind: Seq<char>,
    elapsed_ms: nat,
)
    requires
        run.wf(),
        answers(run.effect(), EventView::Failed { message, kind }),
    ensures
        run.next(EventView::Failed { message, kind }, elapsed_ms).failed <==> !(one_server(
            run.scenario,
        ) && run.at == only_read()),
{
}

} // verus!
