use fred_timeout_test::netem::{
    handle_pause, handle_unpause, not_started_answer, pause_failed_answer, paused_answer,
    unpause_answer, unpause_failed_answer, unpaused_answer, Answer, CommandOutcome, PauseParams,
    PauseRun, ShellCommand,
};
use serde_json::Value;

fn exited(success: bool, stderr: &[u8]) -> CommandOutcome {
    CommandOutcome::Exited { success, stderr: stderr.to_vec() }
}

fn not_started(error: &str) -> CommandOutcome {
    CommandOutcome::NotStarted { error: error.to_string() }
}

fn words(command: &ShellCommand) -> String {
    assert_eq!(command.program, "docker");
    command.args.join(" ")
}

fn due(run: &PauseRun) -> String {
    words(&run.command().unwrap())
}

fn reply(answer: Answer) -> Value {
    Value::Object(answer.reply)
}

fn parsed(text: &str) -> Value {
    serde_json::from_str(text).unwrap()
}

const PROBE: &str = "exec redis-cluster-2 which tc";
const CLEAR: &str = "exec redis-cluster-2 tc qdisc del dev eth0 root";

/// A pause up to the command that adds the delay.
fn ready_to_add(ms: Option<u64>) -> PauseRun {
    let mut run = handle_pause(PauseParams { ms });
    assert!(run.record(&exited(true, b"")).is_none());
    assert!(run.record(&exited(true, b"")).is_none());
    run
}

#[test]
fn pause_with_tc_in_place_runs_three_commands() {
    let mut run = handle_pause(PauseParams { ms: Some(3000) });
    assert_eq!(due(&run), PROBE);
    assert!(run.record(&exited(true, b"")).is_none());
    assert_eq!(due(&run), CLEAR);
    assert!(run.record(&exited(false, b"nothing to remove")).is_none());
    assert_eq!(
        due(&run),
        "exec redis-cluster-2 tc qdisc add dev eth0 root netem delay 3000ms"
    );
    let answer = run.record(&exited(true, b"")).unwrap();
    assert!(run.command().is_none());
    assert_eq!(
        answer.log.as_deref(),
        Some("[PAUSE] tc netem delay 3000ms applied to redis-cluster-2 eth0")
    );
    assert_eq!(
        reply(answer),
        parsed(
            r#"{"ok":true,"delay_ms":3000,"msg":"tc netem delay 3000ms applied. cluster-node-timeout=60s keeps cluster healthy."}"#
        )
    );
}

#[test]
fn pause_installs_tc_where_the_probe_fails() {
    for probe in [exited(false, b""), not_started("no docker")] {
        let mut run = handle_pause(PauseParams { ms: None });
        assert_eq!(due(&run), PROBE);
        assert!(run.record(&probe).is_none());
        let install = run.command().unwrap();
        assert_eq!(install.program, "docker");
        assert_eq!(
            install.args,
            vec![
                "exec",
                "redis-cluster-2",
                "bash",
                "-c",
                "apt-get update -qq && apt-get install -y -qq iproute2",
            ]
        );
        assert!(run.record(&exited(false, b"apt failed")).is_none());
        assert_eq!(due(&run), CLEAR);
        assert!(run.record(&not_started("gone")).is_none());
        assert_eq!(
            due(&run),
            "exec redis-cluster-2 tc qdisc add dev eth0 root netem delay 15000ms"
        );
        assert!(run.record(&exited(true, b"")).is_some());
        assert!(run.command().is_none());
    }
}

#[test]
fn pause_whose_last_command_fails_reports_its_error_stream() {
    let mut run = ready_to_add(Some(7));
    let answer = run.record(&exited(false, b"Error: Exclusivity flag on")).unwrap();
    assert_eq!(
        answer.log.as_deref(),
        Some("[PAUSE] tc netem failed: Error: Exclusivity flag on")
    );
    assert_eq!(reply(answer), parsed(r#"{"ok":false,"error":"Error: Exclusivity flag on"}"#));
}

#[test]
fn bytes_that_are_no_text_are_replaced() {
    let mut run = ready_to_add(None);
    let answer = run.record(&exited(false, &[b'a', 0xff, b'b'])).unwrap();
    assert_eq!(answer.log.as_deref(), Some("[PAUSE] tc netem failed: a\u{fffd}b"));
    assert_eq!(reply(answer), parsed("{\"ok\":false,\"error\":\"a\u{fffd}b\"}"));
}

#[test]
fn pause_whose_last_command_cannot_start_logs_nothing() {
    let mut run = ready_to_add(None);
    let answer = run.record(&not_started("No such file or directory (os error 2)")).unwrap();
    assert!(answer.log.is_none());
    assert_eq!(
        reply(answer),
        parsed(r#"{"ok":false,"error":"No such file or directory (os error 2)"}"#)
    );
}

#[test]
fn the_default_delay_is_fifteen_seconds() {
    let run = ready_to_add(None);
    assert!(due(&run).ends_with(" 15000ms"));
    let run = ready_to_add(Some(0));
    assert!(due(&run).ends_with(" 0ms"));
    let run = ready_to_add(Some(u64::MAX));
    assert!(due(&run).ends_with(" 18446744073709551615ms"));
}

#[test]
fn unpause_runs_the_command_that_a_pause_clears_with() {
    assert_eq!(words(&handle_unpause()), CLEAR);
}

#[test]
fn unpause_that_succeeds() {
    let answer = unpause_answer(&exited(true, b"ignored"));
    assert_eq!(answer.log.as_deref(), Some("[UNPAUSE] tc netem removed from redis-cluster-2"));
    assert_eq!(
        reply(answer),
        parsed(r#"{"ok":true,"msg":"tc netem delay removed from redis-cluster-2 eth0"}"#)
    );
}

#[test]
fn unpause_that_fails() {
    let answer = unpause_answer(&exited(false, "Löschen: \u{2718}".as_bytes()));
    assert_eq!(
        answer.log.as_deref(),
        Some("[UNPAUSE] tc del failed (may already be clear): Löschen: \u{2718}")
    );
    assert_eq!(reply(answer), parsed("{\"ok\":false,\"error\":\"Löschen: \u{2718}\"}"));
}

#[test]
fn unpause_that_cannot_start() {
    let answer = unpause_answer(&not_started("denied"));
    assert!(answer.log.is_none());
    assert_eq!(reply(answer), parsed(r#"{"ok":false,"error":"denied"}"#));
}

#[test]
fn answers_by_their_text() {
    assert!(not_started_answer("e").log.is_none());
    assert_eq!(
        paused_answer(1).log.as_deref(),
        Some("[PAUSE] tc netem delay 1ms applied to redis-cluster-2 eth0")
    );
    assert_eq!(pause_failed_answer("e").log.as_deref(), Some("[PAUSE] tc netem failed: e"));
    assert_eq!(
        unpaused_answer().log.as_deref(),
        Some("[UNPAUSE] tc netem removed from redis-cluster-2")
    );
    assert_eq!(
        unpause_failed_answer("e").log.as_deref(),
        Some("[UNPAUSE] tc del failed (may already be clear): e")
    );
}
