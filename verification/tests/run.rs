use fred_timeout_test::run::{Effect, Event, Runner, Via};
use fred_timeout_test::settings::{Node, Scenario};

/// A short text for a step; printed lines are joined.
fn label(effect: &Effect) -> String {
    match effect {
        Effect::Print { lines, flush } => {
            format!("print{} {}", if *flush { "!" } else { "" }, lines.join("|"))
        }
        Effect::Open => "open".to_string(),
        Effect::Connect => "connect".to_string(),
        Effect::Hold => "hold".to_string(),
        Effect::Write { key, value } => format!("write {}={}", key.name(), value),
        Effect::Read { via, key } => match via {
            Via::Held => format!("read {}", key.name()),
            Via::Next => format!("read next {}", key.name()),
        },
        Effect::Sleep { secs } => format!("sleep {}", secs),
        Effect::StartReads { nodes } => {
            assert_eq!(*nodes, vec![Node::Node1, Node::Node2, Node::Node3]);
            "start reads".to_string()
        }
        Effect::JoinReads => "join reads".to_string(),
        Effect::Bind { port } => format!("bind {}", port),
        Effect::Serve => "serve".to_string(),
        Effect::Quit => "quit".to_string(),
        Effect::Finish { ok } => format!("finish {}", ok),
    }
}

fn failure() -> Event {
    Event::Failed {
        message: "Timeout Error: Request timed out.".to_string(),
        kind: "Timeout".to_string(),
    }
}

/// Runs a scenario; reads give `value-<key>`, and the step `fail_at` fails.
fn trace(scenario: Scenario, fail_at: Option<usize>) -> Vec<String> {
    let mut run = Runner::start(scenario, None);
    let mut steps = Vec::new();
    loop {
        let effect = run.effect();
        steps.push(label(&effect));
        let event = match &effect {
            Effect::Finish { .. } => return steps,
            _ if fail_at == Some(steps.len() - 1) => failure(),
            Effect::Read { key, .. } => Event::Value { value: Some(format!("value-{}", key.name())) },
            _ => Event::Done,
        };
        run.advance(event, 1234);
    }
}

#[test]
fn course_of_the_misconfigured_scenario() {
    assert_eq!(
        trace(Scenario::Misconfigured, Some(7)),
        vec![
            "open",
            "connect",
            "print [OK] Connected to Redis.",
            "write mykey=hello",
            "print! [OK] SET mykey = hello|[READY_FOR_PAUSE]",
            "sleep 1",
            "print |[T=0s] Sending GET mykey (Redis should be paused now)...",
            "read mykey",
            "print! [T=1234ms] GET error: Timeout Error: Request timed out. (kind: Timeout)||Waiting 15 more seconds to observe background events (unresponsive + reconnect)...|[READY_FOR_UNPAUSE]",
            "sleep 15",
            "print [DONE] Exiting.",
            "quit",
            "finish true",
        ]
    );
}

#[test]
fn course_of_the_correct_scenario() {
    assert_eq!(
        trace(Scenario::Correct, None),
        vec![
            "open",
            "connect",
            "print [OK] Connected to Redis.",
            "write mykey=hello",
            "print! [OK] SET mykey = hello|[READY_FOR_PAUSE]",
            "sleep 1",
            "print |[T=0s] Sending GET mykey (Redis is paused — waiting for watchdog to reconnect)...",
            "read mykey",
            "print [T=1234ms] GET succeeded: Some(\"value-mykey\")  (reconnected + retried transparently!)|[DONE] Exiting.",
            "quit",
            "finish true",
        ]
    );
}

#[test]
fn course_of_the_cluster_scenario() {
    assert_eq!(
        trace(Scenario::Cluster, None),
        vec![
            "print === Cluster unresponsive_timeout test ===|  node1 192.168.215.1:7001 → key 'alpha'  (slot 865)|  node2 192.168.215.1:7002 → key 'key1'   (slot 9189)  ← will be paused|  node3 192.168.215.1:7003 → key 'beta'   (slot 15419)|",
            "open",
            "connect",
            "print [OK] Connected to cluster (3 nodes).",
            "write alpha=value-from-node1",
            "write key1=value-from-node2",
            "write beta=value-from-node3",
            "print [OK] SET alpha→node1, key1→node2, beta→node3",
            "read alpha",
            "read key1",
            "read beta",
            "print! [OK] Pre-pause reads: alpha=Some(\"value-alpha\") key1=Some(\"value-key1\") beta=Some(\"value-beta\")||[READY_FOR_PAUSE]",
            "sleep 1",
            "print [T=0s] node2 (7002) is now paused. Starting concurrent reads...|       → GET alpha (node1)  should succeed immediately|       → GET key1  (node2)  should block, then recover after ~10-12s|       → GET beta  (node3)  should succeed immediately|",
            "start reads",
            "print! [READY_FOR_UNPAUSE]",
            "join reads",
            "print |[T=1234ms] All GETs completed.|[DONE] Exiting.",
            "quit",
            "finish true",
        ]
    );
}

#[test]
fn course_of_the_server_scenario() {
    let steps = trace(Scenario::ClusterServer, None);
    assert!(steps[0].starts_with("print === Cluster pool + HTTP server debug harness ===|  pool size: 3|"));
    assert_eq!(
        steps[1..13].to_vec(),
        vec![
            "open",
            "connect",
            "print [OK] Pool connected (3 clients, 3 connections per node).",
            "hold",
            "write alpha=value-from-node1",
            "write key1=value-from-node2",
            "write beta=value-from-node3",
            "print [OK] SET alpha→node1, key1→node2, beta→node3",
            "read next alpha",
            "read next key1",
            "read next beta",
            "print [OK] Pre-pause reads: alpha=Some(\"value-alpha\") key1=Some(\"value-key1\") beta=Some(\"value-beta\")|",
        ]
    );
    assert_eq!(steps[13], "bind 8181");
    assert!(steps[14].starts_with("print! [OK] HTTP server listening on http://0.0.0.0:8181||"));
    assert_eq!(steps[15..].to_vec(), vec!["serve", "quit", "finish true"]);
}

#[test]
fn an_error_of_a_call_ends_the_run_at_once() {
    let fatal = [
        (Scenario::Misconfigured, vec![0usize, 1, 3, 11]),
        (Scenario::Correct, vec![0, 1, 3, 9]),
        (Scenario::Cluster, vec![1, 2, 4, 5, 6, 8, 9, 10, 18]),
        (Scenario::ClusterServer, vec![1, 2, 5, 6, 7, 9, 10, 11, 16]),
    ];
    for (scenario, places) in fatal {
        let whole = trace(scenario, None);
        for place in places {
            let steps = trace(scenario, Some(place));
            assert_eq!(steps[..=place].to_vec(), whole[..=place].to_vec());
            assert_eq!(steps[place + 1..].to_vec(), vec!["finish false"]);
        }
    }
}

#[test]
fn a_missing_value_is_shown_as_none() {
    let mut run = Runner::start(Scenario::Cluster, None);
    for _ in 0..8 {
        run.advance(Event::Done, 0);
    }
    for _ in 0..3 {
        assert!(matches!(run.effect(), Effect::Read { .. }));
        run.advance(Event::Value { value: None }, 0);
    }
    assert_eq!(
        label(&run.effect()),
        "print! [OK] Pre-pause reads: alpha=None key1=None beta=None||[READY_FOR_PAUSE]"
    );
}

#[test]
fn a_run_keeps_the_host_it_was_started_with() {
    let named = Some("10.9.8.7".to_string());
    assert_eq!(Runner::start(Scenario::ClusterServer, named.clone()).host(), "10.9.8.7");
    assert_eq!(Runner::start(Scenario::Correct, named).host(), "127.0.0.1");
}
