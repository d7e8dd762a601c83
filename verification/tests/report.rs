use fred_timeout_test::report::{
    banner_lines, make_completed_line, make_event_line, make_failed_line, make_node_error_line,
    make_node_read_line, make_reads_line, make_succeeded_line, usage_lines, ClientEvent,
    ServerName,
};
use fred_timeout_test::run::make_concurrent_line;
use fred_timeout_test::settings::{Node, Scenario};

fn server() -> ServerName {
    ServerName { host: "10.1.2.3".to_string(), port: 7002, display: "10.1.2.3:7002".to_string() }
}

fn error() -> ClientEvent {
    ClientEvent::Error { display: "IO Error: gone".to_string(), debug: "Redis Error - gone".to_string() }
}

#[test]
fn cluster_banner() {
    assert_eq!(
        banner_lines(Scenario::Cluster, "192.168.215.1"),
        vec![
            "=== Cluster unresponsive_timeout test ===",
            "  node1 192.168.215.1:7001 → key 'alpha'  (slot 865)",
            "  node2 192.168.215.1:7002 → key 'key1'   (slot 9189)  ← will be paused",
            "  node3 192.168.215.1:7003 → key 'beta'   (slot 15419)",
            "",
        ]
    );
}

#[test]
fn server_banner() {
    assert_eq!(
        banner_lines(Scenario::ClusterServer, "10.0.0.9"),
        vec![
            "=== Cluster pool + HTTP server debug harness ===",
            "  pool size: 3",
            "  node1 10.0.0.9:7001 → key 'alpha'  (slot 865)",
            "  node2 10.0.0.9:7002 → key 'key1'   (slot 9189)  ← will be paused",
            "  node3 10.0.0.9:7003 → key 'beta'   (slot 15419)",
            "  HTTP server: http://0.0.0.0:8181",
            "",
        ]
    );
}

#[test]
fn one_server_scenarios_have_no_banner() {
    assert!(banner_lines(Scenario::Misconfigured, "127.0.0.1").is_empty());
    assert!(banner_lines(Scenario::Correct, "127.0.0.1").is_empty());
}

#[test]
fn lines_of_the_tested_read() {
    assert_eq!(
        make_succeeded_line(Scenario::Correct, 12034, "Some(\"hello\")"),
        "[T=12034ms] GET succeeded: Some(\"hello\")  (reconnected + retried transparently!)"
    );
    assert_eq!(
        make_succeeded_line(Scenario::Misconfigured, 1, "None"),
        "[T=1ms] GET succeeded: None"
    );
    assert_eq!(
        make_failed_line(5001, "Timeout Error: Request timed out.", "Timeout"),
        "[T=5001ms] GET error: Timeout Error: Request timed out. (kind: Timeout)"
    );
}

#[test]
fn lines_of_the_concurrent_reads() {
    assert_eq!(
        make_node_read_line(Node::Node1, 2, "Some(\"v\")"),
        "[T=2ms] GET alpha (node1) → Some(\"v\")  ✓ unaffected"
    );
    assert_eq!(
        make_node_read_line(Node::Node2, 11000, "Some(\"v\")"),
        "[T=11000ms] GET key1  (node2) → Some(\"v\")  ← recovered after reconnect"
    );
    assert_eq!(
        make_node_error_line(Node::Node3, 60000, "Timeout Error"),
        "[T=60000ms] GET beta  (node3) → ERROR: Timeout Error"
    );
    assert_eq!(
        make_concurrent_line(Node::Node3, &Ok(Some("x\ty".to_string())), 5),
        "[T=5ms] GET beta  (node3) → Some(\"x\\ty\")  ✓ unaffected"
    );
    assert_eq!(
        make_concurrent_line(Node::Node1, &Ok(None), 5),
        "[T=5ms] GET alpha (node1) → None  ✓ unaffected"
    );
    assert_eq!(
        make_concurrent_line(Node::Node2, &Err("oops".to_string()), 6),
        "[T=6ms] GET key1  (node2) → ERROR: oops"
    );
    assert_eq!(make_completed_line(12000), "[T=12000ms] All GETs completed.");
}

#[test]
fn line_of_the_reads_before_the_pause() {
    assert_eq!(
        make_reads_line("Some(\"a\")", "None", "Some(\"b\")"),
        "[OK] Pre-pause reads: alpha=Some(\"a\") key1=None beta=Some(\"b\")"
    );
}

#[test]
fn help_of_the_server() {
    assert_eq!(
        usage_lines(),
        vec![
            "[OK] HTTP server listening on http://0.0.0.0:8181",
            "",
            "  ── Read / Write ───────────────────────────────────────────────",
            "  curl http://localhost:8181/get/alpha",
            "  curl http://localhost:8181/get/key1",
            "  curl http://localhost:8181/get/beta",
            "  curl http://localhost:8181/set/mykey/myval",
            "",
            "  ── tc netem control (docker exec redis-cluster-2) ─────────────",
            "  curl -X POST   'http://localhost:8181/pause?ms=15000'  # inject 15s delay",
            "  curl -X POST   'http://localhost:8181/pause?ms=3000'   # inject 3s delay",
            "  curl -X DELETE  http://localhost:8181/pause             # remove delay",
            "",
            "  ── Status ─────────────────────────────────────────────────────",
            "  curl http://localhost:8181/status",
            "",
            "  Press Ctrl+C to exit.",
            "",
        ]
    );
}

#[test]
fn events_of_one_server_scenarios() {
    for scenario in [Scenario::Misconfigured, Scenario::Correct] {
        assert_eq!(
            make_event_line(scenario, 0, &ClientEvent::Unresponsive { server: server() }),
            "[EVENT][unresponsive] Server went unresponsive: 10.1.2.3:7002"
        );
        assert_eq!(
            make_event_line(scenario, 0, &ClientEvent::Reconnected { server: server() }),
            "[EVENT][reconnect] Reconnected to: 10.1.2.3:7002"
        );
        assert_eq!(
            make_event_line(scenario, 0, &error()),
            "[EVENT][error] Connection error: Redis Error - gone"
        );
    }
}

#[test]
fn events_of_the_cluster_scenario() {
    assert_eq!(
        make_event_line(Scenario::Cluster, 0, &ClientEvent::Unresponsive { server: server() }),
        "[EVENT][unresponsive] node 10.1.2.3:7002 went unresponsive"
    );
    assert_eq!(
        make_event_line(Scenario::Cluster, 0, &ClientEvent::Reconnected { server: server() }),
        "[EVENT][reconnect] reconnected to 10.1.2.3:7002"
    );
    assert_eq!(make_event_line(Scenario::Cluster, 0, &error()), "[EVENT][error] IO Error: gone");
}

#[test]
fn events_of_the_server_scenario_name_the_client() {
    assert_eq!(
        make_event_line(Scenario::ClusterServer, 2, &ClientEvent::Unresponsive { server: server() }),
        "[EVENT][client-2][unresponsive] node 10.1.2.3:7002 went unresponsive"
    );
    assert_eq!(
        make_event_line(Scenario::ClusterServer, 1, &ClientEvent::Reconnected { server: server() }),
        "[EVENT][client-1][reconnect] reconnected to 10.1.2.3:7002"
    );
    assert_eq!(
        make_event_line(Scenario::ClusterServer, 0, &error()),
        "[EVENT][client-0][error] IO Error: gone"
    );
}
