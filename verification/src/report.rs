//! The lines that the scenarios print.

use crate::handlers::POOL_SIZE;
use crate::settings::{Node, Scenario};
use crate::text::{and_line, decimal, decimal_text, no_lines, texts};
use vstd::prelude::*;

verus! {

/// The port of the HTTP server.
pub const HTTP_PORT: u16 = 8181;

/// The line that shows a node, its key and the slot of that key.
pub open spec fn node_line(host: Seq<char>, node: Node) -> Seq<char> {
    match node {
        Node::Node1 => "  node1 "@ + host + ":"@ + decimal(node.spec_port() as nat)
            + " → key 'alpha'  (slot "@ + decimal(node.spec_slot() as nat) + ")"@,
        Node::Node2 => "  node2 "@ + host + ":"@ + decimal(node.spec_port() as nat)
            + " → key 'key1'   (slot "@ + decimal(node.spec_slot() as nat)
            + ")  ← will be paused"@,
        Node::Node3 => "  node3 "@ + host + ":"@ + decimal(node.spec_port() as nat)
            + " → key 'beta'   (slot "@ + decimal(node.spec_slot() as nat) + ")"@,
    }
}

/// The line that shows a node.
fn make_node_line(host: &str, node: Node) -> (line: String)
    ensures
        line@ == node_line(host@, node),
{
    let start = match node {
        Node::Node1 => "  node1 ",
        Node::Node2 => "  node2 ",
        Node::Node3 => "  node3 ",
    };
    let middle = match node {
        Node::Node1 => " → key 'alpha'  (slot ",
        Node::Node2 => " → key 'key1'   (slot ",
        Node::Node3 => " → key 'beta'   (slot ",
    };
    let end = match node {
        Node::Node1 => ")",
        Node::Node2 => ")  ← will be paused",
        Node::Node3 => ")",
    };
    start.to_string().concat(host).concat(":").concat(
        decimal_text(node.port() as u128).as_str(),
    ).concat(middle).concat(decimal_text(node.slot() as u128).as_str()).concat(end)
}

/// What a scenario prints before it connects. The one-server scenarios print nothing.
pub open spec fn banner(scenario: Scenario, host: Seq<char>) -> Seq<Seq<char>> {
    match scenario {
        Scenario::Misconfigured | Scenario::Correct => Seq::empty(),
        Scenario::Cluster => seq![
            "=== Cluster unresponsive_timeout test ==="@,
            node_line(host, Node::Node1),
            node_line(host, Node::Node2),
            node_line(host, Node::Node3),
            ""@,
        ],
        Scenario::ClusterServer => seq![
            "=== Cluster pool + HTTP server debug harness ==="@,
            "  pool size: "@ + decimal(POOL_SIZE as nat),
            node_line(host, Node::Node1),
            node_line(host, Node::Node2),
            node_line(host, Node::Node3),
            "  HTTP server: http://0.0.0.0:"@ + decimal(HTTP_PORT as nat),
            ""@,
        ],
    }
}

/// What a scenario prints before it connects.
pub fn banner_lines(scenario: Scenario, host: &str) -> (lines: Vec<String>)
    ensures
        texts(lines@) == banner(scenario, host@),
{
    match scenario {
        Scenario::Misconfigured | Scenario::Correct => no_lines(),
        Scenario::Cluster => {
            let lines = and_line(
                no_lines(),
                "=== Cluster unresponsive_timeout test ===".to_string(),
            );
            let lines = and_line(lines, make_node_line(host, Node::Node1));
            let lines = and_line(lines, make_node_line(host, Node::Node2));
            let lines = and_line(lines, make_node_line(host, Node::Node3));
            and_line(lines, "".to_string())
        },
        Scenario::ClusterServer => {
            let lines = and_line(
                no_lines(),
                "=== Cluster pool + HTTP server debug harness ===".to_string(),
            );
            let lines = and_line(
                lines,
                "  pool size: ".to_string().concat(decimal_text(POOL_SIZE as u128).as_str()),
            );
            let lines = and_line(lines, make_node_line(host, Node::Node1));
            let lines = and_line(lines, make_node_line(host, Node::Node2));
            let lines = and_line(lines, make_node_line(host, Node::Node3));
            let lines = and_line(
                lines,
                "  HTTP server: http://0.0.0.0:".to_string().concat(
                    decimal_text(HTTP_PORT as u128).as_str(),
                ),
            );
            and_line(lines, "".to_string())
        },
    }
}

/// The line that reports a connection.
pub open spec fn connected_line(scenario: Scenario) -> Seq<char> {
    match scenario {
        Scenario::Misconfigured | Scenario::Correct => "[OK] Connected to Redis."@,
        Scenario::Cluster => "[OK] Connected to cluster (3 nodes)."@,
        Scenario::ClusterServer => "[OK] Pool connected ("@ + decimal(POOL_SIZE as nat)
            + " clients, "@ + decimal(POOL_SIZE as nat) + " connections per node)."@,
    }
}

/// The line that reports a connection.
pub fn make_connected_line(scenario: Scenario) -> (line: String)
    ensures
        line@ == connected_line(scenario),
{
    match scenario {
        Scenario::Misconfigured | Scenario::Correct => "[OK] Connected to Redis.".to_string(),
        Scenario::Cluster => "[OK] Connected to cluster (3 nodes).".to_string(),
        Scenario::ClusterServer => {
            let size = decimal_text(POOL_SIZE as u128);
            "[OK] Pool connected (".to_string().concat(size.as_str()).concat(" clients, ").concat(
                size.as_str(),
            ).concat(" connections per node).")
        },
    }
}

/// The line that reports the first writes.
pub open spec fn written_line(scenario: Scenario) -> Seq<char> {
    match scenario {
        Scenario::Misconfigured | Scenario::Correct => "[OK] SET mykey = hello"@,
        Scenario::Cluster | Scenario::ClusterServer =>
            "[OK] SET alpha→node1, key1→node2, beta→node3"@,
    }
}

/// The line that reports the first writes.
pub fn make_written_line(scenario: Scenario) -> (line: String)
    ensures
        line@ == written_line(scenario),
{
    match scenario {
        Scenario::Misconfigured | Scenario::Correct => "[OK] SET mykey = hello".to_string(),
        Scenario::Cluster | Scenario::ClusterServer =>
            "[OK] SET alpha→node1, key1→node2, beta→node3".to_string(),
    }
}

/// The line that shows the values that were read back, each in its debug form.
pub open spec fn reads_line(alpha: Seq<char>, key1: Seq<char>, beta: Seq<char>) -> Seq<char> {
    "[OK] Pre-pause reads: alpha="@ + alpha + " key1="@ + key1 + " beta="@ + beta
}

/// The line that shows the values that were read back, each in its debug form.
pub fn make_reads_line(alpha: &str, key1: &str, beta: &str) -> (line: String)
    ensures
        line@ == reads_line(alpha@, key1@, beta@),
{
    "[OK] Pre-pause reads: alpha=".to_string().concat(alpha).concat(" key1=").concat(key1).concat(
        " beta=",
    ).concat(beta)
}

/// The line that announces the read of a one-server scenario.
pub open spec fn sending_line(scenario: Scenario) -> Seq<char> {
    if scenario == Scenario::Misconfigured {
        "[T=0s] Sending GET mykey (Redis should be paused now)..."@
    } else {
        "[T=0s] Sending GET mykey (Redis is paused — waiting for watchdog to reconnect)..."@
    }
}

/// The line that announces the read of a one-server scenario.
pub fn make_sending_line(scenario: Scenario) -> (line: String)
    ensures
        line@ == sending_line(scenario),
{
    if scenario == Scenario::Misconfigured {
        "[T=0s] Sending GET mykey (Redis should be paused now)...".to_string()
    } else {
        "[T=0s] Sending GET mykey (Redis is paused — waiting for watchdog to reconnect)..."
            .to_string()
    }
}

/// The line of a read that succeeded: after how long, and the value in its debug form.
pub open spec fn succeeded_line(scenario: Scenario, elapsed_ms: nat, shown: Seq<char>) -> Seq<
    char,
> {
    if scenario == Scenario::Misconfigured {
        "[T="@ + decimal(elapsed_ms) + "ms] GET succeeded: "@ + shown
    } else {
        "[T="@ + decimal(elapsed_ms) + "ms] GET succeeded: "@ + shown
            + "  (reconnected + retried transparently!)"@
    }
}

/// The line of a read that succeeded.
pub fn make_succeeded_line(scenario: Scenario, elapsed_ms: u128, shown: &str) -> (line: String)
    ensures
        line@ == succeeded_line(scenario, elapsed_ms as nat, shown@),
{
    let line = "[T=".to_string().concat(decimal_text(elapsed_ms).as_str()).concat(
        "ms] GET succeeded: ",
    ).concat(shown);
    if scenario == Scenario::Misconfigured {
        line
    } else {
        line.concat("  (reconnected + retried transparently!)")
    }
}

/// The line of a read that failed: after how long, and why.
pub open spec fn failed_line(elapsed_ms: nat, message: Seq<char>, kind: Seq<char>) -> Seq<char> {
    "[T="@ + decimal(elapsed_ms) + "ms] GET error: "@ + message + " (kind: "@ + kind + ")"@
}

/// The line of a read that failed.
pub fn make_failed_line(elapsed_ms: u128, message: &str, kind: &str) -> (line: String)
    ensures
        line@ == failed_line(elapsed_ms as nat, message@, kind@),
{
    "[T=".to_string().concat(decimal_text(elapsed_ms).as_str()).concat("ms] GET error: ").concat(
        message,
    ).concat(" (kind: ").concat(kind).concat(")")
}

/// What the concurrent reads are expected to do.
pub open spec fn expectations() -> Seq<Seq<char>> {
    seq![
        "[T=0s] node2 (7002) is now paused. Starting concurrent reads..."@,
        "       → GET alpha (node1)  should succeed immediately"@,
        "       → GET key1  (node2)  should block, then recover after ~10-12s"@,
        "       → GET beta  (node3)  should succeed immediately"@,
        ""@,
    ]
}

/// What the concurrent reads are expected to do.
pub fn expectation_lines() -> (lines: Vec<String>)
    ensures
        texts(lines@) == expectations(),
{
    let lines = and_line(
        no_lines(),
        "[T=0s] node2 (7002) is now paused. Starting concurrent reads...".to_string(),
    );
    let lines = and_line(
        lines,
        "       → GET alpha (node1)  should succeed immediately".to_string(),
    );
    let lines = and_line(
        lines,
        "       → GET key1  (node2)  should block, then recover after ~10-12s".to_string(),
    );
    let lines = and_line(
        lines,
        "       → GET beta  (node3)  should succeed immediately".to_string(),
    );
    and_line(lines, "".to_string())
}

/// The part of a concurrent read's line that names the read.
pub open spec fn read_label(node: Node) -> Seq<char> {
    match node {
        Node::Node1 => "ms] GET alpha (node1) → "@,
        Node::Node2 => "ms] GET key1  (node2) → "@,
        Node::Node3 => "ms] GET beta  (node3) → "@,
    }
}

/// The remark behind a concurrent read that succeeded.
pub open spec fn read_remark(node: Node) -> Seq<char> {
    if node == Node::Node2 {
        "  ← recovered after reconnect"@
    } else {
        "  ✓ unaffected"@
    }
}

/// The line of a concurrent read that succeeded, with the value in its debug form.
pub open spec fn node_read_line(node: Node, elapsed_ms: nat, shown: Seq<char>) -> Seq<char> {
    "[T="@ + decimal(elapsed_ms) + read_label(node) + shown + read_remark(node)
}

/// The line of a concurrent read that failed.
pub open spec fn node_error_line(node: Node, elapsed_ms: nat, message: Seq<char>) -> Seq<char> {
    "[T="@ + decimal(elapsed_ms) + read_label(node) + "ERROR: "@ + message
}

/// The part of a concurrent read's line that names the read.
fn make_read_label(node: Node) -> (label: &'static str)
    ensures
        label@ == read_label(node),
{
    match node {
        Node::Node1 => "ms] GET alpha (node1) → ",
        Node::Node2 => "ms] GET key1  (node2) → ",
        Node::Node3 => "ms] GET beta  (node3) → ",
    }
}

/// The line of a concurrent read that succeeded, with the value in its debug form.
pub fn make_node_read_line(node: Node, elapsed_ms: u128, shown: &str) -> (line: String)
    ensures
        line@ == node_read_line(node, elapsed_ms as nat, shown@),
{
    let remark = if node == Node::Node2 {
        "  ← recovered after reconnect"
    } else {
        "  ✓ unaffected"
    };
    "[T=".to_string().concat(decimal_text(elapsed_ms).as_str()).concat(
        make_read_label(node),
    ).concat(shown).concat(remark)
}

/// The line of a concurrent read that failed.
pub fn make_node_error_line(node: Node, elapsed_ms: u128, message: &str) -> (line: String)
    ensures
        line@ == node_error_line(node, elapsed_ms as nat, message@),
{
    "[T=".to_string().concat(decimal_text(elapsed_ms).as_str()).concat(
        make_read_label(node),
    ).concat("ERROR: ").concat(message)
}

/// The line that closes the concurrent reads.
pub open spec fn completed_line(elapsed_ms: nat) -> Seq<char> {
    "[T="@ + decimal(elapsed_ms) + "ms] All GETs completed."@
}

/// The line that closes the concurrent reads.
pub fn make_completed_line(elapsed_ms: u128) -> (line: String)
    ensures
        line@ == completed_line(elapsed_ms as nat),
{
    "[T=".to_string().concat(decimal_text(elapsed_ms).as_str()).concat("ms] All GETs completed.")
}

/// The text before and behind the port of the HTTP server in each line of its help.
pub open spec fn usage_line(before: Seq<char>, behind: Seq<char>) -> Seq<char> {
    before + decimal(HTTP_PORT as nat) + behind
}

/// What the HTTP server prints once it listens.
pub open spec fn usage() -> Seq<Seq<char>> {
    seq![
        usage_line("[OK] HTTP server listening on http://0.0.0.0:"@, ""@),
        ""@,
        "  ── Read / Write ───────────────────────────────────────────────"@,
        usage_line("  curl http://localhost:"@, "/get/alpha"@),
        usage_line("  curl http://localhost:"@, "/get/key1"@),
        usage_line("  curl http://localhost:"@, "/get/beta"@),
        usage_line("  curl http://localhost:"@, "/set/mykey/myval"@),
        ""@,
        "  ── tc netem control (docker exec redis-cluster-2) ─────────────"@,
        usage_line("  curl -X POST   'http://localhost:"@, "/pause?ms=15000'  # inject 15s delay"@),
        usage_line("  curl -X POST   'http://localhost:"@, "/pause?ms=3000'   # inject 3s delay"@),
        usage_line("  curl -X DELETE  http://localhost:"@, "/pause             # remove delay"@),
        ""@,
        "  ── Status ─────────────────────────────────────────────────────"@,
        usage_line("  curl http://localhost:"@, "/status"@),
        ""@,
        "  Press Ctrl+C to exit."@,
        ""@,
    ]
}

/// A line of the help.
fn make_usage_line(before: &str, behind: &str) -> (line: String)
    ensures
        line@ == usage_line(before@, behind@),
{
    before.to_string().concat(decimal_text(HTTP_PORT as u128).as_str()).concat(behind)
}

/// What the HTTP server prints once it listens.
pub fn usage_lines() -> (lines: Vec<String>)
    ensures
        texts(lines@) == usage(),
{
    let here = "  curl http://localhost:";
    let post = "  curl -X POST   'http://localhost:";
    let lines = and_line(
        no_lines(),
        make_usage_line("[OK] HTTP server listening on http://0.0.0.0:", ""),
    );
    let lines = and_line(lines, "".to_string());
    let lines = and_line(
        lines,
        "  ── Read / Write ───────────────────────────────────────────────".to_string(),
    );
    let lines = and_line(lines, make_usage_line(here, "/get/alpha"));
    let lines = and_line(lines, make_usage_line(here, "/get/key1"));
    let lines = and_line(lines, make_usage_line(here, "/get/beta"));
    let lines = and_line(lines, make_usage_line(here, "/set/mykey/myval"));
    let lines = and_line(lines, "".to_string());
    let lines = and_line(
        lines,
        "  ── tc netem control (docker exec redis-cluster-2) ─────────────".to_string(),
    );
    let lines = and_line(
        lines,
        make_usage_line(post, "/pause?ms=15000'  # inject 15s delay"),
    );
    let lines = and_line(
        lines,
        make_usage_line(post, "/pause?ms=3000'   # inject 3s delay"),
    );
    let lines = and_line(
        lines,
        make_usage_line(
            "  curl -X DELETE  http://localhost:",
            "/pause             # remove delay",
        ),
    );
    let lines = and_line(lines, "".to_string());
    let lines = and_line(
        lines,
        "  ── Status ─────────────────────────────────────────────────────".to_string(),
    );
    let lines = and_line(lines, make_usage_line(here, "/status"));
    let lines = and_line(lines, "".to_string());
    let lines = and_line(lines, "  Press Ctrl+C to exit.".to_string());
    and_line(lines, "".to_string())
}

/// A server, as an event names it.
pub struct ServerName {
    pub host: String,
    pub port: u16,
    /// The whole name, as the client displays it.
    pub display: String,
}

/// Something that a client reports on its own account.
pub enum ClientEvent {
    Unresponsive { server: ServerName },
    Reconnected { server: ServerName },
    Error { display: String, debug: String },
}

/// The tag of a kind of event.
pub open spec fn event_tag(event: ClientEvent) -> Seq<char> {
    match event {
        ClientEvent::Unresponsive { .. } => "[unresponsive] "@,
        ClientEvent::Reconnected { .. } => "[reconnect] "@,
        ClientEvent::Error { .. } => "[error] "@,
    }
}

/// The tag that comes before it: the HTTP server tells its clients apart.
pub open spec fn client_tag(scenario: Scenario, client: nat) -> Seq<char> {
    if scenario == Scenario::ClusterServer {
        "[EVENT][client-"@ + decimal(client) + "]"@
    } else {
        "[EVENT]"@
    }
}

/// Host and port, joined by a colon.
pub open spec fn address_text(server: ServerName) -> Seq<char> {
    server.host@ + ":"@ + decimal(server.port as nat)
}

/// What an event says, behind its tags.
pub open spec fn event_text(scenario: Scenario, event: ClientEvent) -> Seq<char> {
    if scenario == Scenario::Misconfigured || scenario == Scenario::Correct {
        match event {
            ClientEvent::Unresponsive { server } => "Server went unresponsive: "@ + server.display@,
            ClientEvent::Reconnected { server } => "Reconnected to: "@ + server.display@,
            ClientEvent::Error { debug, .. } => "Connection error: "@ + debug@,
        }
    } else {
        match event {
            ClientEvent::Unresponsive { server } => "node "@ + address_text(server)
                + " went unresponsive"@,
            ClientEvent::Reconnected { server } => "reconnected to "@ + address_text(server),
            ClientEvent::Error { display, .. } => display@,
        }
    }
}

/// The line of an event.
pub open spec fn event_line(scenario: Scenario, client: nat, event: ClientEvent) -> Seq<char> {
    client_tag(scenario, client) + event_tag(event) + event_text(scenario, event)
}

/// Host and port, joined by a colon.
fn make_address_text(server: &ServerName) -> (text: String)
    ensures
        text@ == address_text(*server),
{
    server.host.clone().concat(":").concat(decimal_text(server.port as u128).as_str())
}

/// The line of an event that the client with this index reports.
pub fn make_event_line(scenario: Scenario, client: usize, event: &ClientEvent) -> (line: String)
    ensures
        line@ == event_line(scenario, client as nat, *event),
{
    let start = if scenario == Scenario::ClusterServer {
        "[EVENT][client-".to_string().concat(decimal_text(client as u128).as_str()).concat("]")
    } else {
        "[EVENT]".to_string()
    };
    let tag = match event {
        ClientEvent::Unresponsive { .. } => "[unresponsive] ",
        ClientEvent::Reconnected { .. } => "[reconnect] ",
        ClientEvent::Error { .. } => "[error] ",
    };
    let one_server = scenario == Scenario::Misconfigured || scenario == Scenario::Correct;
    let text = match event {
        ClientEvent::Unresponsive { server } => if one_server {
            "Server went unresponsive: ".to_string().concat(server.display.as_str())
        } else {
            "node ".to_string().concat(make_address_text(server).as_str()).concat(
                " went unresponsive",
            )
        },
        ClientEvent::Reconnected { server } => if one_server {
            "Reconnected to: ".to_string().concat(server.display.as_str())
        } else {
            "reconnected to ".to_string().concat(make_address_text(server).as_str())
        },
        ClientEvent::Error { display, debug } => if one_server {
            "Connection error: ".to_string().concat(debug.as_str())
        } else {
            display.clone()
        },
    };
    start.concat(tag).concat(text.as_str())
}

} // verus!
