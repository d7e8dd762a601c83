//! What holds of the lines that the scenarios print, whatever they show.

use crate::report::{
    banner, completed_line, connected_line, event_line, failed_line, node_error_line, node_line,
    node_read_line, reads_line, sending_line, succeeded_line, written_line, ClientEvent,
    ServerName,
};
use crate::run::concurrent_line;
use crate::settings::{Node, Scenario};
use crate::text::{debug_optional, debug_text, decimal, law_debug_form_shows_the_text};
use vstd::prelude::*;

verus! {

/// The numerals of the ports, of the slots and of the sizes that the lines show.
proof fn lemma_numerals()
    ensures
        decimal(3) == "3"@,
        decimal(865) == "865"@,
        decimal(7001) == "7001"@,
        decimal(7002) == "7002"@,
        decimal(7003) == "7003"@,
        decimal(8181) == "8181"@,
        decimal(9189) == "9189"@,
        decimal(15419) == "15419"@,
{
    reveal_with_fuel(decimal, 6);
    reveal_strlit("3");
    reveal_strlit("865");
    reveal_strlit("7001");
    reveal_strlit("7002");
    reveal_strlit("7003");
    reveal_strlit("8181");
    reveal_strlit("9189");
    reveal_strlit("15419");
    assert(decimal(3) =~= "3"@);
    assert(decimal(865) =~= "865"@);
    assert(decimal(7001) =~= "7001"@);
    assert(decimal(7002) =~= "7002"@);
    assert(decimal(7003) =~= "7003"@);
    assert(decimal(8181) =~= "8181"@);
    assert(decimal(9189) =~= "9189"@);
    assert(decimal(15419) =~= "15419"@);
}

/// The line of a node shows the host as it is, between the name of the node and its port,
/// key and slot, which are the same for every host. Only the second node is marked as the
/// one that will be paused.
pub proof fn law_node_line_shows_the_host(host: Seq<char>)
    ensures
        node_line(host, Node::Node1) == "  node1 "@ + host
            + ":7001 → key 'alpha'  (slot 865)"@,
        node_line(host, Node::Node2) == "  node2 "@ + host
            + ":7002 → key 'key1'   (slot 9189)  ← will be paused"@,
        node_line(host, Node::Node3) == "  node3 "@ + host
            + ":7003 → key 'beta'   (slot 15419)"@,
{
    lemma_numerals();
    reveal_strlit(":");
    reveal_strlit("865");
    reveal_strlit("7001");
    reveal_strlit("7002");
    reveal_strlit("7003");
    reveal_strlit("9189");
    reveal_strlit("15419");
    reveal_strlit(" → key 'alpha'  (slot ");
    reveal_strlit(" → key 'key1'   (slot ");
    reveal_strlit(" → key 'beta'   (slot ");
    reveal_strlit(")");
    reveal_strlit(")  ← will be paused");
    reveal_strlit(":7001 → key 'alpha'  (slot 865)");
    reveal_strlit(":7002 → key 'key1'   (slot 9189)  ← will be paused");
    reveal_strlit(":7003 → key 'beta'   (slot 15419)");
    assert(":"@ + "7001"@ + " → key 'alpha'  (slot "@ + "865"@ + ")"@
        =~= ":7001 → key 'alpha'  (slot 865)"@);
    assert(":"@ + "7002"@ + " → key 'key1'   (slot "@ + "9189"@ + ")  ← will be paused"@
        =~= ":7002 → key 'key1'   (slot 9189)  ← will be paused"@);
    assert(":"@ + "7003"@ + " → key 'beta'   (slot "@ + "15419"@ + ")"@
        =~= ":7003 → key 'beta'   (slot 15419)"@);
    lemma_regroup("  node1 "@ + host, ":"@, "7001"@, " → key 'alpha'  (slot "@, "865"@, ")"@);
    lemma_regroup("  node2 "@ + host, ":"@, "7002"@, " → key 'key1'   (slot "@, "9189"@, ")  ← will be paused"@);
    lemma_regroup("  node3 "@ + host, ":"@, "7003"@, " → key 'beta'   (slot "@, "15419"@, ")"@);
}

/// Six texts in a row, with the last five taken together.
proof fn lemma_regroup(
    a: Seq<char>,
    b: Seq<char>,
    c: Seq<char>,
    d: Seq<char>,
    e: Seq<char>,
    f: Seq<char>,
)
    ensures
        a + b + c + d + e + f == a + (b + c + d + e + f),
{
    assert(a + b + c + d + e + f =~= a + (b + c + d + e + f));
}

/// What is printed before a cluster scenario connects is a title, then the lines of the
/// three nodes on the host in their order, and an empty line at the end. The HTTP server
/// adds the size of its pool before the nodes and its own address behind them. The
/// one-server scenarios print nothing, whatever the host.
pub proof fn law_banner_shows_the_nodes(host: Seq<char>)
    ensures
        banner(Scenario::Misconfigured, host).len() == 0,
        banner(Scenario::Correct, host).len() == 0,
        banner(Scenario::Cluster, host).len() == 5,
        banner(Scenario::Cluster, host)[0] == "=== Cluster unresponsive_timeout test ==="@,
        banner(Scenario::Cluster, host).subrange(1, 4) == seq![
            node_line(host, Node::Node1),
            node_line(host, Node::Node2),
            node_line(host, Node::Node3),
        ],
        banner(Scenario::Cluster, host)[4] == ""@,
        banner(Scenario::ClusterServer, host).len() == 7,
        banner(Scenario::ClusterServer, host)[0]
            == "=== Cluster pool + HTTP server debug harness ==="@,
        banner(Scenario::ClusterServer, host)[1] == "  pool size: 3"@,
        banner(Scenario::ClusterServer, host).subrange(2, 5) == banner(
            Scenario::Cluster,
            host,
        ).subrange(1, 4),
        banner(Scenario::ClusterServer, host)[5] == "  HTTP server: http://0.0.0.0:8181"@,
        banner(Scenario::ClusterServer, host)[6] == ""@,
{
    lemma_numerals();
    reveal_strlit("3");
    reveal_strlit("8181");
    reveal_strlit("  pool size: ");
    reveal_strlit("  pool size: 3");
    reveal_strlit("  HTTP server: http://0.0.0.0:");
    reveal_strlit("  HTTP server: http://0.0.0.0:8181");
    assert("  pool size: "@ + "3"@ =~= "  pool size: 3"@);
    assert("  HTTP server: http://0.0.0.0:"@ + "8181"@ =~= "  HTTP server: http://0.0.0.0:8181"@);
    assert(banner(Scenario::Cluster, host).subrange(1, 4) =~= seq![
        node_line(host, Node::Node1),
        node_line(host, Node::Node2),
        node_line(host, Node::Node3),
    ]);
    assert(banner(Scenario::ClusterServer, host).subrange(2, 5) =~= banner(
        Scenario::Cluster,
        host,
    ).subrange(1, 4));
}

/// The one-server scenarios report their connection and their write with the same lines,
/// and the cluster scenarios their writes. Only the misconfigured scenario announces its
/// read in words of its own.
pub proof fn law_scenarios_report_alike(scenario: Scenario)
    ensures
        connected_line(Scenario::Misconfigured) == connected_line(Scenario::Correct),
        connected_line(Scenario::Correct) == "[OK] Connected to Redis."@,
        connected_line(Scenario::Cluster) == "[OK] Connected to cluster (3 nodes)."@,
        connected_line(Scenario::ClusterServer)
            == "[OK] Pool connected (3 clients, 3 connections per node)."@,
        written_line(Scenario::Misconfigured) == written_line(Scenario::Correct),
        written_line(Scenario::Correct) == "[OK] SET mykey = hello"@,
        written_line(Scenario::Cluster) == written_line(Scenario::ClusterServer),
        written_line(Scenario::Cluster) == "[OK] SET alpha→node1, key1→node2, beta→node3"@,
        sending_line(Scenario::Misconfigured)
            == "[T=0s] Sending GET mykey (Redis should be paused now)..."@,
        scenario != Scenario::Misconfigured ==> sending_line(scenario)
            == "[T=0s] Sending GET mykey (Redis is paused — waiting for watchdog to reconnect)..."@,
{
    lemma_numerals();
    reveal_strlit("3");
    reveal_strlit("[OK] Pool connected (");
    reveal_strlit(" clients, ");
    reveal_strlit(" connections per node).");
    reveal_strlit("[OK] Pool connected (3 clients, 3 connections per node).");
    assert("[OK] Pool connected ("@ + "3"@ + " clients, "@ + "3"@ + " connections per node)."@
        =~= "[OK] Pool connected (3 clients, 3 connections per node)."@);
}

/// The line of the reads before the pause shows the three values as they are, each behind
/// the name of its key, and nothing besides.
pub proof fn law_reads_line_shows_the_values(alpha: Seq<char>, key1: Seq<char>, beta: Seq<char>)
    ensures
        ({
            let line = reads_line(alpha, key1, beta);
            let second = 28 + alpha.len() as int;
            let third = second + 6 + key1.len();
            &&& line.len() == third + 6 + beta.len()
            &&& line.take(28) == "[OK] Pre-pause reads: alpha="@
            &&& line.subrange(28, second) == alpha
            &&& line.subrange(second, second + 6) == " key1="@
            &&& line.subrange(second + 6, third) == key1
            &&& line.subrange(third, third + 6) == " beta="@
            &&& line.skip(third + 6) == beta
        }),
{
    reveal_strlit("[OK] Pre-pause reads: alpha=");
    reveal_strlit(" key1=");
    reveal_strlit(" beta=");
    let line = reads_line(alpha, key1, beta);
    let second = 28 + alpha.len() as int;
    let third = second + 6 + key1.len();
    assert(line.take(28) =~= "[OK] Pre-pause reads: alpha="@);
    assert(line.subrange(28, second) =~= alpha);
    assert(line.subrange(second, second + 6) =~= " key1="@);
    assert(line.subrange(second + 6, third) =~= key1);
    assert(line.subrange(third, third + 6) =~= " beta="@);
    assert(line.skip(third + 6) =~= beta);
}

/// The lines of the tested read begin with the time that it took. A value that was read
/// follows as it is shown, in every scenario; all but the misconfigured one add that the
/// read was retried. An error follows with its message and its kind, as they are. So a
/// read that succeeded is never reported like one that failed.
pub proof fn law_tested_read_is_reported(
    scenario: Scenario,
    elapsed_ms: nat,
    shown: Seq<char>,
    message: Seq<char>,
    kind: Seq<char>,
)
    ensures
        ({
            let stamp = "[T="@ + decimal(elapsed_ms) + "ms] GET "@;
            let good = succeeded_line(scenario, elapsed_ms, shown);
            let bad = failed_line(elapsed_ms, message, kind);
            &&& stamp.is_prefix_of(good)
            &&& stamp.is_prefix_of(bad)
            &&& good.skip(stamp.len() as int) == "succeeded: "@ + shown + (if scenario
                == Scenario::Misconfigured {
                ""@
            } else {
                "  (reconnected + retried transparently!)"@
            })
            &&& bad.skip(stamp.len() as int) == "error: "@ + message + " (kind: "@ + kind + ")"@
            &&& good != bad
        }),
{
    reveal_strlit("");
    reveal_strlit("succeeded: ");
    reveal_strlit("error: ");
    reveal_strlit("ms] GET ");
    reveal_strlit("ms] GET succeeded: ");
    reveal_strlit("ms] GET error: ");
    let stamp = "[T="@ + decimal(elapsed_ms) + "ms] GET "@;
    let n = stamp.len() as int;
    let good = succeeded_line(scenario, elapsed_ms, shown);
    let bad = failed_line(elapsed_ms, message, kind);
    assert("ms] GET succeeded: "@ =~= "ms] GET "@ + "succeeded: "@);
    assert("ms] GET error: "@ =~= "ms] GET "@ + "error: "@);
    assert(stamp =~= good.subrange(0, n));
    assert(stamp =~= bad.subrange(0, n));
    assert(good.skip(n) =~= "succeeded: "@ + shown + (if scenario == Scenario::Misconfigured {
        ""@
    } else {
        "  (reconnected + retried transparently!)"@
    }));
    assert(bad.skip(n) =~= "error: "@ + message + " (kind: "@ + kind + ")"@);
    assert(good[n] == 's');
    assert(bad[n] == 'e');
}

/// The part of a concurrent read's line that comes before its outcome: the time, and the
/// key and the node that were read.
pub open spec fn read_stamp(node: Node, elapsed_ms: nat) -> Seq<char> {
    "[T="@ + decimal(elapsed_ms) + "ms] GET "@ + match node {
        Node::Node1 => "alpha (node1) → "@,
        Node::Node2 => "key1  (node2) → "@,
        Node::Node3 => "beta  (node3) → "@,
    }
}

/// The label of a concurrent read, taken apart.
proof fn lemma_read_stamp(node: Node, elapsed_ms: nat, shown: Seq<char>, message: Seq<char>)
    ensures
        node_read_line(node, elapsed_ms, shown) == read_stamp(node, elapsed_ms) + shown + (
        match node {
            Node::Node1 => "  ✓ unaffected"@,
            Node::Node2 => "  ← recovered after reconnect"@,
            Node::Node3 => "  ✓ unaffected"@,
        }),
        node_error_line(node, elapsed_ms, message) == read_stamp(node, elapsed_ms) + "ERROR: "@
            + message,
{
    reveal_strlit("ms] GET ");
    reveal_strlit("alpha (node1) → ");
    reveal_strlit("key1  (node2) → ");
    reveal_strlit("beta  (node3) → ");
    reveal_strlit("ms] GET alpha (node1) → ");
    reveal_strlit("ms] GET key1  (node2) → ");
    reveal_strlit("ms] GET beta  (node3) → ");
    assert("ms] GET alpha (node1) → "@ =~= "ms] GET "@ + "alpha (node1) → "@);
    assert("ms] GET key1  (node2) → "@ =~= "ms] GET "@ + "key1  (node2) → "@);
    assert("ms] GET beta  (node3) → "@ =~= "ms] GET "@ + "beta  (node3) → "@);
    let start = "[T="@ + decimal(elapsed_ms);
    match node {
        Node::Node1 => {
            assert(start + "ms] GET alpha (node1) → "@ =~= read_stamp(node, elapsed_ms));
        },
        Node::Node2 => {
            assert(start + "ms] GET key1  (node2) → "@ =~= read_stamp(node, elapsed_ms));
        },
        Node::Node3 => {
            assert(start + "ms] GET beta  (node3) → "@ =~= read_stamp(node, elapsed_ms));
        },
    }
}

/// The line of a concurrent read names the time, the key and the node, whatever the read
/// came to. Behind them a read that came back shows its value and ends with the remark of
/// its node; a read that failed shows the mark of an error and the message. The mark is
/// there exactly where the read failed.
pub proof fn law_concurrent_line_tells_values_from_errors(
    node: Node,
    outcome: Result<Option<Seq<char>>, Seq<char>>,
    elapsed_ms: nat,
)
    ensures
        ({
            let line = concurrent_line(node, outcome, elapsed_ms);
            let stamp = read_stamp(node, elapsed_ms);
            let rest = line.skip(stamp.len() as int);
            let remark = if node == Node::Node2 {
                "  ← recovered after reconnect"@
            } else {
                "  ✓ unaffected"@
            };
            &&& stamp.is_prefix_of(line)
            &&& "ERROR: "@.is_prefix_of(rest) <==> outcome is Err
            &&& outcome is Ok ==> remark.is_suffix_of(line)
            &&& match outcome {
                Ok(Some(text)) => rest == "Some("@ + debug_text(text) + ")"@ + remark,
                Ok(None) => rest == "None"@ + remark,
                Err(message) => rest == "ERROR: "@ + message,
            }
        }),
{
    reveal_strlit("ERROR: ");
    reveal_strlit("None");
    reveal_strlit("Some(");
    let line = concurrent_line(node, outcome, elapsed_ms);
    let stamp = read_stamp(node, elapsed_ms);
    let n = stamp.len() as int;
    let rest = line.skip(n);
    let remark = if node == Node::Node2 {
        "  ← recovered after reconnect"@
    } else {
        "  ✓ unaffected"@
    };
    match outcome {
        Ok(value) => {
            let shown = debug_optional(value);
            lemma_read_stamp(node, elapsed_ms, shown, shown);
            if let Some(text) = value {
                law_debug_form_shows_the_text(text);
            }
            assert(line =~= stamp + (shown + remark));
            assert(rest =~= shown + remark);
            assert(rest[0] == 'N' || rest[0] == 'S');
            assert(line.subrange(line.len() - remark.len(), line.len() as int) =~= remark);
            if "ERROR: "@.is_prefix_of(rest) {
                assert("ERROR: "@[0] == 'E');
                assert(rest.subrange(0, "ERROR: "@.len() as int)[0] == rest[0]);
            }
        },
        Err(message) => {
            lemma_read_stamp(node, elapsed_ms, message, message);
            assert(line =~= stamp + ("ERROR: "@ + message));
            assert(rest =~= "ERROR: "@ + message);
            assert("ERROR: "@ =~= rest.subrange(0, "ERROR: "@.len() as int));
        },
    }
    assert(stamp =~= line.subrange(0, n));
}

/// A concurrent read is reported in the same way on the first and on the third node, but
/// for the key and the node: the same remark follows the same value.
pub proof fn law_unpaused_nodes_are_reported_alike(
    outcome: Result<Option<Seq<char>>, Seq<char>>,
    elapsed_ms: nat,
)
    ensures
        ({
            let first = concurrent_line(Node::Node1, outcome, elapsed_ms);
            let third = concurrent_line(Node::Node3, outcome, elapsed_ms);
            first.skip(read_stamp(Node::Node1, elapsed_ms).len() as int) == third.skip(
                read_stamp(Node::Node3, elapsed_ms).len() as int,
            )
        }),
{
    law_concurrent_line_tells_values_from_errors(Node::Node1, outcome, elapsed_ms);
    law_concurrent_line_tells_values_from_errors(Node::Node3, outcome, elapsed_ms);
}

/// The line that closes the concurrent reads shows the time that all of them took.
pub proof fn law_completed_line_shows_the_time(elapsed_ms: nat)
    ensures
        ({
            let line = completed_line(elapsed_ms);
            let behind = 3 + decimal(elapsed_ms).len() as int;
            &&& line.take(3) == "[T="@
            &&& line.subrange(3, behind) == decimal(elapsed_ms)
            &&& line.skip(behind) == "ms] All GETs completed."@
        }),
{
    reveal_strlit("[T=");
    let line = completed_line(elapsed_ms);
    let behind = 3 + decimal(elapsed_ms).len() as int;
    assert(line.take(3) =~= "[T="@);
    assert(line.subrange(3, behind) =~= decimal(elapsed_ms));
    assert(line.skip(behind) =~= "ms] All GETs completed."@);
}

/// In the one-server scenarios an event shows the server as the client displays it, and
/// an error in its debug form, whatever they are. The index of the client is not shown.
pub proof fn law_one_server_events(
    client: nat,
    server: ServerName,
    display: String,
    debug: String,
)
    ensures
        forall|scenario: Scenario|
            scenario == Scenario::Misconfigured || scenario == Scenario::Correct ==> {
                &&& #[trigger] event_line(scenario, client, ClientEvent::Unresponsive { server })
                    == "[EVENT][unresponsive] Server went unresponsive: "@ + server.display@
                &&& event_line(scenario, client, ClientEvent::Reconnected { server })
                    == "[EVENT][reconnect] Reconnected to: "@ + server.display@
                &&& event_line(scenario, client, ClientEvent::Error { display, debug })
                    == "[EVENT][error] Connection error: "@ + debug@
            },
{
    reveal_strlit("[EVENT]");
    reveal_strlit("[unresponsive] ");
    reveal_strlit("[reconnect] ");
    reveal_strlit("[error] ");
    reveal_strlit("Server went unresponsive: ");
    reveal_strlit("Reconnected to: ");
    reveal_strlit("Connection error: ");
    reveal_strlit("[EVENT][unresponsive] Server went unresponsive: ");
    reveal_strlit("[EVENT][reconnect] Reconnected to: ");
    reveal_strlit("[EVENT][error] Connection error: ");
    assert("[EVENT]"@ + "[unresponsive] "@ + "Server went unresponsive: "@
        =~= "[EVENT][unresponsive] Server went unresponsive: "@);
    assert("[EVENT]"@ + "[reconnect] "@ + "Reconnected to: "@
        =~= "[EVENT][reconnect] Reconnected to: "@);
    assert("[EVENT]"@ + "[error] "@ + "Connection error: "@
        =~= "[EVENT][error] Connection error: "@);
    assert forall|scenario: Scenario|
        scenario == Scenario::Misconfigured || scenario == Scenario::Correct implies {
        &&& #[trigger] event_line(scenario, client, ClientEvent::Unresponsive { server })
            == "[EVENT][unresponsive] Server went unresponsive: "@ + server.display@
        &&& event_line(scenario, client, ClientEvent::Reconnected { server })
            == "[EVENT][reconnect] Reconnected to: "@ + server.display@
        &&& event_line(scenario, client, ClientEvent::Error { display, debug })
            == "[EVENT][error] Connection error: "@ + debug@
    } by {
        assert(event_line(scenario, client, ClientEvent::Unresponsive { server })
            =~= "[EVENT]"@ + "[unresponsive] "@ + "Server went unresponsive: "@
            + server.display@);
        assert(event_line(scenario, client, ClientEvent::Reconnected { server }) =~= "[EVENT]"@
            + "[reconnect] "@ + "Reconnected to: "@ + server.display@);
        assert(event_line(scenario, client, ClientEvent::Error { display, debug })
            =~= "[EVENT]"@ + "[error] "@ + "Connection error: "@ + debug@);
    }
}

/// In the cluster scenario an event shows the host and the port of the server, and an
/// error as it is displayed, whatever they are. The index of the client is not shown.
pub proof fn law_cluster_events(client: nat, server: ServerName, display: String, debug: String)
    ensures
        event_line(Scenario::Cluster, client, ClientEvent::Unresponsive { server })
            == "[EVENT][unresponsive] node "@ + server.host@ + ":"@ + decimal(server.port as nat)
            + " went unresponsive"@,
        event_line(Scenario::Cluster, client, ClientEvent::Reconnected { server })
            == "[EVENT][reconnect] reconnected to "@ + server.host@ + ":"@ + decimal(
            server.port as nat,
        ),
        event_line(Scenario::Cluster, client, ClientEvent::Error { display, debug })
            == "[EVENT][error] "@ + display@,
{
    reveal_strlit("[EVENT]");
    reveal_strlit("[unresponsive] ");
    reveal_strlit("[reconnect] ");
    reveal_strlit("[error] ");
    reveal_strlit("node ");
    reveal_strlit("reconnected to ");
    reveal_strlit("[EVENT][unresponsive] node ");
    reveal_strlit("[EVENT][reconnect] reconnected to ");
    reveal_strlit("[EVENT][error] ");
    assert("[EVENT]"@ + "[unresponsive] "@ + "node "@ =~= "[EVENT][unresponsive] node "@);
    assert("[EVENT]"@ + "[reconnect] "@ + "reconnected to "@
        =~= "[EVENT][reconnect] reconnected to "@);
    assert("[EVENT]"@ + "[error] "@ =~= "[EVENT][error] "@);
    let address = server.host@ + ":"@ + decimal(server.port as nat);
    assert(event_line(Scenario::Cluster, client, ClientEvent::Unresponsive { server })
        =~= "[EVENT]"@ + "[unresponsive] "@ + "node "@ + address + " went unresponsive"@);
    assert("[EVENT][unresponsive] node "@ + address + " went unresponsive"@
        =~= "[EVENT][unresponsive] node "@ + server.host@ + ":"@ + decimal(server.port as nat)
        + " went unresponsive"@);
    assert(event_line(Scenario::Cluster, client, ClientEvent::Reconnected { server })
        =~= "[EVENT]"@ + "[reconnect] "@ + "reconnected to "@ + address);
    assert("[EVENT][reconnect] reconnected to "@ + address
        =~= "[EVENT][reconnect] reconnected to "@ + server.host@ + ":"@ + decimal(
        server.port as nat,
    ));
}

/// The HTTP server reports an event as the cluster scenario does, with a tag for the
/// client that reported it behind the first one, whichever client and event it is.
pub proof fn law_server_events_name_the_client(client: nat, other: nat, event: ClientEvent)
    ensures
        ({
            let plain = event_line(Scenario::Cluster, other, event);
            &&& plain.take(7) == "[EVENT]"@
            &&& event_line(Scenario::ClusterServer, client, event) == "[EVENT]"@ + ("[client-"@
                + decimal(client) + "]"@) + plain.skip(7)
        }),
{
    reveal_strlit("[EVENT]");
    reveal_strlit("[client-");
    reveal_strlit("[EVENT][client-");
    assert("[EVENT]"@ + "[client-"@ =~= "[EVENT][client-"@);
    let plain = event_line(Scenario::Cluster, other, event);
    assert(plain.take(7) =~= "[EVENT]"@);
    assert(event_line(Scenario::ClusterServer, client, event) =~= "[EVENT]"@ + ("[client-"@
        + decimal(client) + "]"@) + plain.skip(7));
}

/// An event reads the same from every client but in the HTTP server, and the same in both
/// one-server scenarios.
pub proof fn law_events_read_alike(client: nat, other: nat, event: ClientEvent)
    ensures
        event_line(Scenario::Misconfigured, client, event) == event_line(
            Scenario::Correct,
            other,
            event,
        ),
        event_line(Scenario::Cluster, client, event) == event_line(
            Scenario::Cluster,
            other,
            event,
        ),
{
}

} // verus!
