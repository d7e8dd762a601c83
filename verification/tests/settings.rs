use fred_timeout_test::settings::{
    connection_config, host_for, limits_of, performance_config, reconnect_policy, server_config,
    Key, Node, Scenario,
};

const ALL: [Scenario; 4] = [
    Scenario::Misconfigured,
    Scenario::Correct,
    Scenario::Cluster,
    Scenario::ClusterServer,
];

fn addresses(scenario: Scenario, host: &str) -> Vec<String> {
    server_config(scenario, host)
        .hosts()
        .into_iter()
        .map(|server| format!("{}:{}", server.host, server.port))
        .collect()
}

#[test]
fn limits_of_the_misconfigured_scenario() {
    let limits = limits_of(Scenario::Misconfigured);
    assert_eq!(limits.default_command_timeout_ms, 5000);
    assert_eq!(limits.unresponsive_timeout_ms, 10000);
    assert_eq!(limits.max_command_attempts, 3);
    assert_eq!(limits.connection_timeout_ms, None);
    assert_eq!(limits.internal_command_timeout_ms, None);
    assert_eq!(limits.reconnect_attempts, 5);
    assert_eq!(limits.reconnect_delay_ms, 1000);
}

#[test]
fn limits_of_the_correct_scenario() {
    let limits = limits_of(Scenario::Correct);
    assert_eq!(limits.default_command_timeout_ms, 60000);
    assert_eq!(limits.unresponsive_timeout_ms, 10000);
    assert_eq!(limits.max_command_attempts, 3);
    assert_eq!(limits.connection_timeout_ms, Some(5000));
    assert_eq!(limits.internal_command_timeout_ms, None);
    assert_eq!(limits.reconnect_attempts, 10);
    assert_eq!(limits.reconnect_delay_ms, 1000);
}

#[test]
fn limits_of_the_cluster_scenario() {
    let limits = limits_of(Scenario::Cluster);
    assert_eq!(limits.default_command_timeout_ms, 60000);
    assert_eq!(limits.unresponsive_timeout_ms, 2000);
    assert_eq!(limits.max_command_attempts, 3);
    assert_eq!(limits.connection_timeout_ms, Some(15000));
    assert_eq!(limits.internal_command_timeout_ms, Some(15000));
    assert_eq!(limits.reconnect_attempts, 10);
    assert_eq!(limits.reconnect_delay_ms, 1000);
}

#[test]
fn limits_of_the_server_scenario() {
    let limits = limits_of(Scenario::ClusterServer);
    assert_eq!(limits.default_command_timeout_ms, 5000);
    assert_eq!(limits.unresponsive_timeout_ms, 2000);
    assert_eq!(limits.max_command_attempts, 5);
    assert_eq!(limits.connection_timeout_ms, None);
    assert_eq!(limits.internal_command_timeout_ms, None);
    assert_eq!(limits.reconnect_attempts, 1000);
    assert_eq!(limits.reconnect_delay_ms, 3000);
}

#[test]
fn only_the_misconfigured_callers_give_up_before_the_watchdog() {
    for scenario in ALL {
        let limits = limits_of(scenario);
        assert_eq!(
            limits.default_command_timeout_ms < limits.unresponsive_timeout_ms,
            scenario == Scenario::Misconfigured
        );
    }
}

#[test]
fn the_default_delay_of_three_seconds_suits_the_cluster() {
    let limits = limits_of(Scenario::Cluster);
    let delay_ms = 3000u64;
    assert!(limits.unresponsive_timeout_ms < delay_ms);
    assert!(2 * delay_ms < limits.connection_timeout_ms.unwrap());
    assert!(2 * delay_ms < limits.internal_command_timeout_ms.unwrap());
    assert!(2 * delay_ms < limits.default_command_timeout_ms);
}

#[test]
fn what_is_left_to_the_client_is_ten_seconds() {
    let client = fred::types::ConnectionConfig::default();
    assert_eq!(client.connection_timeout.as_millis(), 10000);
    assert_eq!(client.internal_command_timeout.as_millis(), 10000);
    assert_eq!(fred::globals::get_unresponsive_interval_ms(), 2000);
}

#[test]
fn one_server_scenarios_talk_to_the_local_server() {
    for scenario in [Scenario::Misconfigured, Scenario::Correct] {
        let host = host_for(scenario, Some("10.0.0.1".to_string()));
        assert_eq!(host, "127.0.0.1");
        assert!(server_config(scenario, &host).is_centralized());
        assert_eq!(addresses(scenario, &host), vec!["127.0.0.1:6379"]);
    }
}

#[test]
fn cluster_scenarios_talk_to_three_nodes() {
    for scenario in [Scenario::Cluster, Scenario::ClusterServer] {
        let host = host_for(scenario, None);
        assert_eq!(host, "192.168.215.1");
        assert!(server_config(scenario, &host).is_clustered());
        assert_eq!(
            addresses(scenario, &host),
            vec!["192.168.215.1:7001", "192.168.215.1:7002", "192.168.215.1:7003"]
        );
    }
}

#[test]
fn only_the_server_takes_its_host_from_the_environment() {
    let named = Some("192.168.247.1".to_string());
    assert_eq!(host_for(Scenario::ClusterServer, named.clone()), "192.168.247.1");
    assert_eq!(host_for(Scenario::Cluster, named), "192.168.215.1");
}

#[test]
fn keys_hash_to_the_slots_of_their_nodes() {
    let nodes = [
        (Node::Node1, 7001u16, "alpha", 865u16, 0u16, 5460u16),
        (Node::Node2, 7002, "key1", 9189, 5461, 10922),
        (Node::Node3, 7003, "beta", 15419, 10923, 16383),
    ];
    for (node, port, key, slot, first, last) in nodes {
        assert_eq!(node.port(), port);
        assert_eq!(node.key().name(), key);
        assert_eq!(node.slot(), slot);
        assert_eq!(fred::util::redis_keyslot(key.as_bytes()), slot);
        assert!(first <= slot && slot <= last);
    }
    assert_eq!(Key::MyKey.name(), "mykey");
}

#[test]
fn reconnect_policies_follow_the_limits() {
    let policies = [
        (Scenario::Misconfigured, 5, 1000),
        (Scenario::Correct, 10, 1000),
        (Scenario::Cluster, 10, 1000),
        (Scenario::ClusterServer, 1000, 3000),
    ];
    for (scenario, attempts, delay_ms) in policies {
        match reconnect_policy(&limits_of(scenario)) {
            fred::types::ReconnectPolicy::Constant { attempts: made, max_attempts, delay, .. } => {
                assert_eq!(made, 0);
                assert_eq!(max_attempts, attempts);
                assert_eq!(delay, delay_ms);
            }
            _ => panic!("the wait is the same before every attempt"),
        }
    }
}

#[test]
fn the_server_survives_the_pauses_that_it_injects() {
    let limits = limits_of(Scenario::ClusterServer);
    let budget_ms = limits.reconnect_attempts as u64 * limits.reconnect_delay_ms as u64;
    assert_eq!(budget_ms, 3_000_000);
    assert!(15_000 < budget_ms);
}

#[test]
fn the_worst_recovery_of_the_correct_scenario_outlasts_its_callers() {
    let limits = limits_of(Scenario::Correct);
    let attempts = limits.reconnect_attempts as u64;
    let worst_ms = limits.unresponsive_timeout_ms
        + 2000
        + attempts * limits.reconnect_delay_ms as u64
        + attempts * limits.connection_timeout_ms.unwrap();
    assert_eq!(worst_ms, 72_000);
    assert!(limits.default_command_timeout_ms < worst_ms);
}

#[test]
fn client_configurations_follow_the_limits() {
    let expected = [
        (Scenario::Misconfigured, 5000, 10000, 3, 10000, 10000),
        (Scenario::Correct, 60000, 10000, 3, 5000, 10000),
        (Scenario::Cluster, 60000, 2000, 3, 15000, 15000),
        (Scenario::ClusterServer, 5000, 2000, 5, 10000, 10000),
    ];
    for (scenario, command, unresponsive, attempts, connection, internal) in expected {
        let limits = limits_of(scenario);
        let perf = performance_config(&limits);
        assert_eq!(perf.default_command_timeout.as_millis(), command);
        let conn = connection_config(&limits);
        assert_eq!(conn.unresponsive_timeout.as_millis(), unresponsive);
        assert_eq!(conn.max_command_attempts, attempts);
        assert_eq!(conn.connection_timeout.as_millis(), connection);
        assert_eq!(conn.internal_command_timeout.as_millis(), internal);
    }
}

#[test]
fn the_full_rule_asks_the_correct_scenario_for_forty_six_seconds() {
    let limits = limits_of(Scenario::Correct);
    let backoff_ms = limits.reconnect_attempts as u64 * limits.reconnect_delay_ms as u64;
    let rule_ms = (limits.unresponsive_timeout_ms + 2000) * limits.max_command_attempts as u64
        + backoff_ms;
    assert_eq!(rule_ms, 46_000);
    assert!(rule_ms < limits.default_command_timeout_ms);
}
