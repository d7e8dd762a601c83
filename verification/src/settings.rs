//! The four scenarios: the servers they talk to and the time limits they set.

use crate::text::optional_text;
use vstd::prelude::*;

verus! {

/// The program to run.
#[derive(Clone, Copy, Debug, PartialEq, Eq, Structural)]
pub enum Scenario {
    /// One server, and callers that give up before the watchdog acts.
    Misconfigured,
    /// One server, and callers that outlast the recovery.
    Correct,
    /// Three servers, one of which is slowed down.
    Cluster,
    /// Three servers behind a pool of clients and an HTTP server.
    ClusterServer,
}

/// A master of the cluster.
#[derive(Clone, Copy, Debug, PartialEq, Eq, Structural)]
pub enum Node {
    Node1,
    Node2,
    Node3,
}

/// A key that a scenario writes and reads.
#[derive(Clone, Copy, Debug, PartialEq, Eq, Structural)]
pub enum Key {
    /// The key of the one-server scenarios.
    MyKey,
    /// The key that lives on the first node.
    Alpha,
    /// The key that lives on the second node.
    Key1,
    /// The key that lives on the third node.
    Beta,
}

impl Key {
    /// The name of the key.
    pub open spec fn spec_name(self) -> Seq<char> {
        match self {
            Key::MyKey => "mykey"@,
            Key::Alpha => "alpha"@,
            Key::Key1 => "key1"@,
            Key::Beta => "beta"@,
        }
    }

    /// The name of the key.
    pub fn name(&self) -> (name: &'static str)
        ensures
            name@ == self.spec_name(),
    {
        match self {
            Key::MyKey => "mykey",
            Key::Alpha => "alpha",
            Key::Key1 => "key1",
            Key::Beta => "beta",
        }
    }
}

/// The number of hash slots of a cluster.
pub const CLUSTER_SLOTS: u16 = 16384;

impl Node {
    /// The port of the node.
    pub open spec fn spec_port(self) -> u16 {
        match self {
            Node::Node1 => 7001,
            Node::Node2 => 7002,
            Node::Node3 => 7003,
        }
    }

    /// The key of the harness that the node owns.
    pub open spec fn spec_key(self) -> Key {
        match self {
            Node::Node1 => Key::Alpha,
            Node::Node2 => Key::Key1,
            Node::Node3 => Key::Beta,
        }
    }

    /// The hash slot of that key.
    pub open spec fn spec_slot(self) -> u16 {
        match self {
            Node::Node1 => 865,
            Node::Node2 => 9189,
            Node::Node3 => 15419,
        }
    }

    /// The first and the last slot that the node owns.
    pub open spec fn spec_slots(self) -> (u16, u16) {
        match self {
            Node::Node1 => (0, 5460),
            Node::Node2 => (5461, 10922),
            Node::Node3 => (10923, 16383),
        }
    }

    /// Whether the node owns a slot.
    pub open spec fn owns(self, slot: u16) -> bool {
        self.spec_slots().0 <= slot <= self.spec_slots().1
    }

    /// The port of the node.
    pub fn port(&self) -> (port: u16)
        ensures
            port == self.spec_port(),
    {
        match self {
            Node::Node1 => 7001,
            Node::Node2 => 7002,
            Node::Node3 => 7003,
        }
    }

    /// The key of the harness that the node owns.
    pub fn key(&self) -> (key: Key)
        ensures
            key == self.spec_key(),
    {
        match self {
            Node::Node1 => Key::Alpha,
            Node::Node2 => Key::Key1,
            Node::Node3 => Key::Beta,
        }
    }

    /// The hash slot of that key.
    pub fn slot(&self) -> (slot: u16)
        ensures
            slot == self.spec_slot(),
    {
        match self {
            Node::Node1 => 865,
            Node::Node2 => 9189,
            Node::Node3 => 15419,
        }
    }
}

/// Every slot of the cluster has exactly one owner, and no slot beyond them has any.
pub proof fn law_slots_have_one_owner(slot: u16)
    ensures
        slot < CLUSTER_SLOTS <==> (exists|node: Node| #[trigger] node.owns(slot)),
        forall|a: Node, b: Node| #[trigger] a.owns(slot) && #[trigger] b.owns(slot) ==> a == b,
{
    if slot < CLUSTER_SLOTS {
        assert(Node::Node1.owns(slot) || Node::Node2.owns(slot) || Node::Node3.owns(slot));
    }
}

/// Every node owns the slot of its key, so the three keys live on three nodes.
pub proof fn law_nodes_own_their_keys(node: Node, other: Node)
    ensures
        node.owns(node.spec_slot()),
        node != other ==> !other.owns(node.spec_slot()),
        node != other ==> node.spec_key() != other.spec_key(),
{
}

/// The time limits of a client, in milliseconds, and its retry budgets.
#[derive(Clone, Copy, Debug, PartialEq, Eq, Structural)]
pub struct Limits {
    /// How long a caller waits for a command.
    pub default_command_timeout_ms: u64,
    /// How long a command may go unanswered before its connection is given up.
    pub unresponsive_timeout_ms: u64,
    /// How often a command is sent at most.
    pub max_command_attempts: u32,
    /// How long a new connection may take, where it is not left to the client.
    pub connection_timeout_ms: Option<u64>,
    /// How long a setup command may take, where it is not left to the client.
    pub internal_command_timeout_ms: Option<u64>,
    /// How often a lost connection is tried again.
    pub reconnect_attempts: u32,
    /// The wait before each such attempt.
    pub reconnect_delay_ms: u32,
}

/// The limit that the client sets on connections and on setup commands by itself.
pub const CLIENT_DEFAULT_TIMEOUT_MS: u64 = 10000;

/// How often the client's watchdog looks at its connections.
pub const WATCHDOG_INTERVAL_MS: u64 = 2000;

/// Whether a limit is kept by something that takes this long. No limit is always kept.
pub open spec fn keeps(limit_ms: Option<nat>, time_ms: nat) -> bool {
    match limit_ms {
        Some(ms) => time_ms < ms,
        None => true,
    }
}

/// A limit of the client: what was set, or else the client's own.
pub open spec fn set_or_default(set_ms: Option<u64>) -> nat {
    match set_ms {
        Some(ms) => ms as nat,
        None => CLIENT_DEFAULT_TIMEOUT_MS as nat,
    }
}

/// A limit of the client as it is in force. A limit of zero is none.
pub open spec fn in_force(set_ms: Option<u64>) -> Option<nat> {
    if set_or_default(set_ms) == 0 {
        None
    } else {
        Some(set_or_default(set_ms))
    }
}

/// A limit that is set is the one that holds, whatever it is, and one that is left to the
/// client is ten seconds. It is in force unless it is zero.
pub proof fn law_a_limit_that_is_set_holds(ms: u64)
    ensures
        set_or_default(Some(ms)) == ms,
        set_or_default(None) == 10000,
        in_force(Some(ms)) == (if ms == 0 {
            None::<nat>
        } else {
            Some(ms as nat)
        }),
        in_force(None) == Some(10000nat),
{
}

impl Limits {
    /// The caller's deadline. A deadline of zero is none.
    pub open spec fn deadline_ms(self) -> Option<nat> {
        if self.default_command_timeout_ms == 0 {
            None
        } else {
            Some(self.default_command_timeout_ms as nat)
        }
    }

    /// The limit on new connections.
    pub open spec fn connection_ms(self) -> Option<nat> {
        in_force(self.connection_timeout_ms)
    }

    /// The limit on setup commands.
    pub open spec fn internal_ms(self) -> Option<nat> {
        in_force(self.internal_command_timeout_ms)
    }

    /// The time until the watchdog has given up a connection, at the latest: one look
    /// after the limit.
    pub open spec fn detection_ms(self, watchdog_interval_ms: nat) -> nat {
        self.unresponsive_timeout_ms as nat + watchdog_interval_ms
    }

    /// The caller's deadline passes before the watchdog may act at all.
    pub open spec fn gives_up_first(self) -> bool {
        match self.deadline_ms() {
            Some(ms) => ms < self.unresponsive_timeout_ms,
            None => false,
        }
    }

    /// The waits before all the reconnections that the budget allows, added up. Attempts
    /// without end, which a budget of zero means, have no bound.
    pub open spec fn backoff_ms(self) -> Option<nat> {
        if self.reconnect_attempts == 0 {
            None
        } else {
            Some(self.reconnect_attempts as nat * self.reconnect_delay_ms as nat)
        }
    }

    /// The longest that a recovery takes in which one connection takes its time: the
    /// detection, all the waits, and that connection. It has a bound where the waits and
    /// the connection have one.
    pub open spec fn recovery_ms(self, watchdog_interval_ms: nat) -> Option<nat> {
        match (self.backoff_ms(), self.connection_ms()) {
            (Some(backoff), Some(connection)) => Some(
                self.detection_ms(watchdog_interval_ms) + backoff + connection,
            ),
            _ => None,
        }
    }

    /// The longest that a recovery takes which uses up every reconnection: the detection,
    /// all the waits, and as many connections. It has a bound where the waits and the
    /// connection have one.
    pub open spec fn worst_recovery_ms(self, watchdog_interval_ms: nat) -> Option<nat> {
        match (self.backoff_ms(), self.connection_ms()) {
            (Some(backoff), Some(connection)) => Some(
                self.detection_ms(watchdog_interval_ms) + backoff + self.reconnect_attempts as nat
                    * connection,
            ),
            _ => None,
        }
    }

    /// The longest that the watchdog takes over a command at every attempt to send it,
    /// and all the waits before reconnections. It has a bound where the waits have one.
    pub open spec fn attempts_ms(self, watchdog_interval_ms: nat) -> Option<nat> {
        match self.backoff_ms() {
            Some(backoff) => Some(
                self.detection_ms(watchdog_interval_ms) * self.max_command_attempts as nat
                    + backoff,
            ),
            None => None,
        }
    }

    /// A caller waits longer than this. One without a deadline waits through anything;
    /// any other waits through no more than has a bound.
    pub open spec fn waits_through(self, time_ms: Option<nat>) -> bool {
        match (self.deadline_ms(), time_ms) {
            (None, _) => true,
            (Some(deadline), Some(time)) => time < deadline,
            (Some(_), None) => false,
        }
    }

    /// The caller's deadline leaves room for a recovery with one connection.
    pub open spec fn outlasts_recovery(self, watchdog_interval_ms: nat) -> bool {
        self.waits_through(self.recovery_ms(watchdog_interval_ms))
    }

    /// The caller's deadline leaves room for a detection at every attempt to send the
    /// command, and for all the waits before reconnections.
    pub open spec fn outlasts_attempts(self, watchdog_interval_ms: nat) -> bool {
        self.waits_through(self.attempts_ms(watchdog_interval_ms))
    }

    /// The caller's deadline leaves room for a recovery that needs every reconnection.
    pub open spec fn outlasts_worst_recovery(self, watchdog_interval_ms: nat) -> bool {
        self.waits_through(self.worst_recovery_ms(watchdog_interval_ms))
    }

    /// A server that is away for this long is back before the waits between the
    /// reconnections are used up. A budget of zero has no end.
    pub open spec fn survives_pause(self, pause_ms: nat) -> bool {
        keeps(self.backoff_ms(), pause_ms)
    }

    /// Under a one-way delay on every packet the watchdog acts before the delayed answer
    /// arrives, and a round trip stays within the limits of connections, of setup
    /// commands and of the caller.
    pub open spec fn suits_delay(self, delay_ms: nat) -> bool {
        &&& self.unresponsive_timeout_ms < delay_ms
        &&& keeps(self.connection_ms(), 2 * delay_ms)
        &&& keeps(self.internal_ms(), 2 * delay_ms)
        &&& keeps(self.deadline_ms(), 2 * delay_ms)
    }
}

/// The limits of each scenario.
pub open spec fn limits(scenario: Scenario) -> Limits {
    match scenario {
        Scenario::Misconfigured => Limits {
            default_command_timeout_ms: 5000,
            unresponsive_timeout_ms: 10000,
            max_command_attempts: 3,
            connection_timeout_ms: None,
            internal_command_timeout_ms: None,
            reconnect_attempts: 5,
            reconnect_delay_ms: 1000,
        },
        Scenario::Correct => Limits {
            default_command_timeout_ms: 60000,
            unresponsive_timeout_ms: 10000,
            max_command_attempts: 3,
            connection_timeout_ms: Some(5000),
            internal_command_timeout_ms: None,
            reconnect_attempts: 10,
            reconnect_delay_ms: 1000,
        },
        Scenario::Cluster => Limits {
            default_command_timeout_ms: 60000,
            unresponsive_timeout_ms: 2000,
            max_command_attempts: 3,
            connection_timeout_ms: Some(15000),
            internal_command_timeout_ms: Some(15000),
            reconnect_attempts: 10,
            reconnect_delay_ms: 1000,
        },
        Scenario::ClusterServer => Limits {
            default_command_timeout_ms: 5000,
            unresponsive_timeout_ms: 2000,
            max_command_attempts: 5,
            connection_timeout_ms: None,
            internal_command_timeout_ms: None,
            reconnect_attempts: 1000,
            reconnect_delay_ms: 3000,
        },
    }
}

/// The limits of a scenario.
pub fn limits_of(scenario: Scenario) -> (found: Limits)
    ensures
        found == limits(scenario),
{
    match scenario {
        Scenario::Misconfigured => Limits {
            default_command_timeout_ms: 5000,
            unresponsive_timeout_ms: 10000,
            max_command_attempts: 3,
            connection_timeout_ms: None,
            internal_command_timeout_ms: None,
            reconnect_attempts: 5,
            reconnect_delay_ms: 1000,
        },
        Scenario::Correct => Limits {
            default_command_timeout_ms: 60000,
            unresponsive_timeout_ms: 10000,
            max_command_attempts: 3,
            connection_timeout_ms: Some(5000),
            internal_command_timeout_ms: None,
            reconnect_attempts: 10,
            reconnect_delay_ms: 1000,
        },
        Scenario::Cluster => Limits {
            default_command_timeout_ms: 60000,
            unresponsive_timeout_ms: 2000,
            max_command_attempts: 3,
            connection_timeout_ms: Some(15000),
            internal_command_timeout_ms: Some(15000),
            reconnect_attempts: 10,
            reconnect_delay_ms: 1000,
        },
        Scenario::ClusterServer => Limits {
            default_command_timeout_ms: 5000,
            unresponsive_timeout_ms: 2000,
            max_command_attempts: 5,
            connection_timeout_ms: None,
            internal_command_timeout_ms: None,
            reconnect_attempts: 1000,
            reconnect_delay_ms: 3000,
        },
    }
}

/// A caller that gives up before the watchdog may act cannot outlast a recovery.
pub proof fn law_giving_up_first_excludes_recovery(limits: Limits, watchdog_interval_ms: nat)
    requires
        limits.gives_up_first(),
    ensures
        !limits.outlasts_recovery(watchdog_interval_ms),
{
}

/// A caller without a deadline outlasts every recovery.
pub proof fn law_no_deadline_outlasts_everything(limits: Limits, watchdog_interval_ms: nat)
    requires
        limits.default_command_timeout_ms == 0,
    ensures
        !limits.gives_up_first(),
        limits.outlasts_recovery(watchdog_interval_ms),
        limits.outlasts_attempts(watchdog_interval_ms),
        limits.outlasts_worst_recovery(watchdog_interval_ms),
{
}

/// Who outlasts the worst recovery outlasts a recovery with one connection.
pub proof fn law_worst_recovery_covers_one(limits: Limits, watchdog_interval_ms: nat)
    requires
        limits.outlasts_worst_recovery(watchdog_interval_ms),
    ensures
        limits.outlasts_recovery(watchdog_interval_ms),
{
    let attempts = limits.reconnect_attempts as nat;
    if attempts > 0 {
        if let Some(connection) = limits.connection_ms() {
            assert(attempts * connection >= connection) by (nonlinear_arith)
                requires
                    attempts >= 1,
            ;
        }
    }
}

/// The waits before the reconnections of each scenario, added up.
proof fn lemma_backoff(scenario: Scenario)
    ensures
        limits(scenario).backoff_ms() == Some(
            match scenario {
                Scenario::Misconfigured => 5000nat,
                Scenario::Correct => 10000nat,
                Scenario::Cluster => 10000nat,
                Scenario::ClusterServer => 3000000nat,
            },
        ),
{
    let attempts = limits(scenario).reconnect_attempts as nat;
    let delay = limits(scenario).reconnect_delay_ms as nat;
    assert(attempts * delay == (if attempts == 5 {
        5 * delay
    } else if attempts == 10 {
        10 * delay
    } else {
        1000 * delay
    })) by (nonlinear_arith)
        requires
            attempts == 5 || attempts == 10 || attempts == 1000,
    ;
}

/// The misconfigured scenario is the one whose callers give up before the watchdog acts.
pub proof fn law_only_misconfigured_gives_up_first(scenario: Scenario)
    ensures
        limits(scenario).gives_up_first() <==> scenario == Scenario::Misconfigured,
{
}

/// With the watchdog's own interval, or a shorter one, the callers of the correct
/// scenario and of the cluster scenario outlast a recovery and all their attempts. Those
/// of the other two do neither.
pub proof fn law_correct_scenarios_outlast_recovery(scenario: Scenario, watchdog_interval_ms: nat)
    requires
        watchdog_interval_ms <= WATCHDOG_INTERVAL_MS,
    ensures
        limits(scenario).outlasts_recovery(watchdog_interval_ms) <==> (scenario
            == Scenario::Correct || scenario == Scenario::Cluster),
        limits(scenario).outlasts_attempts(watchdog_interval_ms) <==> (scenario
            == Scenario::Correct || scenario == Scenario::Cluster),
{
    lemma_backoff(scenario);
    let detection = limits(scenario).detection_ms(watchdog_interval_ms);
    let attempts = limits(scenario).max_command_attempts as nat;
    if attempts == 3 {
        assert(detection * attempts == 3 * detection) by (nonlinear_arith)
            requires
                attempts == 3,
        ;
    } else {
        assert(detection * attempts == 5 * detection) by (nonlinear_arith)
            requires
                attempts == 5,
        ;
    }
}

/// No scenario's callers outlast a recovery that needs every reconnection of its budget:
/// they count on a server that is back before that.
pub proof fn law_no_scenario_outlasts_the_worst_recovery(
    scenario: Scenario,
    watchdog_interval_ms: nat,
)
    ensures
        !limits(scenario).outlasts_worst_recovery(watchdog_interval_ms),
{
    let attempts = limits(scenario).reconnect_attempts as nat;
    let connection = limits(scenario).connection_ms()->0;
    lemma_backoff(scenario);
    match scenario {
        Scenario::Misconfigured => {
            assert(attempts * connection == 50000) by (nonlinear_arith)
                requires
                    attempts == 5,
                    connection == 10000,
            ;
        },
        Scenario::Correct => {
            assert(attempts * connection == 50000) by (nonlinear_arith)
                requires
                    attempts == 10,
                    connection == 5000,
            ;
        },
        Scenario::Cluster => {
            assert(attempts * connection == 150000) by (nonlinear_arith)
                requires
                    attempts == 10,
                    connection == 15000,
            ;
        },
        Scenario::ClusterServer => {
            assert(attempts * connection == 10000000) by (nonlinear_arith)
                requires
                    attempts == 1000,
                    connection == 10000,
            ;
        },
    }
}

/// The HTTP server's clients survive every pause of a node below three thousand seconds
/// without using up their reconnections.
pub proof fn law_server_survives_pauses(pause_ms: nat)
    ensures
        limits(Scenario::ClusterServer).survives_pause(pause_ms) <==> pause_ms < 3000000,
{
    lemma_backoff(Scenario::ClusterServer);
}

/// The delays that suit the cluster scenario are those above its unresponsive limit
/// whose round trip stays below its connection limit.
pub proof fn law_delays_that_suit_the_cluster(delay_ms: nat)
    ensures
        limits(Scenario::Cluster).suits_delay(delay_ms) <==> 2000 < delay_ms < 7500,
{
}

/// `fred::types::ReconnectPolicy`: when a client tries a lost connection again.
#[verifier::external_type_specification]
#[verifier::external_body]
pub struct ExReconnectPolicy(fred::types::ReconnectPolicy);

/// How often a policy tries again at most. Zero is without end.
pub uninterp spec fn policy_attempts(policy: fred::types::ReconnectPolicy) -> nat;

/// The wait of a policy before each attempt, in milliseconds, without its jitter.
pub uninterp spec fn policy_delay_ms(policy: fred::types::ReconnectPolicy) -> nat;

/// `fred::types::ReconnectPolicy::new_constant`: the same wait before every attempt. The
/// random jitter that the client adds to each wait is left unsaid.
#[verifier::external_body]
fn constant_policy(max_attempts: u32, delay_ms: u32) -> (policy: fred::types::ReconnectPolicy)
    ensures
        policy_attempts(policy) == max_attempts as nat,
        policy_delay_ms(policy) == delay_ms as nat,
{
    fred::types::ReconnectPolicy::new_constant(max_attempts, delay_ms)
}

/// The policy that the limits ask for.
pub fn reconnect_policy(limits: &Limits) -> (policy: fred::types::ReconnectPolicy)
    ensures
        policy_attempts(policy) == limits.reconnect_attempts as nat,
        policy_delay_ms(policy) == limits.reconnect_delay_ms as nat,
{
    constant_policy(limits.reconnect_attempts, limits.reconnect_delay_ms)
}

/// `fred::types::PerformanceConfig`: how a client sends commands.
#[verifier::external_type_specification]
#[verifier::external_body]
pub struct ExPerformanceConfig(fred::types::PerformanceConfig);

/// The deadline on commands in a configuration, in milliseconds.
pub uninterp spec fn command_timeout_ms(config: fred::types::PerformanceConfig) -> nat;

/// `fred::types::PerformanceConfig` with its field `default_command_timeout` set, and the
/// rest from its `Default`, of which nothing is said.
#[verifier::external_body]
fn with_command_timeout(timeout_ms: u64) -> (config: fred::types::PerformanceConfig)
    ensures
        command_timeout_ms(config) == timeout_ms as nat,
{
    fred::types::PerformanceConfig {
        default_command_timeout: std::time::Duration::from_millis(timeout_ms),
        ..Default::default()
    }
}

/// The deadline that the limits ask for.
pub fn performance_config(limits: &Limits) -> (config: fred::types::PerformanceConfig)
    ensures
        command_timeout_ms(config) == limits.default_command_timeout_ms as nat,
{
    with_command_timeout(limits.default_command_timeout_ms)
}

/// `fred::types::ConnectionConfig`: how a client treats its connections.
#[verifier::external_type_specification]
#[verifier::external_body]
pub struct ExConnectionConfig(fred::types::ConnectionConfig);

/// How long a command may go unanswered in a configuration, in milliseconds.
pub uninterp spec fn unresponsive_limit_ms(config: fred::types::ConnectionConfig) -> nat;

/// How often a command is sent at most in a configuration.
pub uninterp spec fn command_attempts(config: fred::types::ConnectionConfig) -> nat;

/// How long a new connection may take in a configuration, in milliseconds.
pub uninterp spec fn connection_limit_ms(config: fred::types::ConnectionConfig) -> nat;

/// How long a setup command may take in a configuration, in milliseconds.
pub uninterp spec fn internal_limit_ms(config: fred::types::ConnectionConfig) -> nat;

/// `fred::types::ConnectionConfig` with its fields `unresponsive_timeout` and
/// `max_command_attempts` set, and the rest from its `Default`, which gives connections
/// and setup commands ten seconds. Of the other fields nothing is said.
#[verifier::external_body]
fn with_unresponsive_timeout(
    timeout_ms: u64,
    max_attempts: u32,
) -> (config: fred::types::ConnectionConfig)
    ensures
        unresponsive_limit_ms(config) == timeout_ms as nat,
        command_attempts(config) == max_attempts as nat,
        connection_limit_ms(config) == CLIENT_DEFAULT_TIMEOUT_MS as nat,
        internal_limit_ms(config) == CLIENT_DEFAULT_TIMEOUT_MS as nat,
{
    fred::types::ConnectionConfig {
        unresponsive_timeout: std::time::Duration::from_millis(timeout_ms),
        max_command_attempts: max_attempts,
        ..Default::default()
    }
}

/// Sets the field `connection_timeout` of a `fred::types::ConnectionConfig`; the other
/// limits stay.
#[verifier::external_body]
fn set_connection_timeout(config: &mut fred::types::ConnectionConfig, timeout_ms: u64)
    ensures
        connection_limit_ms(*final(config)) == timeout_ms as nat,
        unresponsive_limit_ms(*final(config)) == unresponsive_limit_ms(*old(config)),
        command_attempts(*final(config)) == command_attempts(*old(config)),
        internal_limit_ms(*final(config)) == internal_limit_ms(*old(config)),
{
    config.connection_timeout = std::time::Duration::from_millis(timeout_ms);
}

/// Sets the field `internal_command_timeout` of a `fred::types::ConnectionConfig`; the
/// other limits stay.
#[verifier::external_body]
fn set_internal_timeout(config: &mut fred::types::ConnectionConfig, timeout_ms: u64)
    ensures
        internal_limit_ms(*final(config)) == timeout_ms as nat,
        unresponsive_limit_ms(*final(config)) == unresponsive_limit_ms(*old(config)),
        command_attempts(*final(config)) == command_attempts(*old(config)),
        connection_limit_ms(*final(config)) == connection_limit_ms(*old(config)),
{
    config.internal_command_timeout = std::time::Duration::from_millis(timeout_ms);
}

/// The connections that the limits ask for. A limit that is left to the client is the
/// client's own.
pub fn connection_config(limits: &Limits) -> (config: fred::types::ConnectionConfig)
    ensures
        unresponsive_limit_ms(config) == limits.unresponsive_timeout_ms as nat,
        command_attempts(config) == limits.max_command_attempts as nat,
        connection_limit_ms(config) == set_or_default(limits.connection_timeout_ms),
        internal_limit_ms(config) == set_or_default(limits.internal_command_timeout_ms),
        limits.connection_timeout_ms matches Some(ms) ==> connection_limit_ms(config) == ms,
        limits.connection_timeout_ms is None ==> connection_limit_ms(config) == 10000,
        limits.internal_command_timeout_ms matches Some(ms) ==> internal_limit_ms(config) == ms,
        limits.internal_command_timeout_ms is None ==> internal_limit_ms(config) == 10000,
{
    let mut config = with_unresponsive_timeout(
        limits.unresponsive_timeout_ms,
        limits.max_command_attempts,
    );
    if let Some(ms) = limits.connection_timeout_ms {
        set_connection_timeout(&mut config, ms);
    }
    if let Some(ms) = limits.internal_command_timeout_ms {
        set_internal_timeout(&mut config, ms);
    }
    config
}

/// `fred::types::ServerConfig`: the servers that a client is pointed at.
#[verifier::external_type_specification]
#[verifier::external_body]
pub struct ExServerConfig(fred::types::ServerConfig);

/// The hosts and ports of the servers, in their order.
pub uninterp spec fn server_addresses(config: fred::types::ServerConfig) -> Seq<(Seq<char>, u16)>;

/// Whether the servers form a cluster.
pub uninterp spec fn is_clustered(config: fred::types::ServerConfig) -> bool;

/// The hosts and ports of a list.
pub open spec fn host_ports(hosts: Seq<(String, u16)>) -> Seq<(Seq<char>, u16)> {
    hosts.map_values(|host: (String, u16)| (host.0@, host.1))
}

/// `fred::types::ServerConfig::new_centralized`: one server, with this host and port.
#[verifier::external_body]
fn centralized(host: String, port: u16) -> (config: fred::types::ServerConfig)
    ensures
        server_addresses(config) == seq![(host@, port)],
        !is_clustered(config),
{
    fred::types::ServerConfig::new_centralized(host, port)
}

/// `fred::types::ServerConfig::new_clustered`: a cluster with these hosts and ports, in
/// the order of the list.
#[verifier::external_body]
fn clustered(hosts: Vec<(String, u16)>) -> (config: fred::types::ServerConfig)
    ensures
        server_addresses(config) == host_ports(hosts@),
        is_clustered(config),
{
    fred::types::ServerConfig::new_clustered(hosts)
}

/// The host that the cluster announces, where the environment names no other.
pub open spec fn announced_host() -> Seq<char> {
    "192.168.215.1"@
}

/// The host of a scenario. Only the HTTP server takes it from the environment.
pub open spec fn host_of(scenario: Scenario, host_ip: Option<Seq<char>>) -> Seq<char> {
    match scenario {
        Scenario::Misconfigured | Scenario::Correct => "127.0.0.1"@,
        Scenario::Cluster => announced_host(),
        Scenario::ClusterServer => match host_ip {
            Some(host) => host,
            None => announced_host(),
        },
    }
}

/// The servers of a scenario on its host.
pub open spec fn servers(scenario: Scenario, host: Seq<char>) -> Seq<(Seq<char>, u16)> {
    match scenario {
        Scenario::Misconfigured | Scenario::Correct => seq![(host, 6379u16)],
        Scenario::Cluster | Scenario::ClusterServer => seq![
            (host, Node::Node1.spec_port()),
            (host, Node::Node2.spec_port()),
            (host, Node::Node3.spec_port()),
        ],
    }
}

/// The host of a scenario. `host_ip` is what the environment names, if anything.
pub fn host_for(scenario: Scenario, host_ip: Option<String>) -> (host: String)
    ensures
        host@ == host_of(scenario, optional_text(host_ip)),
        scenario == Scenario::Misconfigured || scenario == Scenario::Correct ==> host@
            == "127.0.0.1"@,
        scenario == Scenario::Cluster ==> host@ == "192.168.215.1"@,
        scenario == Scenario::ClusterServer && host_ip is None ==> host@ == "192.168.215.1"@,
        scenario == Scenario::ClusterServer ==> (host_ip matches Some(named) ==> host@ == named@),
{
    match scenario {
        Scenario::Misconfigured | Scenario::Correct => "127.0.0.1".to_string(),
        Scenario::Cluster => "192.168.215.1".to_string(),
        Scenario::ClusterServer => match host_ip {
            Some(host) => host,
            None => "192.168.215.1".to_string(),
        },
    }
}

/// Every server of a scenario is on the host that it was given, whichever that is. The
/// one-server scenarios have a single server at the usual port, the cluster scenarios the
/// three nodes, in their order and at consecutive ports.
pub proof fn law_servers_are_on_the_host(scenario: Scenario, host: Seq<char>, i: int)
    requires
        0 <= i < servers(scenario, host).len(),
    ensures
        servers(scenario, host)[i].0 == host,
        servers(scenario, host).len() == 1 || servers(scenario, host).len() == 3,
        servers(scenario, host).len() == 1 <==> (scenario == Scenario::Misconfigured || scenario
            == Scenario::Correct),
        servers(scenario, host).len() == 1 ==> servers(scenario, host)[i].1 == 6379,
        servers(scenario, host).len() == 3 ==> servers(scenario, host)[i].1 == 7001 + i,
        servers(scenario, host).len() == 3 ==> servers(scenario, host)[i].1 == (if i == 0 {
            Node::Node1
        } else if i == 1 {
            Node::Node2
        } else {
            Node::Node3
        }).spec_port(),
{
}

/// Two hosts differ in the servers of a scenario by the host alone: there are as many, at
/// the same ports.
pub proof fn law_hosts_share_the_ports(
    scenario: Scenario,
    host: Seq<char>,
    other: Seq<char>,
    i: int,
)
    requires
        0 <= i < servers(scenario, host).len(),
    ensures
        servers(scenario, host).len() == servers(scenario, other).len(),
        servers(scenario, host)[i].1 == servers(scenario, other)[i].1,
        servers(scenario, host) == servers(scenario, other) <==> host == other,
{
    if servers(scenario, host) == servers(scenario, other) {
        assert(servers(scenario, host)[0] == servers(scenario, other)[0]);
    }
}

/// The HTTP server takes the host that the environment names, whatever it is, and the
/// announced one only where none is named. No other scenario heeds the environment.
pub proof fn law_only_the_server_heeds_the_environment(
    scenario: Scenario,
    named: Seq<char>,
    other: Option<Seq<char>>,
)
    ensures
        host_of(Scenario::ClusterServer, Some(named)) == named,
        host_of(Scenario::ClusterServer, None) == host_of(Scenario::Cluster, other),
        host_of(Scenario::Cluster, other) == "192.168.215.1"@,
        host_of(Scenario::Misconfigured, other) == "127.0.0.1"@,
        host_of(Scenario::Correct, other) == "127.0.0.1"@,
        scenario != Scenario::ClusterServer ==> host_of(scenario, Some(named)) == host_of(
            scenario,
            other,
        ),
{
}

/// The views of a list of hosts and ports are those of its members, one for one.
pub proof fn law_host_ports_keep_the_list(hosts: Seq<(String, u16)>, i: int)
    requires
        0 <= i < hosts.len(),
    ensures
        host_ports(hosts).len() == hosts.len(),
        host_ports(hosts)[i].0 == hosts[i].0@,
        host_ports(hosts)[i].1 == hosts[i].1,
{
}

/// The keys have different names.
pub proof fn law_keys_have_different_names(key: Key, other: Key)
    ensures
        key != other ==> key.spec_name() != other.spec_name(),
{
    reveal_strlit("mykey");
    reveal_strlit("alpha");
    reveal_strlit("key1");
    reveal_strlit("beta");
    assert("mykey"@.len() == 5 && "mykey"@[0] == 'm');
    assert("alpha"@.len() == 5 && "alpha"@[0] == 'a');
    assert("key1"@.len() == 4 && "key1"@[0] == 'k');
    assert("beta"@.len() == 4 && "beta"@[0] == 'b');
}

/// The servers that the clients of a scenario are pointed at.
pub fn server_config(scenario: Scenario, host: &str) -> (config: fred::types::ServerConfig)
    ensures
        server_addresses(config) == servers(scenario, host@),
        is_clustered(config) == (scenario == Scenario::Cluster || scenario
            == Scenario::ClusterServer),
        forall|i: int|
            0 <= i < server_addresses(config).len() ==> #[trigger] server_addresses(config)[i].0
                == host@,
        !is_clustered(config) ==> server_addresses(config) == seq![(host@, 6379u16)],
        is_clustered(config) ==> server_addresses(config) == seq![
            (host@, 7001u16),
            (host@, 7002u16),
            (host@, 7003u16),
        ],
{
    match scenario {
        Scenario::Misconfigured | Scenario::Correct => centralized(host.to_string(), 6379),
        Scenario::Cluster | Scenario::ClusterServer => {
            let mut hosts: Vec<(String, u16)> = Vec::new();
            hosts.push((host.to_string(), Node::Node1.port()));
            hosts.push((host.to_string(), Node::Node2.port()));
            hosts.push((host.to_string(), Node::Node3.port()));
            assert(host_ports(hosts@) =~= servers(scenario, host@));
            clustered(hosts)
        },
    }
}

} // verus!
