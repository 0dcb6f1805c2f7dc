use raft::config::{
    check_configuration, has_vote, next_configuration, Config, ConfigBuilder, Configuration,
    ConfigurationChangeCommand, ConfigurationChangeRequest, ProtocolVersion, ReloadableConfig,
    Server, ServerSuffrage, DEFAULT_SNAPSHOT_THRESHOLD, DEFAULT_TRAILING_LOGS,
};
use raft::errors::Error;
use std::time::Duration;
use ConfigurationChangeCommand::{AddNonvoter, AddStaging, DemoteVoter, Promote, RemoveServer};
use ServerSuffrage::{Nonvoter, Staging, Voter};
use tokio::sync::mpsc::unbounded_channel;

fn server(suffrage: ServerSuffrage, id: u64, address: &str) -> Server {
    Server { suffrage, id, address: address.to_string() }
}

fn sample_configuration() -> Configuration {
    Configuration::with_servers(vec![
        server(ServerSuffrage::Nonvoter, 0, "addr0"),
        server(ServerSuffrage::Voter, 1, "addr1"),
        server(ServerSuffrage::Staging, 2, "addr2"),
    ])
}

fn single_server() -> Configuration {
    Configuration::with_servers(vec![server(ServerSuffrage::Voter, 1, "addr1x")])
}

fn one_of_each() -> Configuration {
    Configuration::with_servers(vec![
        server(ServerSuffrage::Voter, 1, "addr1x"),
        server(ServerSuffrage::Staging, 2, "addr2x"),
        server(ServerSuffrage::Nonvoter, 3, "addr3x"),
    ])
}

fn voter_pair() -> Configuration {
    Configuration::with_servers(vec![
        server(ServerSuffrage::Voter, 1, "addr1x"),
        server(ServerSuffrage::Voter, 2, "addr2x"),
    ])
}

fn finalized(builder: ConfigBuilder) -> Result<Config, Error> {
    let (_, rx) = unbounded_channel::<bool>();
    builder.finalize(rx)
}

struct NextConfigurationTest {
    current: Configuration,
    command: ConfigurationChangeCommand,
    server_id: u64,
    next: Vec<(ServerSuffrage, u64, &'static str)>,
}

fn next_configuration_tests() -> Vec<NextConfigurationTest> {
    let t = |current: Configuration,
             command: ConfigurationChangeCommand,
             server_id: u64,
             next: Vec<(ServerSuffrage, u64, &'static str)>| NextConfigurationTest {
        current,
        command,
        server_id,
        next,
    };
    vec![
        // AddStaging: was missing
        t(Configuration::new(), AddStaging, 1, vec![(Voter, 1, "addr1")]),
        t(single_server(), AddStaging, 2, vec![(Voter, 1, "addr1x"), (Voter, 2, "addr2")]),
        // AddStaging: was Voter
        t(single_server(), AddStaging, 1, vec![(Voter, 1, "addr1")]),
        // AddStaging: was Staging
        t(one_of_each(), AddStaging, 2, vec![(Voter, 1, "addr1x"), (Voter, 2, "addr2"), (Nonvoter, 3, "addr3x")]),
        // AddStaging: was Nonvoter
        t(one_of_each(), AddStaging, 3, vec![(Voter, 1, "addr1x"), (Staging, 2, "addr2x"), (Voter, 3, "addr3")]),
        // AddNonvoter: was missing
        t(single_server(), AddNonvoter, 2, vec![(Voter, 1, "addr1x"), (Nonvoter, 2, "addr2")]),
        // AddNonvoter: was Voter
        t(single_server(), AddNonvoter, 1, vec![(Voter, 1, "addr1")]),
        // AddNonvoter: was Staging
        t(one_of_each(), AddNonvoter, 2, vec![(Voter, 1, "addr1x"), (Staging, 2, "addr2"), (Nonvoter, 3, "addr3x")]),
        // AddNonvoter: was Nonvoter
        t(one_of_each(), AddNonvoter, 3, vec![(Voter, 1, "addr1x"), (Staging, 2, "addr2x"), (Nonvoter, 3, "addr3")]),
        // DemoteVoter: was missing
        t(single_server(), DemoteVoter, 2, vec![(Voter, 1, "addr1x")]),
        // DemoteVoter: was Voter
        t(voter_pair(), DemoteVoter, 2, vec![(Voter, 1, "addr1x"), (Nonvoter, 2, "addr2x")]),
        // DemoteVoter: was Staging
        t(one_of_each(), DemoteVoter, 2, vec![(Voter, 1, "addr1x"), (Nonvoter, 2, "addr2x"), (Nonvoter, 3, "addr3x")]),
        // DemoteVoter: was Nonvoter
        t(one_of_each(), DemoteVoter, 3, vec![(Voter, 1, "addr1x"), (Staging, 2, "addr2x"), (Nonvoter, 3, "addr3x")]),
        // RemoveServer: was missing
        t(single_server(), RemoveServer, 2, vec![(Voter, 1, "addr1x")]),
        // RemoveServer: was Voter
        t(voter_pair(), RemoveServer, 2, vec![(Voter, 1, "addr1x")]),
        // RemoveServer: was Staging
        t(one_of_each(), RemoveServer, 2, vec![(Voter, 1, "addr1x"), (Nonvoter, 3, "addr3x")]),
        // RemoveServer: was Nonvoter
        t(one_of_each(), RemoveServer, 3, vec![(Voter, 1, "addr1x"), (Staging, 2, "addr2x")]),
        // Promote: was missing
        t(single_server(), Promote, 2, vec![(Voter, 1, "addr1x")]),
        // Promote: was Voter
        t(single_server(), Promote, 1, vec![(Voter, 1, "addr1x")]),
        // Promote: was Staging
        t(one_of_each(), Promote, 2, vec![(Voter, 1, "addr1x"), (Voter, 2, "addr2x"), (Nonvoter, 3, "addr3x")]),
        // Promote: was Nonvoter
        t(one_of_each(), Promote, 3, vec![(Voter, 1, "addr1x"), (Staging, 2, "addr2x"), (Nonvoter, 3, "addr3x")]),
    ]
}

#[test]
fn test_config_builder() {
    let config = finalized(
        ConfigBuilder::default()
            .set_local_id(123)
            .set_protocol_version(ProtocolVersion::ProtocolVersionMax)
            .set_heartbeat_timeout(Duration::from_millis(1000))
            .set_election_timeout(Duration::from_millis(1000))
            .set_commit_timeout(Duration::from_millis(50))
            .set_max_append_entries(128)
            .set_batch_apply_ch(true)
            .set_shut_down_on_remove(true)
            .set_trailing_logs(10240)
            .set_snapshot_interval(Duration::from_secs(120))
            .set_snapshot_threshold(8192)
            .set_leader_lease_timeout(Duration::from_millis(500))
            .set_no_snapshot_restore_on_start(false)
            .set_skip_startup(false),
    )
    .unwrap();
    assert!(!config.skip_startup);
}

#[test]
fn test_reloadable_config() {
    let config = finalized(ConfigBuilder::default().set_local_id(123)).unwrap();
    let rc = ReloadableConfig {
        trailing_logs: DEFAULT_TRAILING_LOGS,
        snapshot_interval: Duration::from_secs(60),
        snapshot_threshold: DEFAULT_SNAPSHOT_THRESHOLD,
    };

    assert_eq!(rc.apply(config.clone()).snapshot_interval, Duration::from_secs(60));

    let rc = ReloadableConfig::from_config(config);
    assert_eq!(rc.snapshot_interval, Duration::from_secs(120));

    let rc = ReloadableConfig::default();
    let config = finalized(ConfigBuilder::default().set_local_id(123)).unwrap();
    assert!(rc == config.clone());
    let rc = ReloadableConfig::default();
    assert_eq!(rc.apply(config.clone()).trailing_logs, config.trailing_logs);
}

#[test]
fn test_configuration_has_vote() {
    assert!(!has_vote(sample_configuration(), 0), "server id 0 should not have vote");
    assert!(has_vote(sample_configuration(), 1), "server id 1 should have vote");
    assert!(!has_vote(sample_configuration(), 2), "server id 2 should not have vote");
    assert!(!has_vote(sample_configuration(), 12345), "server other id should not have vote");
}

#[test]
fn test_configuration_next_configuration_table() {
    for (idx, tt) in next_configuration_tests().into_iter().enumerate() {
        let req = ConfigurationChangeRequest {
            command: tt.command,
            server_id: tt.server_id,
            server_address: format!("addr{}", tt.server_id),
            prev_index: 0,
        };
        let next = next_configuration(tt.current, 1, req);
        let expected = Configuration::with_servers(
            tt.next.into_iter().map(|(s, id, a)| server(s, id, a)).collect(),
        );
        match next {
            Ok(next) => {
                assert_eq!(next, expected, "nextConfiguration {} returned {:?}, expected {:?}", idx, next, expected);
            }
            Err(err) => panic!("nextConfiguration {} should have succeeded, got {}", idx, err.message()),
        }
    }
}

#[test]
fn test_configuration_next_configuration_prev_index() {
    // stable prev_index
    let req = ConfigurationChangeRequest {
        command: ConfigurationChangeCommand::AddStaging,
        server_id: 1,
        server_address: "addr1".to_string(),
        prev_index: 1,
    };
    match next_configuration(single_server(), 2, req) {
        Ok(_) => {
            panic!("next_configuration should have failed due to intervening configuration change");
        }
        Err(e) => {
            let s = e.message();
            assert!(
                s.contains("changed"),
                "next_configuration should have failed due to intervening configuration change"
            );
        }
    }

    // current prev_index
    let req = ConfigurationChangeRequest {
        command: ConfigurationChangeCommand::AddStaging,
        server_id: 2,
        server_address: "addr2".to_string(),
        prev_index: 2,
    };
    match next_configuration(single_server(), 2, req) {
        Ok(_) => {}
        Err(e) => panic!("nextConfiguration should have succeeded, got {}", e.message()),
    }

    // zero prev_index
    let req = ConfigurationChangeRequest {
        command: ConfigurationChangeCommand::AddStaging,
        server_id: 3,
        server_address: "addr3".to_string(),
        prev_index: 0,
    };
    match next_configuration(single_server(), 2, req) {
        Ok(_) => {}
        Err(e) => panic!("nextConfiguration should have succeeded, got {}", e.message()),
    }
}

#[test]
fn test_configuration_next_configuration_check_configuration() {
    let req = ConfigurationChangeRequest {
        command: ConfigurationChangeCommand::AddNonvoter,
        server_id: 1,
        server_address: "addr1".to_string(),
        prev_index: 0,
    };

    match next_configuration(Configuration::new(), 1, req) {
        Ok(_) => {
            panic!("next_configuration should have failed for not having a voter");
        }
        Err(e) => {
            let s = e.message();
            assert!(
                s.contains("at least one voter"),
                "next_configuration should have failed for not having a voter"
            );
        }
    }
}

#[test]
fn check_configuration_reports_the_first_clash() {
    let c = Configuration::with_servers(vec![
        server(Voter, 1, "a"),
        server(Voter, 2, "a"),
        server(Voter, 1, "b"),
    ]);
    assert_eq!(check_configuration(c).unwrap_err(), Error::DuplicateServerAddress("a".to_string()));
    let c = Configuration::with_servers(vec![
        server(Voter, 1, "a"),
        server(Voter, 1, "a"),
    ]);
    assert_eq!(check_configuration(c).unwrap_err(), Error::DuplicateServerID(1));
    let c = Configuration::with_servers(vec![server(Nonvoter, 1, "a"), server(Staging, 2, "b")]);
    assert_eq!(check_configuration(c).unwrap_err(), Error::NonVoter);
    let c = sample_configuration();
    assert_eq!(check_configuration(c.clone()).unwrap(), c);
}

#[test]
fn next_configuration_stale_change_names_both_indexes() {
    let req = ConfigurationChangeRequest {
        command: AddStaging,
        server_id: 5,
        server_address: "addr5".to_string(),
        prev_index: 3,
    };
    assert_eq!(
        next_configuration(single_server(), 7, req).unwrap_err(),
        Error::ConfigurationChanged { current_index: 7, prev_index: 3 }
    );
}

#[test]
fn next_configuration_refuses_removing_the_last_voter() {
    let req = ConfigurationChangeRequest {
        command: RemoveServer,
        server_id: 1,
        server_address: String::new(),
        prev_index: 0,
    };
    assert_eq!(next_configuration(single_server(), 1, req).unwrap_err(), Error::NonVoter);
}

#[test]
fn config_validation_reports_the_first_broken_rule() {
    let b = ConfigBuilder::default();
    assert_eq!(finalized(b.set_local_id(0)).unwrap_err(), Error::EmptyLocalID);
    let b = b.set_local_id(9);
    assert_eq!(
        finalized(b.set_heartbeat_timeout(Duration::from_millis(4))).unwrap_err(),
        Error::ShortHeartbeatTimeout
    );
    assert_eq!(
        finalized(b.set_election_timeout(Duration::from_millis(4))).unwrap_err(),
        Error::ShortElectionTimeout
    );
    assert_eq!(
        finalized(b.set_commit_timeout(Duration::from_micros(999))).unwrap_err(),
        Error::ShortCommitTimeout
    );
    assert_eq!(finalized(b.set_max_append_entries(1025)).unwrap_err(), Error::LargeMaxAppendEntries);
    assert!(finalized(b.set_max_append_entries(1024)).is_ok());
    assert_eq!(
        finalized(b.set_snapshot_interval(Duration::from_millis(4))).unwrap_err(),
        Error::ShortSnapshotInterval
    );
    assert_eq!(
        finalized(b.set_leader_lease_timeout(Duration::from_millis(4))).unwrap_err(),
        Error::ShortLeaderLeaseTimeout
    );
    assert_eq!(
        finalized(b.set_leader_lease_timeout(Duration::from_millis(1001))).unwrap_err(),
        Error::LeaderLeaseTimeoutLargerThanHeartbeatTimeout
    );
    assert_eq!(
        finalized(b.set_election_timeout(Duration::from_millis(999))).unwrap_err(),
        Error::ElectionTimeoutSmallerThanHeartbeatTimeout
    );
    // the local id is checked before the timeouts
    assert_eq!(
        finalized(b.set_local_id(0).set_heartbeat_timeout(Duration::from_millis(1))).unwrap_err(),
        Error::EmptyLocalID
    );
}

#[test]
fn config_builder_defaults() {
    let b = ConfigBuilder::default();
    assert_eq!(b.local_id, None);
    assert_eq!(b.heartbeat_timeout, Some(Duration::from_millis(1000)));
    assert_eq!(b.snapshot_interval, Some(Duration::from_secs(120)));
    assert_eq!(b.max_append_entries, Some(64));
    let c = finalized(b.set_local_id(1)).unwrap();
    assert_eq!(c.protocol_version, ProtocolVersion::ProtocolVersionMax);
    assert_eq!(c.trailing_logs, 10240);
    assert_eq!(c.leader_lease_timeout, Duration::from_millis(500));
}

#[test]
fn reloadable_config_apply_replaces_the_three_settings() {
    let config = finalized(ConfigBuilder::default().set_local_id(5)).unwrap();
    let rc = ReloadableConfig { trailing_logs: 1, snapshot_interval: Duration::from_millis(7), snapshot_threshold: 2 };
    assert!(!(rc == config));
    let applied = rc.apply(config.clone());
    assert_eq!(applied.trailing_logs, 1);
    assert_eq!(applied.snapshot_interval, Duration::from_millis(7));
    assert_eq!(applied.snapshot_threshold, 2);
    assert_eq!(applied.local_id, 5);
    assert!(rc == applied);
}

#[test]
fn reloadable_config_apply_twice_is_apply_once() {
    let config = finalized(ConfigBuilder::default().set_local_id(9)).unwrap();
    let rc = ReloadableConfig { trailing_logs: 3, snapshot_interval: Duration::from_millis(40), snapshot_threshold: 4 };
    let once = rc.apply(config.clone());
    let twice = rc.apply(once.clone());
    assert_eq!(twice.trailing_logs, once.trailing_logs);
    assert_eq!(twice.snapshot_interval, once.snapshot_interval);
    assert_eq!(twice.snapshot_threshold, once.snapshot_threshold);
    assert_eq!(twice.local_id, 9);
    assert_eq!(twice.heartbeat_timeout, config.heartbeat_timeout);

    let own = ReloadableConfig::from_config(config.clone());
    let same = own.apply(config.clone());
    assert_eq!(same.trailing_logs, config.trailing_logs);
    assert_eq!(same.snapshot_interval, config.snapshot_interval);
    assert_eq!(same.snapshot_threshold, config.snapshot_threshold);
}
