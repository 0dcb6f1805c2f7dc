use raft::config::{ConfigurationChangeCommand, ProtocolVersion, ServerSuffrage, SnapshotVersion};
use raft::log::LogType;
use raft::state::StateType;

#[test]
fn suffrage_names_round_trip() {
    for v in [ServerSuffrage::Voter, ServerSuffrage::Nonvoter, ServerSuffrage::Staging] {
        assert_eq!(ServerSuffrage::parse(&v.name()), Some(v));
    }
    assert_eq!(ServerSuffrage::Nonvoter.name(), "Nonvoter");
    assert_eq!(ServerSuffrage::parse("voter"), None);
}

#[test]
fn change_command_names_round_trip() {
    for v in [
        ConfigurationChangeCommand::AddStaging,
        ConfigurationChangeCommand::AddNonvoter,
        ConfigurationChangeCommand::DemoteVoter,
        ConfigurationChangeCommand::RemoveServer,
        ConfigurationChangeCommand::Promote,
    ] {
        assert_eq!(ConfigurationChangeCommand::parse(&v.name()), Some(v));
    }
    assert_eq!(ConfigurationChangeCommand::DemoteVoter.name(), "DemoteVoter");
    assert_eq!(ConfigurationChangeCommand::parse("Remove"), None);
}

#[test]
fn version_names_round_trip() {
    for v in [ProtocolVersion::ProtocolVersionMin, ProtocolVersion::ProtocolVersionMax] {
        assert_eq!(ProtocolVersion::parse(&v.name()), Some(v));
    }
    for v in [SnapshotVersion::SnapshotVersionMin, SnapshotVersion::SnapshotVersionMax] {
        assert_eq!(SnapshotVersion::parse(&v.name()), Some(v));
    }
    assert_eq!(ProtocolVersion::ProtocolVersionMax.name(), "ProtocolVersionMax");
    assert_eq!(SnapshotVersion::parse(""), None);
}

#[test]
fn log_type_and_state_names_round_trip() {
    for v in [
        LogType::Command,
        LogType::Noop,
        LogType::AddPeerDeprecated,
        LogType::RemovePeerDeprecated,
        LogType::Barrier,
        LogType::Configuration,
    ] {
        assert_eq!(LogType::parse(&v.name()), Some(v));
    }
    assert_eq!(LogType::RemovePeerDeprecated.name(), "RemovePeerDeprecated");
    for v in [StateType::Follower, StateType::Leader, StateType::Candidate, StateType::Shutdown] {
        assert_eq!(StateType::parse(&v.to_string()), Some(v));
    }
    assert_eq!(StateType::parse("Stopped"), None);
}
