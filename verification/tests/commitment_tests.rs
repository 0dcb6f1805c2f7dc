use raft::commitment::{commit_channel, Commitment};
use raft::config::{Configuration, Server, ServerSuffrage};

fn make_configuration(voters: Vec<u64>) -> Configuration {
    let mut servers = Vec::<Server>::new();
    for v in voters {
        servers.push(Server { suffrage: ServerSuffrage::Voter, id: v, address: format!("{}addr", v) });
    }
    Configuration::with_servers(servers)
}

fn voters(n: u64) -> Configuration {
    let servers = vec![1u64, 2, 3, 4, 5, 6, 7];
    if n > 7 {
        panic!("only up to 7 servers implemented")
    }
    make_configuration(servers.into_iter().filter(|val| *val <= n).collect::<Vec<u64>>())
}

/// Takes one commit notification off the channel; fails when there is none.
fn expect_notify(c: &mut Commitment) {
    assert!(c.commit_rx_ch().try_recv().is_ok(), "expected commit notify");
}

/// Takes every pending commit notification off the channel and counts them.
fn drain_notifications(c: &mut Commitment) -> usize {
    let mut n = 0;
    while c.commit_rx_ch().try_recv().is_ok() {
        n += 1;
    }
    n
}

fn commitment(cfg: Configuration, start_index: u64) -> Commitment {
    let (commit_tx, commit_rx) = commit_channel();
    Commitment::new(commit_tx, commit_rx, cfg, start_index)
}

#[test]
fn test_commitment_set_voters() {
    let mut c = commitment(make_configuration(vec![100, 101, 102]), 0);
    c.match_server(100, 10);
    c.match_server(101, 20);
    c.match_server(102, 30);
    assert_eq!(c.get_commit_index(), 20);

    // commit_index: 20
    expect_notify(&mut c);

    c.set_configuration(make_configuration(vec![102, 103, 104]));
    // 102: 30, 103: 0, 104: 0
    c.match_server(104, 40);
    let idx = c.get_commit_index();
    assert_eq!(idx, 30, "expected 30 entries committed, found {}", idx);
    expect_notify(&mut c);
}

#[test]
fn test_commitment_match_max() {
    let mut c = commitment(voters(5), 4);
    c.match_server(1, 8);
    c.match_server(2, 8);
    c.match_server(2, 1);
    c.match_server(3, 8);
    let idx = c.get_commit_index();
    assert_eq!(idx, 8, "calling match with an earlier index should be ignored")
}

#[test]
fn test_commitment_match_nonvoting() {
    let mut c = commitment(voters(5), 4);
    c.match_server(1, 8);
    c.match_server(2, 8);
    c.match_server(3, 8);
    assert_eq!(c.get_commit_index(), 8);
    expect_notify(&mut c);

    c.match_server(90, 10);
    c.match_server(91, 10);
    c.match_server(92, 10);
    let idx = c.get_commit_index();
    assert_eq!(idx, 8, "non-voting servers shouldn't be able to commit");
}

#[test]
fn test_commitment_recalculate() {
    let mut c = commitment(voters(5), 0);
    c.match_server(1, 30);
    c.match_server(2, 20);
    let idx = c.get_commit_index();
    assert_eq!(idx, 0, "shouldn't commit after two of five servers");

    c.match_server(3, 10);
    let idx = c.get_commit_index();
    assert_eq!(idx, 10, "expected 10 entries committed, found {}", idx);
    expect_notify(&mut c);

    c.match_server(4, 15);
    let idx = c.get_commit_index();
    assert_eq!(idx, 15, "expected 15 entries committed, found {}", idx);
    expect_notify(&mut c);

    c.set_configuration(voters(3));
    // 1:30, 2: 20, 3: 10
    let idx = c.get_commit_index();
    assert_eq!(idx, 20, "expected 20 entries committed, found {}", idx);
    expect_notify(&mut c);

    c.set_configuration(voters(4));
    // 1:30, 2: 20, 3: 10, 4: 0
    c.match_server(2, 25);
    let idx = c.get_commit_index();
    assert_eq!(idx, 20, "expected 20 entries committed, found {}", idx);

    c.match_server(4, 23);
    let idx = c.get_commit_index();
    assert_eq!(idx, 23, "expected 23 entries committed, found {}", idx);
    expect_notify(&mut c);
}

#[test]
fn test_commitment_recalculate_start_index() {
    let mut c = commitment(voters(5), 4);
    c.match_server(1, 3);
    c.match_server(2, 3);
    c.match_server(3, 3);
    let idx = c.get_commit_index();
    assert_eq!(idx, 0, "can't commit until startIndex is replicated to a quorum");

    c.match_server(1, 4);
    c.match_server(2, 4);
    c.match_server(3, 4);
    let idx = c.get_commit_index();
    assert_eq!(idx, 4, "should be able to commit startIndex once replicated to a quorum");
    expect_notify(&mut c);
}

#[test]
fn test_commitment_no_voter_sanity() {
    let mut c = commitment(make_configuration(vec![]), 4);
    c.match_server(1, 10);
    c.set_configuration(make_configuration(vec![]));
    c.match_server(1, 10);
    let idx = c.get_commit_index();
    assert_eq!(idx, 0, "no voting servers: shouldn't be able to commit");

    // add a voter so we can commit something and then remove it
    c.set_configuration(voters(1));
    c.match_server(1, 10);
    let idx = c.get_commit_index();
    assert_eq!(idx, 10, "expected 10 entries committed, found {}", idx);
    expect_notify(&mut c);

    c.set_configuration(make_configuration(vec![]));
    c.match_server(1, 20);
    let idx = c.get_commit_index();
    assert_eq!(idx, 10, "expected 10 entries committed, found {}", idx);
}

#[test]
fn test_commitment_single_voter() {
    let mut c = commitment(voters(1), 4);
    c.match_server(1, 10);
    let idx = c.get_commit_index();
    assert_eq!(idx, 10, "expected 10 entries committed, found {}", idx);
    expect_notify(&mut c);

    c.set_configuration(voters(1));
    c.match_server(1, 12);
    let idx = c.get_commit_index();
    assert_eq!(idx, 12, "expected 12 entries committed, found {}", idx);
    expect_notify(&mut c);
}

#[test]
fn commitment_even_quorum_needs_more_than_half() {
    // with four voters, two matching servers are not a majority
    let mut c = commitment(voters(4), 0);
    c.match_server(1, 7);
    c.match_server(2, 7);
    assert_eq!(c.get_commit_index(), 0);
    c.match_server(3, 5);
    assert_eq!(c.get_commit_index(), 5);
}

#[test]
fn commitment_duplicate_voter_entries_count_once() {
    let cfg = Configuration::with_servers(vec![
        Server { suffrage: ServerSuffrage::Voter, id: 1, address: "a".to_string() },
        Server { suffrage: ServerSuffrage::Voter, id: 1, address: "b".to_string() },
        Server { suffrage: ServerSuffrage::Nonvoter, id: 2, address: "c".to_string() },
    ]);
    let mut c = commitment(cfg, 0);
    c.match_server(2, 9);
    assert_eq!(c.get_commit_index(), 0);
    c.match_server(1, 9);
    assert_eq!(c.get_commit_index(), 9);
}

#[test]
fn commitment_notifies_once_per_advance() {
    let mut c = commitment(voters(3), 0);
    c.match_server(1, 5);
    assert_eq!(drain_notifications(&mut c), 0);
    c.match_server(2, 5);
    assert_eq!(c.get_commit_index(), 5);
    assert_eq!(drain_notifications(&mut c), 1);
    // a match that does not move the quorum sends nothing
    c.match_server(1, 9);
    assert_eq!(c.get_commit_index(), 5);
    assert_eq!(drain_notifications(&mut c), 0);
    c.match_server(3, 7);
    assert_eq!(c.get_commit_index(), 7);
    assert_eq!(drain_notifications(&mut c), 1);
    // shrinking the configuration can advance the index too
    c.set_configuration(voters(1));
    assert_eq!(c.get_commit_index(), 9);
    assert_eq!(drain_notifications(&mut c), 1);
}
