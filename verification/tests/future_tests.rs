use raft::errors::Error;
use raft::future::{DeferError, Future};

#[test]
fn test_defer_error_future_success() {
    let mut de = DeferError::new();
    de.respond(None).unwrap();
    assert_eq!(Error::Nil, de.error().unwrap());
    assert_eq!(Error::Nil, de.error().unwrap());
}

#[test]
fn test_defer_error_future_error() {
    let want = Error::NonVoter;
    let mut de = DeferError::new();
    de.respond(Some(want)).unwrap();
    assert_eq!(Error::NonVoter, de.error().unwrap());
    assert_eq!(Error::NonVoter, de.error().unwrap());
}

#[test]
fn test_defer_error_future_concurrent() {
    let want = Some(Error::NonVoter);
    let mut de = DeferError::new();
    crossbeam::thread::scope(|s| {
        s.spawn(|_| {
            de.respond(want).unwrap();
        });
    })
    .unwrap();

    assert_eq!(Error::NonVoter, de.error().unwrap());
}

#[test]
fn defer_error_only_the_first_response_counts() {
    let mut de = DeferError::new();
    de.respond(Some(Error::LeadershipLost)).unwrap();
    de.respond(Some(Error::NonVoter)).unwrap();
    de.respond(None).unwrap();
    assert_eq!(Error::LeadershipLost, de.error().unwrap());
}

#[test]
fn defer_error_settle_keeps_what_arrived() {
    let mut de = DeferError::new();
    assert_eq!(de.settle(Ok(Some(Error::LeadershipLost))), Ok(Error::LeadershipLost));
    // the kept outcome is what every later wait returns
    assert_eq!(de.error(), Ok(Error::LeadershipLost));

    let mut de = DeferError::new();
    assert_eq!(de.settle(Ok(None)), Ok(Error::RaftShutdown));
    assert_eq!(de.error(), Ok(Error::RaftShutdown));

    let mut de = DeferError::new();
    assert_eq!(de.settle(Err(crossbeam::channel::RecvError)), Err(crossbeam::channel::RecvError));
    // nothing was kept: a response still reaches the waiting side
    de.respond(Some(Error::NotLeader)).unwrap();
    assert_eq!(de.error(), Ok(Error::NotLeader));
}

#[test]
fn defer_error_second_response_is_ignored() {
    let mut de = DeferError::new();
    de.respond(Some(Error::NonVoter)).unwrap();
    assert_eq!(de.respond(Some(Error::Leader)), Ok(()));
    assert_eq!(de.respond(None), Ok(()));
    assert_eq!(de.error(), Ok(Error::NonVoter));
}
