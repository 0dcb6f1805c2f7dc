use raft::errors::Error;

#[test]
fn error_messages() {
    assert_eq!(Error::LogNotFound.message(), "log not found");
    assert_eq!(Error::NonVoter.message(), "need at least one voter in configuration");
    assert_eq!(Error::LargeMaxAppendEntries.message(), " max_append_entries is too large");
    assert_eq!(Error::NothingNewToSnapshot.message(), "othing new to snapshot");
    assert_eq!(
        Error::UnableToStoreLogs("disk full".to_string()).message(),
        "unable to store logs within log store, err: disk full"
    );
    assert_eq!(
        Error::DuplicateServerID(7).message(),
        "found duplicate server ID in configuration: 7"
    );
    assert_eq!(
        Error::DuplicateServerAddress("a:1".to_string()).message(),
        "found duplicate server address in configuration: a:1"
    );
    assert_eq!(
        Error::ConfigurationChanged { current_index: 2, prev_index: 1 }.message(),
        "configuration changed since 1 (latest is 2)"
    );
    assert_eq!(Error::FSMRestore("eof".to_string()).message(), "FSM restore IO error. From: eof");
}

#[test]
fn error_clone_keeps_the_error() {
    let e = Error::ConfigurationChanged { current_index: 4, prev_index: 3 };
    assert_eq!(e.clone(), e);
    let e = Error::DuplicateServerAddress("x".to_string());
    assert_eq!(e.clone(), e);
}

#[test]
fn error_from_invalid_utf8() {
    let e = String::from_utf8(vec![0xff, 0xfe]).unwrap_err();
    let err = Error::from(e);
    assert!(matches!(err, Error::FromUtf8Error(_)));
    assert!(err.message().starts_with("cannot convert UTF8 to String. From: "));
}
