use chrono::Utc;
use raft::errors::Error;
use raft::log::{oldest_log, oldest_log_age_millis, oldest_log_next, Log, LogCache, LogStore, LogType, OldestLogStep};
use raft::mem_store::MemStore;
use raft::stable::StableStore;
use std::sync::Arc;

fn entry(index: u64, term: u64) -> Arc<Log> {
    Arc::new(Log {
        index,
        term,
        typ: LogType::Command,
        data: vec![],
        extensions: vec![],
        append_at: Utc::now().naive_utc(),
    })
}

#[test]
fn test_oldest_log() {
    struct Case {
        name: String,
        logs: Vec<Arc<Log>>,
        want_idx: u64,
        want_err: bool,
    }

    let cases = vec![
        Case { name: "empty logs".to_string(), logs: vec![], want_idx: 0, want_err: true },
        Case {
            name: "simple case".to_string(),
            logs: vec![entry(1234, 1), entry(1235, 1), entry(1236, 2)],
            want_idx: 1234,
            want_err: false,
        },
    ];

    for case in cases {
        let mut s = MemStore::new();
        let st = s.store_logs(case.logs);
        assert_eq!((), st.unwrap());

        match oldest_log(s) {
            Ok(got) => {
                assert!(!case.want_err, "{}: wanted error but got nil", case.name);
                assert_eq!(got.index, case.want_idx);
            }
            Err(e) => {
                assert!(case.want_err, "{}: wanted no error got {}", case.name, e.message());
            }
        }
    }
}

#[test]
fn test_log_cache() {
    let mut store = MemStore::new();
    for i in 0..32 {
        let _ = store.store_log(entry(i + 1, 0));
    }

    let mut c = LogCache::<MemStore>::new(store, 20);
    // Check the indexes
    let idx = c.first_index().unwrap();
    assert_eq!(idx, 1, "bad: {}", idx);

    let idx = c.last_index().unwrap();
    assert_eq!(idx, 32, "bad: {}", idx);

    // Try get log with a miss
    let l = c.get_log(1).unwrap();
    assert_eq!(l.index, 1, "bad: {}", l.index);

    // Store Logs
    let l1 = {
        let mut l = Log::default();
        l.index = 33;
        Arc::new(l)
    };
    let l2 = {
        let mut l = Log::default();
        l.index = 34;
        Arc::new(l)
    };

    let rst = c.store_logs(vec![l1, l2]).unwrap();
    assert_eq!(rst, ());
    let idx = c.last_index().unwrap();
    assert_eq!(idx, 34, "bad: {}", idx);

    // Should be in the ring buffer
    let l = c.get_log(33).unwrap();
    assert_eq!(l.index, 33);
    let l = c.get_log(34).unwrap();
    assert_eq!(l.index, 34);

    // Purge the ring buffer
    let x = c.delete_range(33, 34).unwrap();
    assert_eq!(x, ());

    // Should not be in the ring buffer
    let l = c.get_log(33).unwrap_err();
    assert_eq!(l, Error::LogNotFound);
    let l = c.get_log(34).unwrap_err();
    assert_eq!(l, Error::LogNotFound);
}

#[test]
fn log_cache_slot_holding_another_index_defers_to_the_store() {
    let mut store = MemStore::new();
    store.store_log(entry(7, 1)).unwrap();
    store.store_log(entry(9, 1)).unwrap();
    let mut c = LogCache::new(store, 4);
    c.store_logs(vec![entry(5, 2)]).unwrap();
    // index 9 falls in slot 1, which holds entry 5: the store answers
    assert_eq!(c.get_log(9).unwrap().index, 9);
    assert_eq!(c.get_log(9).unwrap().term, 1);
    // index 13 falls in the same slot and the store has no entry there
    assert_eq!(c.get_log(13).unwrap_err(), Error::LogNotFound);
    // the cached entry answers for its own index
    assert_eq!(c.get_log(5).unwrap().term, 2);
    // store_log bypasses the cache
    c.store_log(entry(6, 2)).unwrap();
    assert_eq!(c.get_log(6).unwrap().index, 6);
    assert_eq!(c.get_log(7).unwrap().index, 7);
}

#[test]
fn log_cache_delete_range_reaches_the_store() {
    let mut store = MemStore::new();
    for i in 1..=8 {
        store.store_log(entry(i, 1)).unwrap();
    }
    let mut c = LogCache::new(store, 4);
    c.store_logs(vec![entry(9, 1)]).unwrap();
    assert_eq!(c.delete_range(1, 3), Ok(()));
    assert_eq!(c.get_log(2).unwrap_err(), Error::LogNotFound);
    assert_eq!(c.first_index().unwrap(), 4);
    // the cache was emptied, the store still holds 9
    assert_eq!(c.get_log(9).unwrap().index, 9);
}

#[test]
fn test_log_store() {
    let mut ms = MemStore::new();

    assert_eq!(ms.first_index().unwrap(), 0);
    assert_eq!(ms.last_index().unwrap(), 0);

    ms.store_log(Arc::new(Log::new(0, 0, LogType::Command))).unwrap();
    ms.store_logs(vec![
        Arc::new(Log::new(1, 0, LogType::Command)),
        Arc::new(Log::new(2, 0, LogType::Command)),
        Arc::new(Log::new(3, 0, LogType::Command)),
    ])
    .unwrap();

    let l = ms.get_log(1).unwrap();
    assert_eq!(l.index, 1);

    ms.delete_range(0, 2).unwrap();

    let not_found = ms.get_log(1);
    assert_eq!(Error::LogNotFound, not_found.unwrap_err());

    ms.set("abc".as_bytes().to_vec(), "val".as_bytes().to_vec()).unwrap();
    ms.set_u64("u64".as_bytes().to_vec(), 69).unwrap();

    let g = ms.get("abc".as_bytes().to_vec()).unwrap();
    assert_eq!(g, "val".as_bytes().to_vec());

    let gu64 = ms.get_u64("u64".as_bytes().to_vec()).unwrap();
    assert_eq!(gu64, 69);
}

#[test]
fn mem_store_indexes_follow_writes_and_deletes() {
    let mut ms = MemStore::new();
    ms.store_logs(vec![entry(5, 1), entry(3, 1), entry(8, 2)]).unwrap();
    // the first entry written sets the low index
    assert_eq!(ms.first_index().unwrap(), 5);
    assert_eq!(ms.last_index().unwrap(), 8);
    // deleting everything resets both indexes
    ms.delete_range(1, 8).unwrap();
    assert_eq!(ms.first_index().unwrap(), 0);
    assert_eq!(ms.last_index().unwrap(), 0);
    assert_eq!(ms.get_log(5).unwrap_err(), Error::LogNotFound);
}

#[test]
fn mem_store_kv_overwrite_and_missing_keys() {
    let mut ms = MemStore::new();
    ms.set(b"k".to_vec(), b"one".to_vec()).unwrap();
    ms.set(b"k".to_vec(), b"two".to_vec()).unwrap();
    assert_eq!(ms.get(b"k".to_vec()).unwrap(), b"two".to_vec());
    assert_eq!(ms.get(b"missing".to_vec()).unwrap(), Vec::<u8>::new());
    assert_eq!(ms.get_u64(b"missing".to_vec()).unwrap(), 0);
    ms.set_u64(b"n".to_vec(), 1).unwrap();
    ms.set_u64(b"n".to_vec(), 2).unwrap();
    assert_eq!(ms.get_u64(b"n".to_vec()).unwrap(), 2);
    match ms.set(vec![0xff, 0xfe], b"x".to_vec()) {
        Err(Error::FromUtf8Error(_)) => {}
        _ => panic!("invalid UTF-8 keys are refused"),
    }
    match ms.get_u64(vec![0xc3]) {
        Err(Error::FromUtf8Error(_)) => {}
        _ => panic!("invalid UTF-8 keys are refused"),
    }
}

#[test]
fn oldest_log_after_truncation() {
    let mut ms = MemStore::new();
    ms.store_logs(vec![entry(1, 1), entry(2, 1), entry(3, 1)]).unwrap();
    ms.delete_range(1, 1).unwrap();
    assert_eq!(oldest_log(ms).unwrap().index, 2);
}

#[test]
fn log_from_shared_copies_every_field() {
    let shared = Arc::new(Log::with_all(4, 2, LogType::Barrier, vec![1, 2], vec![3], Utc::now().naive_utc()));
    let copy = Log::from(shared.clone());
    assert_eq!(copy.index, 4);
    assert_eq!(copy.term, 2);
    assert_eq!(copy.typ, LogType::Barrier);
    assert_eq!(copy.data, vec![1, 2]);
    assert_eq!(copy.extensions, vec![3]);
    assert_eq!(copy.append_at, shared.append_at);
}

#[test]
fn oldest_log_age_metric() {
    let now = Utc::now().naive_utc();
    // no entry: age 0
    assert_eq!(oldest_log_age_millis(MemStore::new(), now), 0);
    // an entry stamped with the epoch: age 0
    let epoch = chrono::DateTime::from_timestamp(0, 0).unwrap().naive_utc();
    let mut ms = MemStore::new();
    ms.store_log(Arc::new(Log::with_all(1, 1, LogType::Noop, vec![], vec![], epoch))).unwrap();
    assert_eq!(oldest_log_age_millis(ms, now), 0);
    // an entry appended 1.5 s before now
    let earlier = now - chrono::TimeDelta::milliseconds(1500);
    let mut ms = MemStore::new();
    ms.store_log(Arc::new(Log::with_all(3, 1, LogType::Noop, vec![], vec![], earlier))).unwrap();
    ms.store_log(Arc::new(Log::with_all(4, 1, LogType::Noop, vec![], vec![], now))).unwrap();
    assert_eq!(oldest_log_age_millis(ms, now), 1500);
}

#[derive(Clone)]
struct FullStore;

impl LogStore for FullStore {
    fn spec_first_index(&self) -> Result<usize, Error> {
        Ok(0)
    }

    fn spec_last_index(&self) -> Result<usize, Error> {
        Ok(0)
    }

    fn spec_get_log(&self, _index: usize) -> Result<Arc<Log>, Error> {
        Err(Error::LogNotFound)
    }

    fn spec_can_delete_range(&self, _min: u64, _max: u64) -> bool {
        true
    }

    fn spec_well_formed(&self) -> bool {
        true
    }

    fn first_index(&self) -> Result<usize, Error> {
        Ok(0)
    }

    fn last_index(&self) -> Result<usize, Error> {
        Ok(0)
    }

    fn get_log(&self, _index: usize) -> Result<Arc<Log>, Error> {
        Err(Error::LogNotFound)
    }

    fn store_log(&mut self, _log: Arc<Log>) -> Result<(), Error> {
        Err(Error::NotFound)
    }

    fn store_logs(&mut self, _logs: Vec<Arc<Log>>) -> Result<(), Error> {
        Err(Error::NotFound)
    }

    fn delete_range(&mut self, _min: u64, _max: u64) -> Result<(), Error> {
        Ok(())
    }
}

#[test]
fn log_cache_reports_a_store_that_refuses_entries() {
    let mut c = LogCache::new(FullStore, 8);
    assert_eq!(
        c.store_logs(vec![entry(1, 1)]).unwrap_err(),
        Error::UnableToStoreLogs("not found".to_string())
    );
    // nothing was cached
    assert_eq!(c.get_log(1).unwrap_err(), Error::LogNotFound);
}

#[test]
fn log_cache_store_log_hands_the_entry_to_the_store() {
    let mut c = LogCache::new(MemStore::new(), 4);
    assert!(c.store_log(entry(5, 1)).is_ok());
    assert_eq!(c.get_log(5).unwrap().index, 5);
    assert_eq!(c.first_index().unwrap(), 5);
    assert_eq!(c.last_index().unwrap(), 5);

    // the store's own answer comes back unchanged
    let mut full = LogCache::new(FullStore, 4);
    assert_eq!(full.store_log(entry(1, 1)).unwrap_err(), Error::NotFound);
}

#[test]
fn oldest_log_retries_only_after_the_first_index_moved() {
    // a fresh first index is fetched
    assert!(matches!(oldest_log_next(Ok(5), 0, Error::LogNotFound), OldestLogStep::Fetch(5)));
    // a truncation moved the first index past the failed one: fetch again
    assert!(matches!(oldest_log_next(Ok(7), 5, Error::NotFound), OldestLogStep::Fetch(7)));
    // the first index did not move: the earlier failure is the answer
    assert!(matches!(
        oldest_log_next(Ok(5), 5, Error::NotFound),
        OldestLogStep::Done(Err(Error::NotFound))
    ));
    // an empty store has no oldest entry
    assert!(matches!(
        oldest_log_next(Ok(0), 0, Error::NotFound),
        OldestLogStep::Done(Err(Error::LogNotFound))
    ));
    // a failed read is reported
    assert!(matches!(
        oldest_log_next(Err(Error::RaftShutdown), 0, Error::LogNotFound),
        OldestLogStep::Done(Err(Error::RaftShutdown))
    ));
}

#[test]
fn log_cache_without_slots_still_reports_and_deletes() {
    let mut store = MemStore::new();
    for i in 1..=4 {
        store.store_log(entry(i, 1)).unwrap();
    }
    let mut c = LogCache::new(store, 0);
    assert_eq!(c.first_index().unwrap(), 1);
    assert_eq!(c.last_index().unwrap(), 4);
    assert_eq!(c.delete_range(1, 2), Ok(()));
    assert_eq!(c.first_index().unwrap(), 3);
}
