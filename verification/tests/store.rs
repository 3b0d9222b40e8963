use pytrace::argument::Binding;
use pytrace::codec::load_batch;
use pytrace::error::TraceError;
use pytrace::record::TraceRecord;
use pytrace::store::{Batch, TraceStore, MAX_PRESIZED};

fn record(name: &str) -> TraceRecord {
    let snapshot = vec![Binding { name: "n".to_string(), typ: Some("int".to_string()) }];
    TraceRecord::build(name, "/work/app.py", &snapshot, 1, 0, 0, &Some("int".to_string())).unwrap()
}

#[test]
fn new_store_is_empty_and_not_drained() {
    for store in [TraceStore::new(), TraceStore::with_capacity(10_000), TraceStore::default()] {
        assert_eq!(store.len(), 0);
        assert!(store.is_empty());
        assert!(!store.is_drained());
        assert!(store.records().is_empty());
    }
}

#[test]
fn any_capacity_hint_gives_the_empty_store() {
    assert_eq!(MAX_PRESIZED, 1_048_576);
    for hint in [0, 1, MAX_PRESIZED - 1, MAX_PRESIZED, MAX_PRESIZED + 1, usize::MAX / 2, usize::MAX] {
        let mut store = TraceStore::with_capacity(hint);
        assert_eq!(store.len(), 0);
        assert!(store.is_empty());
        assert!(!store.is_drained());
        // The hint bounds nothing: a store made with none still takes records.
        assert_eq!(store.append(record("first")), Ok(()));
        assert_eq!(store.append(record("second")), Ok(()));
        assert_eq!(store.len(), 2);
    }
}

#[test]
fn append_keeps_the_order_of_the_calls() {
    let mut store = TraceStore::new();
    assert_eq!(store.append(record("first")), Ok(()));
    assert_eq!(store.append(record("second")), Ok(()));
    assert_eq!(store.append(record("third")), Ok(()));
    assert_eq!(store.len(), 3);
    assert!(!store.is_empty());
    let names: Vec<&str> = store.records().iter().map(|r| r.name().as_str()).collect();
    assert_eq!(names, vec!["first", "second", "third"]);
}

#[test]
fn flush_emits_one_batch_with_every_record() {
    let mut store = TraceStore::with_capacity(2);
    store.append(record("first")).unwrap();
    store.append(record("second")).unwrap();
    let batch = store.flush_all().unwrap().unwrap();
    assert_eq!(batch.count, 2);
    assert_eq!(
        batch.text,
        "[{\"name\":\"first\",\"filename\":\"/work/app.py\",\"args\":[{\"name\":\"n\",\"type\":\"int\",\"kind\":\"Positional\"}],\"returns\":\"int\"},{\"name\":\"second\",\"filename\":\"/work/app.py\",\"args\":[{\"name\":\"n\",\"type\":\"int\",\"kind\":\"Positional\"}],\"returns\":\"int\"}]"
    );
    assert!(store.is_drained());
    assert_eq!(store.len(), 2);
}

#[test]
fn first_flush_always_emits() {
    for n in [0usize, 1, 2, 50] {
        let mut store = TraceStore::new();
        for i in 0..n {
            store.append(record(&format!("call_{}", i))).unwrap();
        }
        let first = store.flush_all();
        assert!(matches!(first, Ok(Some(_))));
        assert_eq!(first.unwrap().unwrap().count, n);
        assert!(store.is_drained());
    }
}

#[test]
fn flush_of_an_empty_store_emits_an_empty_batch() {
    let mut store = TraceStore::new();
    assert_eq!(store.flush_all(), Ok(Some(Batch { text: "[]".to_string(), count: 0 })));
    assert!(store.is_drained());
}

#[test]
fn ten_thousand_records_leave_in_one_batch_in_append_order() {
    let mut store = TraceStore::with_capacity(10_000);
    for i in 0..10_000 {
        assert_eq!(store.append(record(&format!("call_{}", i))), Ok(()));
    }
    let batch = store.flush_all().unwrap().unwrap();
    assert_eq!(batch.count, 10_000);
    let loaded = load_batch(&batch.text).unwrap();
    assert_eq!(loaded.len(), 10_000);
    for (i, r) in loaded.iter().enumerate() {
        assert_eq!(r.name(), &format!("call_{}", i));
    }
    assert_eq!(&loaded, store.records());
    // The sink gets exactly one batch.
    assert_eq!(store.flush_all(), Ok(None));
}

#[test]
fn second_flush_emits_nothing_and_changes_nothing() {
    let mut store = TraceStore::new();
    store.append(record("only")).unwrap();
    let first = store.flush_all().unwrap();
    assert!(first.is_some());
    let kept = store.records().clone();
    assert_eq!(store.flush_all(), Ok(None));
    assert_eq!(store.flush_all(), Ok(None));
    assert!(store.is_drained());
    assert_eq!(store.records(), &kept);
}

#[test]
fn drained_store_rejects_further_records() {
    let mut store = TraceStore::new();
    store.append(record("before")).unwrap();
    store.flush_all().unwrap();
    assert_eq!(store.append(record("after")), Err(TraceError::StoreDrained));
    assert_eq!(store.len(), 1);
    assert_eq!(store.records()[0].name(), "before");
}

#[test]
fn batch_document_lists_the_records() {
    let mut store = TraceStore::new();
    store.append(record("a")).unwrap();
    store.append(record("b")).unwrap();
    let doc = store.batch_document();
    assert_eq!(pytrace::codec::decode_batch(&doc).unwrap(), store.records().clone());
    assert!(!store.is_drained());
}

#[test]
fn conclude_flush_with_a_written_batch_drains_the_store() {
    let mut store = TraceStore::new();
    store.append(record("a")).unwrap();
    let r = store.conclude_flush(Ok("[...]".to_string()));
    assert_eq!(r, Ok(Some(Batch { text: "[...]".to_string(), count: 1 })));
    assert!(store.is_drained());
    assert_eq!(store.len(), 1);
}

#[test]
fn conclude_flush_with_a_failure_reports_it_and_keeps_the_store() {
    let mut store = TraceStore::new();
    store.append(record("a")).unwrap();
    assert_eq!(
        store.conclude_flush(Err(TraceError::Serialization)),
        Err(TraceError::Serialization)
    );
    assert!(!store.is_drained());
    assert_eq!(store.len(), 1);
    // Nothing was emitted, so a later flush still emits the batch.
    assert_eq!(store.flush_all().unwrap().unwrap().count, 1);
}

#[test]
fn conclude_flush_on_a_drained_store_is_idle() {
    let mut store = TraceStore::new();
    store.flush_all().unwrap();
    assert_eq!(store.conclude_flush(Ok("[]".to_string())), Ok(None));
    assert_eq!(store.conclude_flush(Err(TraceError::Serialization)), Ok(None));
    assert!(store.is_drained());
}
