use grafana_prowl_notifier::fingerprint::{Fingerprints, PreviousEvent};
use grafana_prowl_notifier::grafana::Priority;

fn sample_record() -> PreviousEvent {
    PreviousEvent {
        last_seen: 5,
        first_alerted: None,
        last_alerted: 7,
        last_status: b"firing".to_vec(),
        fingerprint: b"f1".to_vec(),
        priority: Some(Priority::Normal),
        name: Some(b"web".to_vec()),
        summary: None,
    }
}

#[test]
fn serialize_emits_the_canonical_form() {
    let mut store = Fingerprints::new();
    store.insert(sample_record());
    let bytes = store.serialize();
    let mut expected = String::new();
    expected.push_str("{\"data\":{\"f1\":{\"last_seen\":5,\"first_alerted\":null,");
    expected.push_str("\"last_alerted\":7,\"last_status\":\"firing\",\"fingerprint\":\"f1\",");
    expected.push_str("\"priority\":\"Normal\",\"name\":\"web\",\"summary\":null}}}");
    assert_eq!(bytes, expected.as_bytes().to_vec());
}

#[test]
fn serialize_empty_store() {
    let store = Fingerprints::new();
    assert_eq!(store.serialize(), b"{\"data\":{}}".to_vec());
    let reloaded = Fingerprints::load_or_default(Some(&store.serialize()));
    assert_eq!(reloaded.records().len(), 0);
}

fn assert_same_record(a: &PreviousEvent, b: &PreviousEvent) {
    assert_eq!(a.last_seen(), b.last_seen());
    assert_eq!(a.first_alerted(), b.first_alerted());
    assert_eq!(a.last_alerted(), b.last_alerted());
    assert_eq!(a.last_status(), b.last_status());
    assert_eq!(a.fingerprint(), b.fingerprint());
    assert_eq!(a.priority(), b.priority());
    assert_eq!(a.name(), b.name());
    assert_eq!(a.summary(), b.summary());
}

#[test]
fn three_records_round_trip() {
    let mut store = Fingerprints::new();
    store.insert(sample_record());
    store.insert(PreviousEvent {
        last_seen: -3,
        first_alerted: Some(123456789),
        last_alerted: 99,
        last_status: b"resolved".to_vec(),
        fingerprint: b"needs \"escaping\" \\ here".to_vec(),
        priority: Some(Priority::Emergency),
        name: None,
        summary: Some(b"line one\nline two\ttabbed".to_vec()),
    });
    store.insert(PreviousEvent {
        last_seen: 0,
        first_alerted: Some(0),
        last_alerted: 0,
        last_status: b"odd status".to_vec(),
        fingerprint: b"f3".to_vec(),
        priority: None,
        name: Some(b"caf\xc3\xa9".to_vec()),
        summary: Some(vec![]),
    });

    let bytes = store.serialize();
    let reloaded = Fingerprints::load_or_default(Some(&bytes));
    assert_eq!(reloaded.records().len(), store.records().len());
    for (a, b) in store.records().iter().zip(reloaded.records().iter()) {
        assert_same_record(a, b);
    }
}

#[test]
fn serialized_store_is_valid_json() {
    let mut store = Fingerprints::new();
    store.insert(sample_record());
    let bytes = store.serialize();
    let text = String::from_utf8(bytes).expect("serialized store should be text");
    let value: serde_json::Value =
        serde_json::from_str(&text).expect("serialized store should be JSON");
    assert_eq!(value["data"]["f1"]["last_status"], "firing");
    assert_eq!(value["data"]["f1"]["last_seen"], 5);
    assert_eq!(value["data"]["f1"]["priority"], "Normal");
}

#[test]
fn corrupt_contents_load_as_empty() {
    let reloaded = Fingerprints::load_or_default(Some(&b"{\"data\":".to_vec()));
    assert_eq!(reloaded.records().len(), 0);
    let reloaded = Fingerprints::load_or_default(Some(&b"nonsense".to_vec()));
    assert_eq!(reloaded.records().len(), 0);
    let reloaded = Fingerprints::load_or_default(None);
    assert_eq!(reloaded.records().len(), 0);
}

#[test]
fn escape_shortcuts_are_accepted_on_load() {
    let mut text = String::new();
    text.push_str("{\"data\":{\"f\\t1\":{\"last_seen\":1,\"first_alerted\":null,");
    text.push_str("\"last_alerted\":2,\"last_status\":\"fi\\\"ring\\\"\",\"fingerprint\":\"f\\u00091\",");
    text.push_str("\"priority\":null,\"name\":null,\"summary\":\"a\\/b\\u0041\"}}}");
    let reloaded = Fingerprints::load_or_default(Some(&text.as_bytes().to_vec()));
    assert_eq!(reloaded.records().len(), 1);
    let record = &reloaded.records()[0];
    assert_eq!(record.fingerprint().as_slice(), b"f\t1");
    assert_eq!(record.last_status().as_slice(), b"fi\"ring\"");
    assert_eq!(record.summary().clone(), Some(b"a/bA".to_vec()));
}

#[test]
fn migrate_v1_rewrites_the_legacy_mapping() {
    let legacy = b"{\"fp1\":\"firing\",\"fp2\":\"resolved\"}".to_vec();
    let rewritten = Fingerprints::migrate_v1(&legacy, 777).expect("legacy mapping should migrate");
    let store = Fingerprints::load_or_default(Some(&rewritten));
    assert_eq!(store.records().len(), 2);
    let first = &store.records()[0];
    assert_eq!(first.fingerprint().as_slice(), b"fp1");
    assert_eq!(first.last_status().as_slice(), b"firing");
    assert_eq!(first.last_seen(), 777);
    assert_eq!(first.last_alerted(), 777);
    assert_eq!(first.first_alerted(), None);
    assert_eq!(first.priority(), None);
    assert_eq!(first.name(), &None);
    let second = &store.records()[1];
    assert_eq!(second.fingerprint().as_slice(), b"fp2");
    assert_eq!(second.last_status().as_slice(), b"resolved");
}

#[test]
fn migrate_v1_rejects_the_current_schema() {
    let mut store = Fingerprints::new();
    store.insert(sample_record());
    let current = store.serialize();
    assert!(Fingerprints::migrate_v1(&current, 777).is_err());
    assert!(Fingerprints::migrate_v1(&b"nonsense".to_vec(), 777).is_err());
}

#[test]
fn migrate_v1_accepts_an_empty_mapping() {
    let rewritten =
        Fingerprints::migrate_v1(&b"{}".to_vec(), 777).expect("empty mapping should migrate");
    assert_eq!(rewritten, b"{\"data\":{}}".to_vec());
}
