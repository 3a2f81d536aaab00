use grafana_prowl_notifier::fingerprint::Fingerprints;
use grafana_prowl_notifier::grafana::{Alert, Annotation, Label, Priority};

fn make_alert(status: &str, name: &str) -> Alert {
    Alert {
        status: status.as_bytes().to_vec(),
        labels: Label {
            alertname: name.as_bytes().to_vec(),
        },
        annotations: Annotation {
            summary: b"Annotation Summary".to_vec(),
        },
        generator_url: b"http://something/this".to_vec(),
        fingerprint: b"581dd91e73c77248".to_vec(),
    }
}

#[test]
fn test_changed() {
    let mut fingerprints = Fingerprints::new();
    let alert = make_alert("firing", "Alert Name");
    let resolved = make_alert("resolved", "Alert Name");

    fingerprints.update_last_alerted(&alert, 100);
    assert_eq!(false, fingerprints.changed(&alert));
    assert_eq!(true, fingerprints.changed(&resolved));

    fingerprints.update_last_alerted(&resolved, 101);
    assert_eq!(true, fingerprints.changed(&alert));
    assert_eq!(false, fingerprints.changed(&resolved));
}

#[test]
fn test_resolved_first() {
    let mut fingerprints = Fingerprints::new();
    let resolved = make_alert("resolved", "Alert Name");

    fingerprints.update_last_seen(&resolved, 10);
    fingerprints.update_last_seen(&resolved, 11);
    fingerprints.update_last_alerted(&resolved, 12);
    fingerprints.update_last_seen(&resolved, 13);
}

#[test]
fn unseen_fingerprint_is_always_changed() {
    let fingerprints = Fingerprints::new();
    assert!(fingerprints.changed(&make_alert("firing", "Alert Name")));
    assert!(fingerprints.changed(&make_alert("resolved", "Alert Name")));
    assert!(fingerprints.changed(&make_alert("odd-status", "Alert Name")));
}

#[test]
fn flapping_status_renotifies_every_transition() {
    let mut fingerprints = Fingerprints::new();
    let firing = make_alert("firing", "Alert Name");
    let resolved = make_alert("resolved", "Alert Name");

    assert!(fingerprints.changed(&firing));
    fingerprints.update_last_alerted(&firing, 1);
    assert!(fingerprints.changed(&resolved));
    fingerprints.update_last_alerted(&resolved, 2);
    assert!(fingerprints.changed(&firing));
    fingerprints.update_last_alerted(&firing, 3);
    assert!(!fingerprints.changed(&firing));
}

#[test]
fn first_alerted_set_on_alert_and_cleared_on_resolve() {
    let mut fingerprints = Fingerprints::new();
    let firing = make_alert("firing", "Alert Name");
    let resolved = make_alert("resolved", "Alert Name");

    fingerprints.update_last_alerted(&firing, 50);
    let record = fingerprints.get(&firing).expect("record should exist");
    assert_eq!(record.first_alerted(), Some(50));
    assert_eq!(record.last_alerted(), 50);
    assert_eq!(record.last_seen(), 50);

    // An unchanged firing observation preserves first_alerted and
    // last_alerted, and only refreshes last_seen.
    fingerprints.update_last_seen(&firing, 60);
    let record = fingerprints.get(&firing).expect("record should exist");
    assert_eq!(record.first_alerted(), Some(50));
    assert_eq!(record.last_alerted(), 50);
    assert_eq!(record.last_seen(), 60);

    // Resolving clears first_alerted.
    fingerprints.update_last_alerted(&resolved, 70);
    let record = fingerprints.get(&resolved).expect("record should exist");
    assert_eq!(record.first_alerted(), None);
    assert_eq!(record.last_status().as_slice(), b"resolved");

    // Alerting again after a resolution sets a fresh first_alerted.
    fingerprints.update_last_alerted(&firing, 80);
    let record = fingerprints.get(&firing).expect("record should exist");
    assert_eq!(record.first_alerted(), Some(80));
}

#[test]
fn update_refreshes_display_fields() {
    let mut fingerprints = Fingerprints::new();
    let firing = make_alert("firing", "Alert Name");
    fingerprints.update_last_alerted(&firing, 5);
    let record = fingerprints.get(&firing).expect("record should exist");
    assert_eq!(record.name().clone(), Some(b"Alert Name".to_vec()));
    assert_eq!(record.priority(), Some(Priority::Normal));
    assert_eq!(record.summary().clone(), Some(b"Annotation Summary".to_vec()));
    assert_eq!(record.fingerprint().as_slice(), b"581dd91e73c77248");
    assert_eq!(record.last_status().as_slice(), b"firing");
}

#[test]
fn reminder_only_moves_last_alerted() {
    let mut fingerprints = Fingerprints::new();
    let firing = make_alert("firing", "Alert Name");
    fingerprints.update_last_alerted(&firing, 5);
    let snapshot = fingerprints.get(&firing).expect("record should exist").duplicate();
    fingerprints.update_last_alerted_from_previous_event(&snapshot, 99);
    let record = fingerprints.get(&firing).expect("record should exist");
    assert_eq!(record.last_alerted(), 99);
    assert_eq!(record.last_seen(), 5);
    assert_eq!(record.first_alerted(), Some(5));
    assert_eq!(record.last_status().as_slice(), b"firing");
}
