use grafana_prowl_notifier::consts::{
    create_firing_alert, create_firing_alert_with_prefix, create_resolved_alert,
    create_resolved_alert_with_prefix,
};
use grafana_prowl_notifier::grafana::{Alert, Annotation, Label, Priority};

fn firing_with_prefix(prefix: &str) -> Alert {
    Alert {
        status: b"firing".to_vec(),
        labels: Label {
            alertname: format!("{prefix}Alert Name").into_bytes(),
        },
        annotations: Annotation {
            summary: b"Annotation Summary".to_vec(),
        },
        generator_url: b"http://something/this".to_vec(),
        fingerprint: b"581dd91e73c77248".to_vec(),
    }
}

fn resolved_with_prefix(prefix: &str) -> Alert {
    let mut alert = firing_with_prefix(prefix);
    alert.status = b"resolved".to_vec();
    alert
}

#[test]
fn no_prefix() {
    let firing = firing_with_prefix("");
    let resolved = resolved_with_prefix("");
    assert_eq!(firing.get_priority(), Priority::Normal);
    assert_eq!(resolved.get_priority(), Priority::VeryLow);
}

#[test]
fn critical_prefix() {
    let firing = firing_with_prefix("[critical] ");
    let resolved = resolved_with_prefix("[critical] ");
    assert_eq!(firing.get_priority(), Priority::Emergency);
    assert_eq!(resolved.get_priority(), Priority::VeryLow);

    let firing = firing_with_prefix("[CRIT] ");
    let resolved = resolved_with_prefix("[CRIT] ");
    assert_eq!(firing.get_priority(), Priority::Emergency);
    assert_eq!(resolved.get_priority(), Priority::VeryLow);
}

#[test]
fn high_prefix() {
    let firing = firing_with_prefix("[high] ");
    let resolved = resolved_with_prefix("[high] ");
    assert_eq!(firing.get_priority(), Priority::High);
    assert_eq!(resolved.get_priority(), Priority::VeryLow);

    let firing = firing_with_prefix("[HIGH] ");
    let resolved = resolved_with_prefix("[HIGH] ");
    assert_eq!(firing.get_priority(), Priority::High);
    assert_eq!(resolved.get_priority(), Priority::VeryLow);
}

#[test]
fn sample_payloads_carry_the_prefix() {
    let firing = create_firing_alert();
    assert_eq!(firing, create_firing_alert_with_prefix(b""));
    let firing_text = String::from_utf8(firing).expect("payload should be text");
    assert!(firing_text.contains("\"status\": \"firing\""));
    assert!(firing_text.contains("\"alertname\": \"Alert Name\""));

    let resolved = create_resolved_alert();
    assert_eq!(resolved, create_resolved_alert_with_prefix(b""));
    let resolved_text = String::from_utf8(resolved).expect("payload should be text");
    assert!(resolved_text.contains("\"status\": \"resolved\""));

    let prefixed = create_firing_alert_with_prefix(b"[high] ");
    let prefixed_text = String::from_utf8(prefixed).expect("payload should be text");
    assert!(prefixed_text.contains("\"alertname\": \"[high] Alert Name\""));
}
