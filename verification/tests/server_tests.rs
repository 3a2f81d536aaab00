use grafana_prowl_notifier::config::{
    default_app_name, default_bind_host, default_retry_secs, default_wait_time, Config,
};
use grafana_prowl_notifier::errors::RequestError;
use grafana_prowl_notifier::fingerprint::Fingerprints;
use grafana_prowl_notifier::grafana::{Alert, Annotation, Label, Message, Priority};
use grafana_prowl_notifier::http::Request;
use grafana_prowl_notifier::notification::{
    delivery_step, CreationError, DeliveryAction, DeliveryEvent, DeliveryQueue, DeliveryState,
    Notification,
};
use grafana_prowl_notifier::schedule::{cron_next, interval_cutoff, realert_scan};
use grafana_prowl_notifier::server::{
    add_notification, display_fingerprints, framing_error_response, grafana_webook,
    not_found_response, route_for, Route,
};

fn test_config() -> Config {
    Config {
        linear_retry_secs: default_retry_secs(),
        wait_secs_between_notifications: default_wait_time(),
        app_name: default_app_name(),
        bind_host: default_bind_host(),
        alert_every_minutes: None,
        realert_cron: None,
        prowl_api_keys: vec![b"test-api-key".to_vec()],
        fingerprints_file: b"/dev/null".to_vec(),
        test_mode: true,
    }
}

fn make_alert(status: &str, prefix: &str) -> Alert {
    Alert {
        status: status.as_bytes().to_vec(),
        labels: Label {
            alertname: format!("{prefix}Alert Name").into_bytes(),
        },
        annotations: Annotation {
            summary: b"Annotation Summary".to_vec(),
        },
        generator_url: b"http://something/this".to_vec(),
        fingerprint: b"581dd91e73c77248".to_vec(),
    }
}

#[test]
fn test_add_notification() {
    let config = test_config();
    let alert = make_alert("firing", "");
    let mut queue = DeliveryQueue::new();

    add_notification(&alert, &config, &mut queue).expect("Failed to add notification");
    let notification = queue.recv().expect("Failed to get first result");
    assert!(queue.recv().is_none());

    assert_eq!(notification.priority(), &Some(Priority::Normal));
    assert_eq!(
        notification.url().clone(),
        Some(b"http://something/this".to_vec())
    );
    assert_eq!(notification.application().as_slice(), b"Grafana");
    assert_eq!(notification.event().as_slice(), "[🔥] Alert Name".as_bytes());
    assert_eq!(
        notification.description().as_slice(),
        b"firing: Annotation Summary"
    );
}

#[test]
fn test_high_alert() {
    let config = test_config();
    let firing_alert = make_alert("firing", "[high] ");
    let resolved_alert = make_alert("resolved", "[high] ");
    let mut queue = DeliveryQueue::new();

    add_notification(&firing_alert, &config, &mut queue).expect("Failed to add notification");
    add_notification(&resolved_alert, &config, &mut queue).expect("Failed to add notification");
    let firing_notification = queue.recv().expect("Failed to get first result");
    let resolved_notification = queue.recv().expect("Failed to get first result");
    assert!(queue.recv().is_none());

    assert_eq!(
        firing_notification.event().as_slice(),
        "[🔥] [high] Alert Name".as_bytes()
    );
    assert_eq!(firing_notification.priority(), &Some(Priority::High));
    assert_eq!(
        firing_notification.url().clone(),
        Some(b"http://something/this".to_vec())
    );
    assert_eq!(firing_notification.application().as_slice(), b"Grafana");
    assert_eq!(
        firing_notification.description().as_slice(),
        b"firing: Annotation Summary"
    );

    assert_eq!(
        resolved_notification.event().as_slice(),
        "[✅] [high] Alert Name".as_bytes()
    );
    assert_eq!(resolved_notification.priority(), &Some(Priority::VeryLow));
    assert_eq!(
        resolved_notification.url().clone(),
        Some(b"http://something/this".to_vec())
    );
    assert_eq!(resolved_notification.application().as_slice(), b"Grafana");
    assert_eq!(
        resolved_notification.description().as_slice(),
        b"resolved: Annotation Summary"
    );
}

#[test]
fn test_crit_alert() {
    let config = test_config();
    let firing_alert = make_alert("firing", "[critical] ");
    let resolved_alert = make_alert("resolved", "[critical] ");
    let mut queue = DeliveryQueue::new();

    add_notification(&firing_alert, &config, &mut queue).expect("Failed to add notification");
    add_notification(&resolved_alert, &config, &mut queue).expect("Failed to add notification");
    let firing_notification = queue.recv().expect("Failed to get first result");
    let resolved_notification = queue.recv().expect("Failed to get first result");
    assert!(queue.recv().is_none());

    assert_eq!(firing_notification.priority(), &Some(Priority::Emergency));
    assert_eq!(
        firing_notification.url().clone(),
        Some(b"http://something/this".to_vec())
    );
    assert_eq!(firing_notification.application().as_slice(), b"Grafana");
    assert_eq!(
        firing_notification.event().as_slice(),
        "[🔥] [critical] Alert Name".as_bytes()
    );
    assert_eq!(
        firing_notification.description().as_slice(),
        b"firing: Annotation Summary"
    );

    assert_eq!(resolved_notification.priority(), &Some(Priority::VeryLow));
    assert_eq!(
        resolved_notification.url().clone(),
        Some(b"http://something/this".to_vec())
    );
    assert_eq!(resolved_notification.application().as_slice(), b"Grafana");
    assert_eq!(
        resolved_notification.event().as_slice(),
        "[✅] [critical] Alert Name".as_bytes()
    );
    assert_eq!(
        resolved_notification.description().as_slice(),
        b"resolved: Annotation Summary"
    );
}

fn post_request(body: &[u8]) -> Request {
    let headers = [
        "POST / HTTP/1.1".to_string(),
        "Host: 127.0.0.1:3000".to_string(),
        "Accept: */*".to_string(),
        "User-Agent: UnitTest/1.0".to_string(),
        format!("Content-Length: {}", body.len()),
    ]
    .join("\r\n");
    let mut request = headers.into_bytes();
    request.extend_from_slice(b"\r\n\r\n");
    request.extend_from_slice(body);
    Request::from_stream(&request).expect("Failed to build request")
}

#[test]
fn test_grafana_webook() {
    let firing_request = post_request(&grafana_prowl_notifier::consts::create_firing_alert());
    let firing_request2 = post_request(&grafana_prowl_notifier::consts::create_firing_alert());
    let resolved_request = post_request(&grafana_prowl_notifier::consts::create_resolved_alert());

    let config = test_config();
    let mut fingerprints = Fingerprints::new();
    let mut queue = DeliveryQueue::new();

    let firing_message = Message {
        alerts: vec![make_alert("firing", "")],
    };
    let response = grafana_webook(
        &config,
        &firing_request,
        Ok(firing_message),
        &mut queue,
        &mut fingerprints,
        100,
    );
    assert_eq!(response.status_line().as_slice(), b"HTTP/1.1 200 OK");

    let firing_message2 = Message {
        alerts: vec![make_alert("firing", "")],
    };
    let response = grafana_webook(
        &config,
        &firing_request2,
        Ok(firing_message2),
        &mut queue,
        &mut fingerprints,
        101,
    );
    assert_eq!(response.status_line().as_slice(), b"HTTP/1.1 200 OK");

    let resolved_message = Message {
        alerts: vec![make_alert("resolved", "")],
    };
    let response = grafana_webook(
        &config,
        &resolved_request,
        Ok(resolved_message),
        &mut queue,
        &mut fingerprints,
        102,
    );
    assert_eq!(response.status_line().as_slice(), b"HTTP/1.1 200 OK");

    let firing_notification = queue.recv().expect("Failed to get first result");
    let resolved_notification = queue.recv().expect("Failed to get second result");
    assert!(queue.recv().is_none());

    assert_eq!(firing_notification.priority(), &Some(Priority::Normal));
    assert_eq!(
        firing_notification.url().clone(),
        Some(b"http://something/this".to_vec())
    );
    assert_eq!(firing_notification.application().as_slice(), b"Grafana");
    assert_eq!(
        firing_notification.event().as_slice(),
        "[🔥] Alert Name".as_bytes()
    );
    assert_eq!(
        firing_notification.description().as_slice(),
        b"firing: Annotation Summary"
    );

    assert_eq!(resolved_notification.priority(), &Some(Priority::VeryLow));
    assert_eq!(
        resolved_notification.url().clone(),
        Some(b"http://something/this".to_vec())
    );
    assert_eq!(resolved_notification.application().as_slice(), b"Grafana");
    assert_eq!(
        resolved_notification.event().as_slice(),
        "[✅] Alert Name".as_bytes()
    );
    assert_eq!(
        resolved_notification.description().as_slice(),
        b"resolved: Annotation Summary"
    );
}

#[test]
fn webhook_rejects_wrong_method() {
    let request =
        Request::from_stream(b"GET / HTTP/1.1\r\nHost: x\r\n\r\n").expect("Failed to build request");
    let config = test_config();
    let mut fingerprints = Fingerprints::new();
    let mut queue = DeliveryQueue::new();
    let message = Message { alerts: vec![] };
    let response = grafana_webook(
        &config,
        &request,
        Ok(message),
        &mut queue,
        &mut fingerprints,
        100,
    );
    assert_eq!(
        response.status_line().as_slice(),
        b"HTTP/1.1 500 Internal Server Error"
    );
    assert_eq!(
        response.body.clone().expect("expected an error body"),
        b"Wrong method, expected POST but got GET".to_vec()
    );
    assert!(queue.recv().is_none());
}

#[test]
fn webhook_reports_bad_json() {
    let request = post_request(b"not json");
    let config = test_config();
    let mut fingerprints = Fingerprints::new();
    let mut queue = DeliveryQueue::new();
    let response = grafana_webook(
        &config,
        &request,
        Err(b"expected value at line 1 column 1".to_vec()),
        &mut queue,
        &mut fingerprints,
        100,
    );
    assert_eq!(
        response.status_line().as_slice(),
        b"HTTP/1.1 500 Internal Server Error"
    );
    assert_eq!(
        response.body.clone().expect("expected an error body"),
        b"JSON from Grafana could not be parsed. expected value at line 1 column 1".to_vec()
    );
}

#[test]
fn routing_matches_the_three_paths() {
    assert_eq!(route_for(&b"/webhooks/grafana".to_vec()), Route::GrafanaWebhook);
    assert_eq!(route_for(&b"/".to_vec()), Route::StatusPage);
    assert_eq!(route_for(&b"/other".to_vec()), Route::NotFound);

    let response = not_found_response();
    assert_eq!(response.status_line().as_slice(), b"HTTP/1.1 404 Not Found");
    assert_eq!(response.body.clone().expect("body"), b"Not found".to_vec());
}

#[test]
fn framer_failures_map_to_status_lines() {
    let response = framing_error_response(&RequestError::NoContentLength);
    assert_eq!(
        response.status_line().as_slice(),
        b"HTTP/1.1 411 Length Required"
    );
    assert!(response.body.is_none());

    let response = framing_error_response(&RequestError::RequestLineParse);
    assert_eq!(
        response.status_line().as_slice(),
        b"HTTP/1.1 500 Internal Server Error"
    );
    assert_eq!(
        response.body.clone().expect("body"),
        b"The HTTP request-line was not properly formatted.".to_vec()
    );
}

#[test]
fn display_lists_tracked_fingerprints() {
    let request =
        Request::from_stream(b"GET / HTTP/1.1\r\nHost: x\r\n\r\n").expect("Failed to build request");
    let mut fingerprints = Fingerprints::new();
    fingerprints.update_last_alerted(&make_alert("firing", ""), 0);
    let response = display_fingerprints(&request, &fingerprints);
    assert_eq!(response.status_line().as_slice(), b"HTTP/1.1 200 OK");
    let body = String::from_utf8(response.body.clone().expect("body")).expect("html");
    assert!(body.contains("581dd91e73c77248"));
    assert!(body.contains("Alert Name"));
    assert!(body.contains("Normal"));
    assert!(body.contains("firing"));
    // The epoch start renders through the two date formats.
    assert!(body.contains("01/01/70 00:00"));
    assert!(body.contains("01/01/1970 00:00"));
}

#[test]
fn display_redirects_posts_to_root() {
    let request = post_request(b"ignored");
    let fingerprints = Fingerprints::new();
    let response = display_fingerprints(&request, &fingerprints);
    assert_eq!(response.status_line().as_slice(), b"HTTP/1.1 302 Found");
    assert!(response.body.is_none());
    assert_eq!(response.headers.clone(), vec![b"Location: /".to_vec()]);
}

#[test]
fn realert_scan_reminds_unresolved_entries() {
    let config = test_config();
    let mut fingerprints = Fingerprints::new();
    let mut queue = DeliveryQueue::new();
    fingerprints.update_last_alerted(&make_alert("firing", ""), 100);
    let mut resolved = make_alert("resolved", "");
    resolved.fingerprint = b"other".to_vec();
    fingerprints.update_last_alerted(&resolved, 100);

    realert_scan(&mut fingerprints, &mut queue, &config, 1000, 500);

    let reminder = queue.recv().expect("expected one reminder");
    assert!(queue.recv().is_none());
    assert_eq!(reminder.event().as_slice(), "[🕓] Alert Name".as_bytes());
    assert_eq!(
        reminder.description().as_slice(),
        b"Alert Name is still firing."
    );
    assert_eq!(reminder.priority(), &Some(Priority::Normal));
    assert!(reminder.url().is_none());

    let record = fingerprints
        .get(&make_alert("firing", ""))
        .expect("record should exist");
    assert_eq!(record.last_alerted(), 1000);
    let record = fingerprints.get(&resolved).expect("record should exist");
    assert_eq!(record.last_alerted(), 100);
}

#[test]
fn realert_scan_skips_recently_alerted_entries() {
    let config = test_config();
    let mut fingerprints = Fingerprints::new();
    let mut queue = DeliveryQueue::new();
    fingerprints.update_last_alerted(&make_alert("firing", ""), 900);

    realert_scan(&mut fingerprints, &mut queue, &config, 1000, 500);
    assert!(queue.recv().is_none());
    let record = fingerprints
        .get(&make_alert("firing", ""))
        .expect("record should exist");
    assert_eq!(record.last_alerted(), 900);
}

#[test]
fn interval_cutoff_subtracts_minutes() {
    assert_eq!(interval_cutoff(1000, 5), Some(700));
    assert_eq!(interval_cutoff(0, -5), Some(300));
    assert_eq!(interval_cutoff(i64::MIN, 1), None);
}

#[test]
fn cron_next_is_strictly_after_now() {
    let next = cron_next(&b"*/5 * * * *".to_vec(), 0).expect("expression parses");
    assert_eq!(next, 300);
    assert!(cron_next(&b"not a cron line".to_vec(), 0).is_none());
}

#[test]
fn delivery_worker_retries_the_same_notification() {
    let notification = Notification::new(
        vec![b"test-api-key".to_vec()],
        Some(Priority::Normal),
        None,
        b"Grafana".to_vec(),
        b"event".to_vec(),
        b"description".to_vec(),
    )
    .expect("notification should validate");

    let (state, action) = delivery_step(DeliveryState::Idle, DeliveryEvent::Received(notification));
    assert_eq!(action, DeliveryAction::Submit);
    let (state, action) = delivery_step(state, DeliveryEvent::SubmitFailed);
    assert_eq!(action, DeliveryAction::SleepRetry);
    let (state, action) = delivery_step(state, DeliveryEvent::Waited);
    assert_eq!(action, DeliveryAction::Submit);
    match &state {
        DeliveryState::Sending(n) => assert_eq!(n.event().as_slice(), b"event"),
        other => panic!("unexpected worker state {other:?}"),
    }
    let (state, action) = delivery_step(state, DeliveryEvent::SubmitSucceeded);
    assert_eq!(action, DeliveryAction::SleepPacing);
    let (state, action) = delivery_step(state, DeliveryEvent::Waited);
    assert_eq!(action, DeliveryAction::Receive);
    let (_, action) = delivery_step(state, DeliveryEvent::QueueClosed);
    assert_eq!(action, DeliveryAction::Stop);
}

#[test]
fn oversized_notification_is_rejected_without_queueing() {
    let config = test_config();
    let mut alert = make_alert("firing", "");
    alert.labels.alertname = vec![b'a'; 2000];
    let mut queue = DeliveryQueue::new();
    let result = add_notification(&alert, &config, &mut queue);
    assert!(result.is_err());
    assert!(queue.recv().is_none());
}

#[test]
fn closed_queue_rejects_notifications() {
    let config = test_config();
    let mut queue = DeliveryQueue::new();
    queue.close();
    let result = add_notification(&make_alert("firing", ""), &config, &mut queue);
    assert!(result.is_err());
    assert!(queue.recv().is_none());
}

#[test]
fn notification_validation_limits() {
    let keys = vec![b"test-api-key".to_vec()];
    let long = |n: usize| vec![b'x'; n];

    let result = Notification::new(
        keys.clone(),
        None,
        None,
        long(257),
        b"event".to_vec(),
        b"desc".to_vec(),
    );
    assert!(matches!(result, Err(CreationError::ApplicationLength(257))));

    let result = Notification::new(
        keys.clone(),
        None,
        None,
        b"app".to_vec(),
        long(1025),
        b"desc".to_vec(),
    );
    assert!(matches!(result, Err(CreationError::EventLength(1025))));

    let result = Notification::new(
        keys.clone(),
        None,
        None,
        b"app".to_vec(),
        b"event".to_vec(),
        long(10001),
    );
    assert!(matches!(result, Err(CreationError::DescriptionLength(10001))));

    let result = Notification::new(
        keys.clone(),
        None,
        Some(long(513)),
        b"app".to_vec(),
        b"event".to_vec(),
        b"desc".to_vec(),
    );
    assert!(matches!(result, Err(CreationError::InvalidUrlLength(513))));

    let result = Notification::new(
        keys,
        None,
        Some(long(512)),
        long(256),
        long(1024),
        long(10000),
    );
    assert!(result.is_ok());
}

#[test]
fn webhook_failure_does_not_stop_the_batch() {
    let request = post_request(b"ignored");
    let config = test_config();
    let mut fingerprints = Fingerprints::new();
    let mut queue = DeliveryQueue::new();

    let mut oversized = make_alert("firing", "");
    oversized.labels.alertname = vec![b'a'; 2000];
    oversized.fingerprint = b"big".to_vec();
    let fine = make_alert("firing", "");
    let message = Message {
        alerts: vec![oversized, fine],
    };

    let response = grafana_webook(
        &config,
        &request,
        Ok(message),
        &mut queue,
        &mut fingerprints,
        100,
    );
    // The batch failure is reported, but both alerts were committed and
    // the valid one's notification was still queued.
    assert_eq!(
        response.status_line().as_slice(),
        b"HTTP/1.1 500 Internal Server Error"
    );
    assert_eq!(fingerprints.records().len(), 2);
    let queued = queue.recv().expect("valid alert should still notify");
    assert_eq!(queued.event().as_slice(), "[🔥] Alert Name".as_bytes());
    assert!(queue.recv().is_none());
}

#[test]
fn unusual_status_keeps_its_raw_marker() {
    let config = test_config();
    let mut queue = DeliveryQueue::new();
    add_notification(&make_alert("snoozed", ""), &config, &mut queue)
        .expect("Failed to add notification");
    let notification = queue.recv().expect("Failed to get first result");
    assert_eq!(notification.event().as_slice(), b"[snoozed] Alert Name");
    assert_eq!(notification.priority(), &Some(Priority::VeryLow));
}
