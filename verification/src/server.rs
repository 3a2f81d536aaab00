use crate::bytes::{
    bytes_eq, clone_byte_seqs, clone_bytes, opt_bytes_view, seq_views,
};
use crate::clock::{format_timestamp_long, format_timestamp_short, long_timestamp, short_timestamp};
use crate::config::{Config, ConfigV};
use crate::bytes::push_all;
use crate::errors::RequestError;
use crate::fingerprint::{
    spec_changed, spec_record_alerted, spec_record_seen, Fingerprints, PreviousEventV,
};
use crate::grafana::{spec_priority, Alert, AlertV, Message, Priority};
use crate::http::{Request, Response};
use crate::notification::{
    spec_add_notification_error_text, spec_validate, AddNotificationError, DeliveryQueue,
    Notification, NotificationV,
};
use crate::text;
use vstd::prelude::*;

verus! {

/// Why a webhook request was rejected.
#[derive(Debug)]
pub enum GrafanaWebhookError {
    /// An alert's notification could not be queued.
    QueueError(AddNotificationError),
    /// The request body was not a well-formed payload; the bytes carry the
    /// parser's message.
    BadJson(Vec<u8>),
    /// The request used a method other than POST; the bytes carry it.
    WrongMethod(Vec<u8>),
}

/// The mathematical content of a webhook rejection.
pub ghost enum GrafanaWebhookErrorV {
    QueueError(AddNotificationError),
    BadJson(Seq<u8>),
    WrongMethod(Seq<u8>),
}

/// A spec-level view of a webhook rejection.
pub open spec fn webhook_error_view(e: &GrafanaWebhookError) -> GrafanaWebhookErrorV {
    match e {
        GrafanaWebhookError::QueueError(a) => GrafanaWebhookErrorV::QueueError(*a),
        GrafanaWebhookError::BadJson(m) => GrafanaWebhookErrorV::BadJson(m@),
        GrafanaWebhookError::WrongMethod(m) => GrafanaWebhookErrorV::WrongMethod(m@),
    }
}

/// The plain-text rendering of a webhook rejection.
pub open spec fn spec_webhook_error_text(e: GrafanaWebhookErrorV) -> Seq<u8> {
    match e {
        GrafanaWebhookErrorV::QueueError(a) => text::spec_err_queue_notification()
            + spec_add_notification_error_text(a),
        GrafanaWebhookErrorV::BadJson(m) => text::spec_err_bad_json() + m,
        GrafanaWebhookErrorV::WrongMethod(m) => text::spec_err_wrong_method() + m,
    }
}

/// The response's three parts are exactly these.
pub open spec fn response_is(
    r: &Response,
    status: Seq<u8>,
    headers: Seq<Seq<u8>>,
    body: Option<Seq<u8>>,
) -> bool {
    r.status_line@ == status && seq_views(r.headers@) == headers && opt_bytes_view(r.body) == body
}

/// A server-error response whose plain-text body describes the rejection.
pub fn create_grafana_failure_response(error: GrafanaWebhookError) -> (r: Response)
    ensures
        response_is(
            &r,
            text::spec_status_server_error(),
            seq![text::spec_header_text_plain()],
            Some(spec_webhook_error_text(webhook_error_view(&error))),
        ),
{
    let body: Vec<u8> = match &error {
        GrafanaWebhookError::QueueError(a) => {
            let mut b = text::err_queue_notification();
            let inner = a.describe();
            push_all(&mut b, inner.as_slice());
            b
        },
        GrafanaWebhookError::BadJson(m) => {
            let mut b = text::err_bad_json();
            push_all(&mut b, m.as_slice());
            b
        },
        GrafanaWebhookError::WrongMethod(m) => {
            let mut b = text::err_wrong_method();
            push_all(&mut b, m.as_slice());
            b
        },
    };
    let headers: Vec<Vec<u8>> = vec![text::header_text_plain()];
    proof {
        assert(seq_views(headers@) =~= seq![text::spec_header_text_plain()]);
    }
    Response::new(text::status_server_error(), headers, Some(body))
}

/// The notification an alert event produces: a marker for its status, the
/// alert's name, severity, origin URL, and a `status: summary` line.
pub open spec fn spec_notification_for(a: AlertV, cfg: ConfigV) -> NotificationV {
    NotificationV {
        api_keys: cfg.prowl_api_keys,
        priority: Some(spec_priority(a.status, a.alertname)),
        url: Some(a.generator_url),
        application: cfg.app_name,
        event: spec_event_title(a),
        description: a.status + text::spec_colon_space() + a.summary,
    }
}

/// The event title: a fire marker for firing, a check marker for resolved,
/// and the raw status in brackets otherwise, followed by the alert's name.
pub open spec fn spec_event_title(a: AlertV) -> Seq<u8> {
    if a.status == text::spec_status_firing() {
        text::spec_marker_firing() + a.alertname
    } else if a.status == text::spec_status_resolved() {
        text::spec_marker_resolved() + a.alertname
    } else {
        text::spec_bracket_open() + a.status + text::spec_bracket_close_space() + a.alertname
    }
}

/// Whether the notification for `a` passes validation.
pub open spec fn spec_notification_ok(a: AlertV, cfg: ConfigV) -> Result<(), crate::notification::CreationError> {
    spec_validate(
        Some(a.generator_url),
        cfg.app_name,
        spec_event_title(a),
        a.status + text::spec_colon_space() + a.summary,
    )
}

/// Builds the notification for one alert event and queues it. A validation
/// failure or a closed queue is reported; the queue is unchanged then.
pub fn add_notification(alert: &Alert, config: &Config, queue: &mut DeliveryQueue) -> (r: Result<
    (),
    AddNotificationError,
>)
    ensures
        final(queue).closed == old(queue).closed,
        match spec_notification_ok(alert@, config@) {
            Err(e) => r == Err::<(), _>(AddNotificationError::Creation(e)) && final(queue)@ == old(
                queue,
            )@,
            Ok(_) => {
                if old(queue).closed {
                    r == Err::<(), _>(AddNotificationError::Queue) && final(queue)@ == old(queue)@
                } else {
                    r == Ok::<(), AddNotificationError>(()) && final(queue)@ == old(queue)@.push(
                        spec_notification_for(alert@, config@),
                    )
                }
            },
        },
{
    let firing = text::status_firing();
    let resolved = text::status_resolved();
    let mut event_title: Vec<u8>;
    if bytes_eq(alert.status.as_slice(), firing.as_slice()) {
        event_title = text::marker_firing();
    } else if bytes_eq(alert.status.as_slice(), resolved.as_slice()) {
        event_title = text::marker_resolved();
    } else {
        event_title = text::bracket_open();
        push_all(&mut event_title, alert.status.as_slice());
        let close = text::bracket_close_space();
        push_all(&mut event_title, close.as_slice());
    }
    push_all(&mut event_title, alert.labels.alertname.as_slice());

    let mut description = clone_bytes(&alert.status);
    let colon = text::colon_space();
    push_all(&mut description, colon.as_slice());
    push_all(&mut description, alert.annotations.summary.as_slice());

    let notification = Notification::new(
        clone_byte_seqs(&config.prowl_api_keys),
        Some(alert.get_priority()),
        Some(clone_bytes(&alert.generator_url)),
        clone_bytes(&config.app_name),
        event_title,
        description,
    );
    match notification {
        Err(e) => Err(AddNotificationError::Creation(e)),
        Ok(n) => queue.send(n),
    }
}

/// The outcome of ingesting a batch of alert events, front to back: the
/// store after the batch, the notifications enqueued (none when the queue
/// is closed), and the last per-event failure, if any. An unchanged event
/// is only recorded as seen; a changed one is recorded as alerted and its
/// notification queued, a failure there being remembered without stopping
/// the batch.
pub open spec fn spec_ingest(
    s: Seq<PreviousEventV>,
    q: Seq<NotificationV>,
    closed: bool,
    err: Option<AddNotificationError>,
    alerts: Seq<AlertV>,
    cfg: ConfigV,
    now: int,
) -> (Seq<PreviousEventV>, Seq<NotificationV>, Option<AddNotificationError>)
    decreases alerts.len(),
{
    if alerts.len() == 0 {
        (s, q, err)
    } else {
        let a = alerts[0];
        let rest = alerts.drop_first();
        if !spec_changed(s, a) {
            spec_ingest(spec_record_seen(s, a, now), q, closed, err, rest, cfg, now)
        } else {
            let s2 = spec_record_alerted(s, a, now);
            match spec_notification_ok(a, cfg) {
                Err(e) => spec_ingest(
                    s2,
                    q,
                    closed,
                    Some(AddNotificationError::Creation(e)),
                    rest,
                    cfg,
                    now,
                ),
                Ok(_) => {
                    if closed {
                        spec_ingest(s2, q, closed, Some(AddNotificationError::Queue), rest, cfg, now)
                    } else {
                        spec_ingest(
                            s2,
                            q.push(spec_notification_for(a, cfg)),
                            closed,
                            err,
                            rest,
                            cfg,
                            now,
                        )
                    }
                },
            }
        }
    }
}

/// Handles a webhook request: requires POST, ingests the parsed batch of
/// alert events against the store, queues a notification per changed
/// event, and answers 200 `Accepted` unless anything failed.
pub fn grafana_webook(
    config: &Config,
    request: &Request,
    parsed: Result<Message, Vec<u8>>,
    queue: &mut DeliveryQueue,
    fingerprints: &mut Fingerprints,
    now: i64,
) -> (r: Response)
    ensures
        final(queue).closed == old(queue).closed,
        request.request_line.method@ != text::spec_method_post() ==> final(fingerprints)@ == old(fingerprints)@ && final(queue)@ == old(queue)@ && response_is(
            &r,
            text::spec_status_server_error(),
            seq![text::spec_header_text_plain()],
            Some(
                spec_webhook_error_text(
                    GrafanaWebhookErrorV::WrongMethod(request.request_line.method@),
                ),
            ),
        ),
        request.request_line.method@ == text::spec_method_post() && parsed is Err ==> final(fingerprints)@ == old(fingerprints)@ && final(queue)@ == old(queue)@ && response_is(
            &r,
            text::spec_status_server_error(),
            seq![text::spec_header_text_plain()],
            Some(
                spec_webhook_error_text(GrafanaWebhookErrorV::BadJson(parsed->Err_0@)),
            ),
        ),
        request.request_line.method@ == text::spec_method_post() && parsed is Ok ==> {
            let (fs, qs, err) = spec_ingest(
                old(fingerprints)@,
                old(queue)@,
                old(queue).closed,
                None,
                parsed->Ok_0@,
                config@,
                now as int,
            );
            final(fingerprints)@ == fs && final(queue)@ == qs && match err {
                None => response_is(
                    &r,
                    text::spec_status_ok(),
                    seq![text::spec_header_text_plain()],
                    Some(text::spec_body_accepted()),
                ),
                Some(e) => response_is(
                    &r,
                    text::spec_status_server_error(),
                    seq![text::spec_header_text_plain()],
                    Some(spec_webhook_error_text(GrafanaWebhookErrorV::QueueError(e))),
                ),
            }
        },
{
    let post = text::method_post();
    if !bytes_eq(request.request_line.method.as_slice(), post.as_slice()) {
        return create_grafana_failure_response(
            GrafanaWebhookError::WrongMethod(clone_bytes(&request.request_line.method)),
        );
    }
    let message = match parsed {
        Ok(m) => m,
        Err(e) => {
            return create_grafana_failure_response(GrafanaWebhookError::BadJson(e));
        },
    };
    let ghost all_alerts = message@;
    let ghost orig_store = fingerprints@;
    let ghost orig_queue = queue@;
    let ghost cfg = config@;
    let mut last_err: Option<AddNotificationError> = None;
    let n = message.alerts.len();
    let mut i: usize = 0;
    proof {
        assert(all_alerts.skip(0) =~= all_alerts);
    }
    while i < n
        invariant
            0 <= i <= n == message.alerts@.len(),
            all_alerts == message@,
            all_alerts.len() == n,
            cfg == config@,
            queue.closed == old(queue).closed,
            spec_ingest(
                fingerprints@,
                queue@,
                old(queue).closed,
                last_err,
                all_alerts.skip(i as int),
                cfg,
                now as int,
            ) == spec_ingest(
                orig_store,
                orig_queue,
                old(queue).closed,
                None,
                all_alerts,
                cfg,
                now as int,
            ),
        decreases n - i,
    {
        let event = &message.alerts[i];
        proof {
            assert(all_alerts.skip(i as int)[0] == event@);
            assert(all_alerts.skip(i as int).drop_first() =~= all_alerts.skip(i + 1));
        }
        if !fingerprints.changed(event) {
            fingerprints.update_last_seen(event, now);
        } else {
            fingerprints.update_last_alerted(event, now);
            match add_notification(event, config, queue) {
                Err(err) => {
                    last_err = Some(err);
                },
                Ok(_) => {},
            }
        }
        i = i + 1;
    }
    proof {
        assert(all_alerts.skip(n as int) =~= Seq::<AlertV>::empty());
    }
    if let Some(e) = last_err {
        create_grafana_failure_response(GrafanaWebhookError::QueueError(e))
    } else {
        let headers: Vec<Vec<u8>> = vec![text::header_text_plain()];
        proof {
            assert(seq_views(headers@) =~= seq![text::spec_header_text_plain()]);
        }
        Response::new(text::status_ok(), headers, Some(text::body_accepted()))
    }
}

/// The name of a stored severity, or `Unknown` when none was recorded.
pub open spec fn spec_priority_cell(p: Option<Priority>) -> Seq<u8> {
    match p {
        Some(Priority::VeryLow) => text::spec_priority_very_low(),
        Some(Priority::Moderate) => text::spec_priority_moderate(),
        Some(Priority::Normal) => text::spec_priority_normal(),
        Some(Priority::High) => text::spec_priority_high(),
        Some(Priority::Emergency) => text::spec_priority_emergency(),
        None => text::spec_unknown(),
    }
}

/// One table row of the status page.
pub open spec fn spec_row(r: PreviousEventV) -> Seq<u8> {
    text::spec_row_head() + r.fingerprint + text::spec_cell_separator() + (match r.name {
        Some(n) => n,
        None => text::spec_unknown(),
    }) + text::spec_cell_separator() + spec_priority_cell(r.priority) + text::spec_cell_separator()
        + r.last_status + text::spec_cell_separator() + short_timestamp(r.last_alerted)
        + text::spec_cell_separator() + (match r.first_alerted {
        Some(t) => long_timestamp(t),
        None => text::spec_unknown(),
    }) + text::spec_row_tail()
}

/// The table rows for the whole store, in commit order.
pub open spec fn spec_rows(s: Seq<PreviousEventV>) -> Seq<u8>
    decreases s.len(),
{
    if s.len() == 0 {
        Seq::<u8>::empty()
    } else {
        spec_rows(s.drop_last()) + spec_row(s.last())
    }
}

/// The whole status page.
pub open spec fn spec_status_page(s: Seq<PreviousEventV>) -> Seq<u8> {
    text::spec_html_head() + text::spec_table_head() + text::spec_table_columns() + spec_rows(s)
        + text::spec_table_tail() + text::spec_html_tail()
}

/// Renders the read-only status view: a GET gets an HTML table of every
/// tracked fingerprint; anything else is redirected back to the root.
#[verifier::rlimit(50)]
pub fn display_fingerprints(request: &Request, fingerprints: &Fingerprints) -> (r: Response)
    ensures
        request.request_line.method@ != text::spec_method_get() ==> response_is(
            &r,
            text::spec_status_found(),
            seq![text::spec_header_location_root()],
            None,
        ),
        request.request_line.method@ == text::spec_method_get() ==> response_is(
            &r,
            text::spec_status_ok(),
            seq![text::spec_header_text_html()],
            Some(spec_status_page(fingerprints@)),
        ),
{
    let get = text::method_get();
    if !bytes_eq(request.request_line.method.as_slice(), get.as_slice()) {
        let headers: Vec<Vec<u8>> = vec![text::header_location_root()];
        proof {
            assert(seq_views(headers@) =~= seq![text::spec_header_location_root()]);
        }
        return Response::new(text::status_found(), headers, None);
    }
    let mut body = text::html_head();
    let table_head = text::table_head();
    push_all(&mut body, table_head.as_slice());
    let columns = text::table_columns();
    push_all(&mut body, columns.as_slice());
    let ghost s = fingerprints@;
    let ghost head = body@;
    let n = fingerprints.data.len();
    let mut i: usize = 0;
    proof {
        assert(body@ =~= head + spec_rows(s.take(0)));
    }
    while i < n
        invariant
            0 <= i <= n == fingerprints.data@.len(),
            s == fingerprints@,
            s.len() == n,
            body@ == head + spec_rows(s.take(i as int)),
        decreases n - i,
    {
        let record = &fingerprints.data[i];
        let mut row = text::row_head();
        push_all(&mut row, record.fingerprint.as_slice());
        let sep = text::cell_separator();
        push_all(&mut row, sep.as_slice());
        match &record.name {
            Some(name) => push_all(&mut row, name.as_slice()),
            None => {
                let unknown = text::unknown();
                push_all(&mut row, unknown.as_slice());
            },
        }
        push_all(&mut row, sep.as_slice());
        let priority_cell: Vec<u8> = match record.priority {
            Some(Priority::VeryLow) => text::priority_very_low(),
            Some(Priority::Moderate) => text::priority_moderate(),
            Some(Priority::Normal) => text::priority_normal(),
            Some(Priority::High) => text::priority_high(),
            Some(Priority::Emergency) => text::priority_emergency(),
            None => text::unknown(),
        };
        push_all(&mut row, priority_cell.as_slice());
        push_all(&mut row, sep.as_slice());
        push_all(&mut row, record.last_status.as_slice());
        push_all(&mut row, sep.as_slice());
        let last_alert = format_timestamp_short(record.last_alerted);
        push_all(&mut row, last_alert.as_slice());
        push_all(&mut row, sep.as_slice());
        match record.first_alerted {
            Some(t) => {
                let first_alert = format_timestamp_long(t);
                push_all(&mut row, first_alert.as_slice());
            },
            None => {
                let unknown = text::unknown();
                push_all(&mut row, unknown.as_slice());
            },
        }
        let row_tail = text::row_tail();
        push_all(&mut row, row_tail.as_slice());
        proof {
            assert(record@ == s[i as int]);
            assert(row@ =~= spec_row(s[i as int]));
        }
        push_all(&mut body, row.as_slice());
        proof {
            assert(s.take(i + 1).drop_last() =~= s.take(i as int));
            assert(s.take(i + 1).last() == s[i as int]);
            assert(body@ =~= head + spec_rows(s.take(i + 1)));
        }
        i = i + 1;
    }
    proof {
        assert(s.take(n as int) =~= s);
    }
    let table_tail = text::table_tail();
    push_all(&mut body, table_tail.as_slice());
    let html_tail = text::html_tail();
    push_all(&mut body, html_tail.as_slice());
    let headers: Vec<Vec<u8>> = vec![text::header_text_html()];
    proof {
        assert(seq_views(headers@) =~= seq![text::spec_header_text_html()]);
        assert(body@ =~= spec_status_page(s));
    }
    Response::new(text::status_ok(), headers, Some(body))
}

/// A plain-text 404 response.
pub fn not_found_response() -> (r: Response)
    ensures
        response_is(
            &r,
            text::spec_status_not_found(),
            seq![text::spec_header_text_plain()],
            Some(text::spec_body_not_found()),
        ),
{
    let headers: Vec<Vec<u8>> = vec![text::header_text_plain()];
    proof {
        assert(seq_views(headers@) =~= seq![text::spec_header_text_plain()]);
    }
    Response::new(text::status_not_found(), headers, Some(text::body_not_found()))
}

/// The response sent when framing a request failed: a missing
/// `Content-Length` gets a bare 411, anything else a plain-text 500
/// describing the failure.
pub fn framing_error_response(e: &RequestError) -> (r: Response)
    ensures
        *e == RequestError::NoContentLength ==> response_is(
            &r,
            text::spec_status_length_required(),
            Seq::<Seq<u8>>::empty(),
            None,
        ),
        *e != RequestError::NoContentLength ==> response_is(
            &r,
            text::spec_status_server_error(),
            seq![text::spec_header_text_plain()],
            Some(crate::errors::spec_request_error_text(*e)),
        ),
{
    match e {
        RequestError::NoContentLength => {
            let headers: Vec<Vec<u8>> = Vec::new();
            proof {
                assert(seq_views(headers@) =~= Seq::<Seq<u8>>::empty());
            }
            Response::new(text::status_length_required(), headers, None)
        },
        _ => {
            let headers: Vec<Vec<u8>> = vec![text::header_text_plain()];
            proof {
                assert(seq_views(headers@) =~= seq![text::spec_header_text_plain()]);
            }
            Response::new(text::status_server_error(), headers, Some(e.describe()))
        },
    }
}

/// Where a request path is routed.
#[derive(Debug, Clone, Copy, PartialEq, Eq, Structural)]
pub enum Route {
    /// The alert-webhook endpoint.
    GrafanaWebhook,
    /// The read-only status page.
    StatusPage,
    /// Everything else.
    NotFound,
}

/// Routing by path: the webhook endpoint, the root status page, or 404.
pub open spec fn spec_route_for(path: Seq<u8>) -> Route {
    if path == text::spec_webhook_path() {
        Route::GrafanaWebhook
    } else if path == text::spec_root_path() {
        Route::StatusPage
    } else {
        Route::NotFound
    }
}

/// Picks the route a request path is served by.
pub fn route_for(path: &Vec<u8>) -> (r: Route)
    ensures
        r == spec_route_for(path@),
{
    let webhook = text::webhook_path();
    if bytes_eq(path.as_slice(), webhook.as_slice()) {
        return Route::GrafanaWebhook;
    }
    let root = text::root_path();
    if bytes_eq(path.as_slice(), root.as_slice()) {
        return Route::StatusPage;
    }
    Route::NotFound
}

} // verus!
