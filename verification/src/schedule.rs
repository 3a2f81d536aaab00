use crate::bytes::{bytes_eq, clone_byte_seqs, clone_bytes};
use crate::config::{Config, ConfigV};
use crate::bytes::push_all;
use crate::fingerprint::{spec_reminder_event, Fingerprints, PreviousEventV};
use crate::notification::{spec_validate, DeliveryQueue, Notification, NotificationV};
use crate::text;
use vstd::prelude::*;

verus! {

/// The first occurrence of a cron expression strictly after an instant,
/// as epoch seconds in UTC; `None` when the expression is invalid, the
/// instant unrepresentable, or no occurrence exists.
pub uninterp spec fn cron_next_of(expr: Seq<u8>, now: int) -> Option<int>;

/// Relies on cron_parser's `parse`: it returns the first occurrence of the
/// expression strictly after the given instant, in UTC, or fails on a
/// malformed expression or when no occurrence is representable.
#[verifier::external_body]
pub fn cron_next(expr: &Vec<u8>, now: i64) -> (r: Option<i64>)
    ensures
        match r {
            Some(t) => cron_next_of(expr@, now as int) == Some(t as int) && t > now,
            None => cron_next_of(expr@, now as int) is None,
        },
{
    let expr = match std::str::from_utf8(expr.as_slice()) {
        Ok(s) => s,
        Err(_) => return None,
    };
    let instant = match chrono::DateTime::from_timestamp(now, 0) {
        Some(t) => t,
        None => return None,
    };
    match cron_parser::parse(expr, &instant) {
        Ok(next) => Some(next.timestamp()),
        Err(_) => None,
    }
}

/// How long to sleep until the cron expression next matches: the distance
/// from `now` to the first occurrence strictly after it, or `None` when
/// the expression yields no occurrence.
pub fn cron_wait_secs(expr: &Vec<u8>, now: i64) -> (r: Option<u64>)
    ensures
        match cron_next_of(expr@, now as int) {
            Some(t) => t > now ==> r == Some::<u64>((t - now) as u64),
            None => r is None,
        },
{
    match cron_next(expr, now) {
        None => None,
        Some(t) => {
            let wait: i128 = (t as i128) - (now as i128);
            Some(wait as u64)
        },
    }
}

/// A record is due for a reminder when its condition is not resolved and
/// it was last alerted at or before the cutoff.
pub open spec fn spec_due(r: PreviousEventV, cutoff: int) -> bool {
    r.last_status != text::spec_status_resolved() && r.last_alerted <= cutoff
}

/// The stored display name, or `Unknown` when none was recorded.
pub open spec fn spec_name_or_unknown(r: PreviousEventV) -> Seq<u8> {
    match r.name {
        Some(n) => n,
        None => text::spec_unknown(),
    }
}

/// The reminder notification for a still-unresolved record: a reminder
/// marker on the stored name, the stored severity, and no origin URL.
pub open spec fn spec_reminder_notification(r: PreviousEventV, cfg: ConfigV) -> NotificationV {
    NotificationV {
        api_keys: cfg.prowl_api_keys,
        priority: r.priority,
        url: None,
        application: cfg.app_name,
        event: text::spec_marker_reminder() + spec_name_or_unknown(r),
        description: spec_name_or_unknown(r) + text::spec_still_firing_tail(),
    }
}

/// Whether the reminder notification for `r` passes validation.
pub open spec fn spec_reminder_valid(r: PreviousEventV, cfg: ConfigV) -> bool {
    spec_validate(
        None,
        cfg.app_name,
        text::spec_marker_reminder() + spec_name_or_unknown(r),
        spec_name_or_unknown(r) + text::spec_still_firing_tail(),
    ) is Ok
}

/// The store after a scan: every due record has `last_alerted` moved to
/// `now`; every other record is untouched.
pub open spec fn spec_scan_records(s: Seq<PreviousEventV>, now: int, cutoff: int) -> Seq<
    PreviousEventV,
> {
    Seq::new(
        s.len(),
        |i: int|
            if spec_due(s[i], cutoff) {
                spec_reminder_event(s[i], now)
            } else {
                s[i]
            },
    )
}

/// The reminder notifications a scan enqueues, in store order: one for
/// each due record whose reminder passes validation.
pub open spec fn spec_scan_notifs(s: Seq<PreviousEventV>, cfg: ConfigV, cutoff: int) -> Seq<
    NotificationV,
>
    decreases s.len(),
{
    if s.len() == 0 {
        Seq::<NotificationV>::empty()
    } else {
        let pre = spec_scan_notifs(s.drop_last(), cfg, cutoff);
        if spec_due(s.last(), cutoff) && spec_reminder_valid(s.last(), cfg) {
            pre.push(spec_reminder_notification(s.last(), cfg))
        } else {
            pre
        }
    }
}

/// One re-alert sweep over the store: every record still unresolved and
/// last alerted at or before `cutoff` gets a reminder enqueued (unless the
/// reminder fails validation or the queue is closed, either of which is
/// dropped) and its `last_alerted` moved to `now`.
pub fn realert_scan(
    fingerprints: &mut Fingerprints,
    queue: &mut DeliveryQueue,
    config: &Config,
    now: i64,
    cutoff: i64,
)
    ensures
        final(fingerprints)@ == spec_scan_records(old(fingerprints)@, now as int, cutoff as int),
        final(queue).closed == old(queue).closed,
        final(queue)@ == old(queue)@ + if old(queue).closed {
            Seq::<NotificationV>::empty()
        } else {
            spec_scan_notifs(old(fingerprints)@, config@, cutoff as int)
        },
{
    let ghost orig = fingerprints@;
    let ghost orig_queue = queue@;
    let ghost cfg = config@;
    let resolved = text::status_resolved();
    let n = fingerprints.data.len();
    let mut i: usize = 0;
    proof {
        assert(orig_queue + Seq::<NotificationV>::empty() =~= orig_queue);
        assert(orig_queue + spec_scan_notifs(orig.take(0), cfg, cutoff as int) =~= orig_queue);
    }
    while i < n
        invariant
            0 <= i <= n == fingerprints.data@.len(),
            orig.len() == n,
            cfg == config@,
            resolved@ == text::spec_status_resolved(),
            queue.closed == old(queue).closed,
            forall|j: int| i <= j < n ==> fingerprints@[j] == orig[j],
            forall|j: int|
                0 <= j < i ==> fingerprints@[j] == (if spec_due(orig[j], cutoff as int) {
                    spec_reminder_event(orig[j], now as int)
                } else {
                    orig[j]
                }),
            queue@ == orig_queue + if old(queue).closed {
                Seq::<NotificationV>::empty()
            } else {
                spec_scan_notifs(orig.take(i as int), cfg, cutoff as int)
            },
        decreases n - i,
    {
        let ghost queue_before = queue@;
        let ghost fp_before = fingerprints@;
        let record = &fingerprints.data[i];
        proof {
            assert(record@ == orig[i as int]);
        }
        let past_time = record.last_alerted <= cutoff;
        let is_resolved = bytes_eq(record.last_status.as_slice(), resolved.as_slice());
        let due = past_time && !is_resolved;
        if due {
            let name = match &record.name {
                Some(x) => clone_bytes(x),
                None => text::unknown(),
            };
            let mut event_title = text::marker_reminder();
            push_all(&mut event_title, name.as_slice());
            let mut description = clone_bytes(&name);
            let tail = text::still_firing_tail();
            push_all(&mut description, tail.as_slice());
            let notification = Notification::new(
                clone_byte_seqs(&config.prowl_api_keys),
                record.priority,
                None,
                clone_bytes(&config.app_name),
                event_title,
                description,
            );
            let mut updated = record.duplicate();
            updated.last_alerted = now;
            proof {
                assert(updated@ == spec_reminder_event(orig[i as int], now as int));
            }
            match notification {
                Ok(notification) => {
                    proof {
                        assert(notification@ == spec_reminder_notification(orig[i as int], cfg));
                        assert(spec_reminder_valid(orig[i as int], cfg));
                    }
                    let _ = queue.send(notification);
                },
                Err(_) => {
                    proof {
                        assert(!spec_reminder_valid(orig[i as int], cfg));
                    }
                },
            }
            fingerprints.data.set(i, updated);
            proof {
                assert(fingerprints@[i as int] == spec_reminder_event(orig[i as int], now as int));
                assert(spec_due(orig[i as int], cutoff as int));
                assert forall|j: int| 0 <= j < fp_before.len() && j != i implies fingerprints@[j]
                    == fp_before[j] by {}
            }
        } else {
            proof {
                assert(!spec_due(orig[i as int], cutoff as int));
            }
        }
        proof {
            assert forall|j: int|
                0 <= j < i + 1 implies fingerprints@[j] == (if spec_due(orig[j], cutoff as int) {
                spec_reminder_event(orig[j], now as int)
            } else {
                orig[j]
            }) by {
                if j < i {
                    assert(fingerprints@[j] == fp_before[j]);
                }
            }
            assert(orig.take(i + 1).drop_last() =~= orig.take(i as int));
            assert(orig.take(i + 1).last() == orig[i as int]);
            if !old(queue).closed {
                if due && spec_reminder_valid(orig[i as int], cfg) {
                    assert(queue@ =~= orig_queue + spec_scan_notifs(
                        orig.take(i + 1),
                        cfg,
                        cutoff as int,
                    ));
                } else {
                    assert(queue@ =~= orig_queue + spec_scan_notifs(
                        orig.take(i + 1),
                        cfg,
                        cutoff as int,
                    ));
                }
            }
        }
        i = i + 1;
    }
    proof {
        assert(orig.take(n as int) =~= orig);
        assert(fingerprints@ =~= spec_scan_records(orig, now as int, cutoff as int));
    }
}

/// The cutoff used by the fixed-interval scheduler: `minutes` before `now`.
/// Fails only when the arithmetic leaves the range of epoch seconds.
pub fn interval_cutoff(now: i64, minutes: i64) -> (r: Option<i64>)
    ensures
        match r {
            Some(c) => c == now - minutes * 60,
            None => (minutes * 60 < i64::MIN || minutes * 60 > i64::MAX) || (now - minutes * 60
                < i64::MIN || now - minutes * 60 > i64::MAX),
        },
{
    let secs = match minutes.checked_mul(60) {
        Some(s) => s,
        None => {
            return None;
        },
    };
    now.checked_sub(secs)
}

} // verus!
