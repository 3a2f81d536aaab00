use crate::bytes::{bytes_eq, clone_bytes, clone_opt_bytes};
use crate::grafana::{spec_priority, Alert, Priority};
use crate::text;
use vstd::prelude::*;

verus! {

/// The last committed state of one fingerprinted condition.
#[derive(Debug)]
pub struct PreviousEvent {
    pub last_seen: i64,
    pub first_alerted: Option<i64>,
    pub last_alerted: i64,
    pub last_status: Vec<u8>,
    pub fingerprint: Vec<u8>,
    pub priority: Option<Priority>,
    pub name: Option<Vec<u8>>,
    pub summary: Option<Vec<u8>>,
}

/// The mathematical content of a state record.
pub ghost struct PreviousEventV {
    pub last_seen: int,
    pub first_alerted: Option<int>,
    pub last_alerted: int,
    pub last_status: Seq<u8>,
    pub fingerprint: Seq<u8>,
    pub priority: Option<Priority>,
    pub name: Option<Seq<u8>>,
    pub summary: Option<Seq<u8>>,
}

/// A spec-level view of an optional timestamp.
pub open spec fn opt_int_view(o: Option<i64>) -> Option<int> {
    match o {
        Some(v) => Some(v as int),
        None => None,
    }
}

/// A spec-level view of an optional name or summary.
pub open spec fn opt_seq_view(o: Option<Vec<u8>>) -> Option<Seq<u8>> {
    match o {
        Some(v) => Some(v@),
        None => None,
    }
}

impl View for PreviousEvent {
    type V = PreviousEventV;

    open spec fn view(&self) -> PreviousEventV {
        PreviousEventV {
            last_seen: self.last_seen as int,
            first_alerted: opt_int_view(self.first_alerted),
            last_alerted: self.last_alerted as int,
            last_status: self.last_status@,
            fingerprint: self.fingerprint@,
            priority: self.priority,
            name: opt_seq_view(self.name),
            summary: opt_seq_view(self.summary),
        }
    }
}

impl PreviousEvent {
    /// The record's fingerprint.
    pub fn fingerprint(&self) -> (r: &Vec<u8>)
        ensures
            r@ == self.fingerprint@,
    {
        &self.fingerprint
    }

    /// The last committed status.
    pub fn last_status(&self) -> (r: &Vec<u8>)
        ensures
            r@ == self.last_status@,
    {
        &self.last_status
    }

    /// When the condition was last observed.
    pub fn last_seen(&self) -> (r: i64)
        ensures
            r == self.last_seen,
    {
        self.last_seen
    }

    /// When a notification was last sent for the condition.
    pub fn last_alerted(&self) -> (r: i64)
        ensures
            r == self.last_alerted,
    {
        self.last_alerted
    }

    /// When the condition first entered a non-resolved status, if it has.
    pub fn first_alerted(&self) -> (r: Option<i64>)
        ensures
            r == self.first_alerted,
    {
        self.first_alerted
    }

    /// The stored severity, if any.
    pub fn priority(&self) -> (r: Option<Priority>)
        ensures
            r == self.priority,
    {
        self.priority
    }

    /// The stored display name, if any.
    pub fn name(&self) -> (r: &Option<Vec<u8>>)
        ensures
            opt_seq_view(*r) == opt_seq_view(self.name),
    {
        &self.name
    }

    /// The stored summary, if any.
    pub fn summary(&self) -> (r: &Option<Vec<u8>>)
        ensures
            opt_seq_view(*r) == opt_seq_view(self.summary),
    {
        &self.summary
    }

    /// An owned copy of the record.
    pub fn duplicate(&self) -> (r: PreviousEvent)
        ensures
            r@ == self@,
    {
        PreviousEvent {
            last_seen: self.last_seen,
            first_alerted: self.first_alerted,
            last_alerted: self.last_alerted,
            last_status: clone_bytes(&self.last_status),
            fingerprint: clone_bytes(&self.fingerprint),
            priority: self.priority,
            name: clone_opt_bytes(&self.name),
            summary: clone_opt_bytes(&self.summary),
        }
    }
}

/// The dedup store: the last committed record of every fingerprint seen,
/// with at most one record per fingerprint.
#[derive(Debug)]
pub struct Fingerprints {
    pub data: Vec<PreviousEvent>,
}

/// The views of a sequence of records.
pub open spec fn event_views(s: Seq<PreviousEvent>) -> Seq<PreviousEventV> {
    Seq::new(s.len(), |i: int| s[i]@)
}

impl View for Fingerprints {
    type V = Seq<PreviousEventV>;

    open spec fn view(&self) -> Seq<PreviousEventV> {
        event_views(self.data@)
    }
}

/// The first position at or after `i` whose record has fingerprint `fp`.
pub open spec fn find_idx_from(s: Seq<PreviousEventV>, fp: Seq<u8>, i: int) -> Option<int>
    decreases s.len() - i,
{
    if i < 0 || i >= s.len() {
        None
    } else if s[i].fingerprint == fp {
        Some(i)
    } else {
        find_idx_from(s, fp, i + 1)
    }
}

/// The position of the record for `fp`, if one exists.
pub open spec fn find_idx(s: Seq<PreviousEventV>, fp: Seq<u8>) -> Option<int> {
    find_idx_from(s, fp, 0)
}

/// The record stored for `fp`, if one exists.
pub open spec fn lookup(s: Seq<PreviousEventV>, fp: Seq<u8>) -> Option<PreviousEventV> {
    match find_idx(s, fp) {
        None => None,
        Some(i) => Some(s[i]),
    }
}

/// A store with `e` committed under its fingerprint: the existing record
/// is replaced in place, or a new record is appended.
pub open spec fn spec_store_insert(s: Seq<PreviousEventV>, e: PreviousEventV) -> Seq<
    PreviousEventV,
> {
    match find_idx(s, e.fingerprint) {
        None => s.push(e),
        Some(i) => s.update(i, e),
    }
}

/// Dedup decision: a notification is due when the fingerprint was never
/// seen, or its committed status differs from the incoming one.
pub open spec fn spec_changed(s: Seq<PreviousEventV>, a: crate::grafana::AlertV) -> bool {
    match lookup(s, a.fingerprint) {
        None => true,
        Some(prev) => prev.last_status != a.status,
    }
}

/// The record committed by an observation that did not change status:
/// `last_seen` moves to `now`, `last_alerted` is preserved, `first_alerted`
/// is cleared on a resolved status and preserved otherwise, and the display
/// fields are refreshed from the event.
pub open spec fn spec_seen_event(
    s: Seq<PreviousEventV>,
    a: crate::grafana::AlertV,
    now: int,
) -> PreviousEventV {
    PreviousEventV {
        last_seen: now,
        first_alerted: if a.status == text::spec_status_resolved() {
            None
        } else {
            match lookup(s, a.fingerprint) {
                None => None,
                Some(prev) => prev.first_alerted,
            }
        },
        last_alerted: match lookup(s, a.fingerprint) {
            None => now,
            Some(prev) => prev.last_alerted,
        },
        last_status: a.status,
        fingerprint: a.fingerprint,
        priority: Some(spec_priority(a.status, a.alertname)),
        name: Some(a.alertname),
        summary: Some(a.summary),
    }
}

/// The store after an unchanged observation is recorded.
pub open spec fn spec_record_seen(
    s: Seq<PreviousEventV>,
    a: crate::grafana::AlertV,
    now: int,
) -> Seq<PreviousEventV> {
    spec_store_insert(s, spec_seen_event(s, a, now))
}

/// The record committed by a status change that was alerted on: every
/// timestamp moves to `now` except that `first_alerted` is cleared on a
/// resolved status and kept when already set.
pub open spec fn spec_alerted_event(
    s: Seq<PreviousEventV>,
    a: crate::grafana::AlertV,
    now: int,
) -> PreviousEventV {
    PreviousEventV {
        last_seen: now,
        first_alerted: if a.status == text::spec_status_resolved() {
            None
        } else {
            match lookup(s, a.fingerprint) {
                Some(prev) => if prev.first_alerted is Some {
                    prev.first_alerted
                } else {
                    Some(now)
                },
                None => Some(now),
            }
        },
        last_alerted: now,
        last_status: a.status,
        fingerprint: a.fingerprint,
        priority: Some(spec_priority(a.status, a.alertname)),
        name: Some(a.alertname),
        summary: Some(a.summary),
    }
}

/// The store after an alerted status change is recorded.
pub open spec fn spec_record_alerted(
    s: Seq<PreviousEventV>,
    a: crate::grafana::AlertV,
    now: int,
) -> Seq<PreviousEventV> {
    spec_store_insert(s, spec_alerted_event(s, a, now))
}

/// A reminder only moves `last_alerted` to `now`; every other field of the
/// given record is kept.
pub open spec fn spec_reminder_event(prev: PreviousEventV, now: int) -> PreviousEventV {
    PreviousEventV { last_alerted: now, ..prev }
}

/// The store after a reminder is recorded for `prev`'s fingerprint.
pub open spec fn spec_record_reminder(
    s: Seq<PreviousEventV>,
    prev: PreviousEventV,
    now: int,
) -> Seq<PreviousEventV> {
    spec_store_insert(s, spec_reminder_event(prev, now))
}

impl Fingerprints {
    /// An empty store: no fingerprint has ever been observed.
    pub fn new() -> (r: Fingerprints)
        ensures
            r@ =~= Seq::<PreviousEventV>::empty(),
    {
        Fingerprints { data: Vec::new() }
    }

    /// The stored records, in commit order.
    pub fn records(&self) -> (r: &Vec<PreviousEvent>)
        ensures
            r@.len() == self@.len(),
            forall|i: int| 0 <= i < r@.len() ==> r@[i]@ == self@[i],
    {
        &self.data
    }

    /// The position of the record for `fp`, if one exists.
    fn find_index(&self, fp: &[u8]) -> (r: Option<usize>)
        ensures
            match r {
                Some(i) => i < self.data@.len() && find_idx(self@, fp@) == Some(i as int),
                None => find_idx(self@, fp@) is None,
            },
    {
        let ghost s = self@;
        let n = self.data.len();
        let mut i: usize = 0;
        while i < n
            invariant
                0 <= i <= n == self.data@.len(),
                s == self@,
                s.len() == n,
                find_idx_from(s, fp@, 0) == find_idx_from(s, fp@, i as int),
            decreases n - i,
        {
            let record = &self.data[i];
            if bytes_eq(record.fingerprint.as_slice(), fp) {
                return Some(i);
            }
            i = i + 1;
        }
        None
    }

    /// The record stored for the alert's fingerprint, if one exists.
    pub fn get(&self, alert: &Alert) -> (r: Option<&PreviousEvent>)
        ensures
            match r {
                Some(p) => lookup(self@, alert.fingerprint@) == Some(p@),
                None => lookup(self@, alert.fingerprint@) is None,
            },
    {
        match self.find_index(alert.fingerprint.as_slice()) {
            None => None,
            Some(i) => Some(&self.data[i]),
        }
    }

    /// Commits `event` under its fingerprint, replacing any existing record.
    pub fn insert(&mut self, event: PreviousEvent)
        ensures
            final(self)@ == spec_store_insert(old(self)@, event@),
    {
        let ghost s = self@;
        match self.find_index(event.fingerprint.as_slice()) {
            None => {
                self.data.push(event);
                proof {
                    assert(self@ =~= s.push(event@));
                }
            },
            Some(i) => {
                self.data.set(i, event);
                proof {
                    assert(self@ =~= s.update(i as int, event@));
                }
            },
        }
    }

    /// Dedup decision for an incoming alert; reads only.
    pub fn changed(&self, alert: &Alert) -> (r: bool)
        ensures
            r == spec_changed(self@, alert@),
    {
        match self.find_index(alert.fingerprint.as_slice()) {
            None => true,
            Some(i) => {
                let record = &self.data[i];
                !bytes_eq(record.last_status.as_slice(), alert.status.as_slice())
            },
        }
    }

    /// Records an observation whose status did not change.
    pub fn update_last_seen(&mut self, alert: &Alert, now: i64)
        ensures
            final(self)@ == spec_record_seen(old(self)@, alert@, now as int),
    {
        let resolved = text::status_resolved();
        let idx = self.find_index(alert.fingerprint.as_slice());
        let last_alerted: i64 = match idx {
            None => now,
            Some(i) => self.data[i].last_alerted,
        };
        let first_alerted: Option<i64> = if bytes_eq(
            alert.status.as_slice(),
            resolved.as_slice(),
        ) {
            None
        } else {
            match idx {
                None => None,
                Some(i) => self.data[i].first_alerted,
            }
        };
        let event = PreviousEvent {
            last_seen: now,
            first_alerted,
            last_alerted,
            last_status: clone_bytes(&alert.status),
            fingerprint: clone_bytes(&alert.fingerprint),
            priority: Some(alert.get_priority()),
            name: Some(clone_bytes(&alert.labels.alertname)),
            summary: Some(clone_bytes(&alert.annotations.summary)),
        };
        proof {
            assert(event@ == spec_seen_event(self@, alert@, now as int));
        }
        self.insert(event);
    }

    /// Records a status change that a notification is being sent for.
    pub fn update_last_alerted(&mut self, alert: &Alert, now: i64)
        ensures
            final(self)@ == spec_record_alerted(old(self)@, alert@, now as int),
    {
        let resolved = text::status_resolved();
        let idx = self.find_index(alert.fingerprint.as_slice());
        let first_alerted: Option<i64> = if bytes_eq(
            alert.status.as_slice(),
            resolved.as_slice(),
        ) {
            None
        } else {
            match idx {
                None => Some(now),
                Some(i) => match self.data[i].first_alerted {
                    Some(t) => Some(t),
                    None => Some(now),
                },
            }
        };
        let event = PreviousEvent {
            last_seen: now,
            first_alerted,
            last_alerted: now,
            last_status: clone_bytes(&alert.status),
            fingerprint: clone_bytes(&alert.fingerprint),
            priority: Some(alert.get_priority()),
            name: Some(clone_bytes(&alert.labels.alertname)),
            summary: Some(clone_bytes(&alert.annotations.summary)),
        };
        proof {
            assert(event@ == spec_alerted_event(self@, alert@, now as int));
        }
        self.insert(event);
    }

    /// Records that a reminder was sent: the given record is committed
    /// again with only `last_alerted` moved to `now`.
    pub fn update_last_alerted_from_previous_event(
        &mut self,
        previous_event: &PreviousEvent,
        now: i64,
    )
        ensures
            final(self)@ == spec_record_reminder(old(self)@, previous_event@, now as int),
    {
        let mut event = previous_event.duplicate();
        event.last_alerted = now;
        proof {
            assert(event@ == spec_reminder_event(previous_event@, now as int));
        }
        self.insert(event);
    }
}

/// A fingerprint that was never observed always reads as changed.
pub proof fn lemma_unseen_is_changed(s: Seq<PreviousEventV>, a: crate::grafana::AlertV)
    requires
        lookup(s, a.fingerprint) is None,
    ensures
        spec_changed(s, a),
{
}

/// After a record is looked up, the inserted record is what `lookup` finds.
pub proof fn lemma_lookup_after_insert(s: Seq<PreviousEventV>, e: PreviousEventV)
    ensures
        lookup(spec_store_insert(s, e), e.fingerprint) == Some(e),
{
    match find_idx(s, e.fingerprint) {
        None => {
            lemma_find_idx_push(s, e, 0);
        },
        Some(i) => {
            lemma_find_idx_in_range(s, e.fingerprint, 0, i);
            lemma_find_idx_update(s, e, i, 0);
        },
    }
}

/// Whatever `find_idx_from` returns lies within the store and matches.
pub proof fn lemma_find_idx_in_range(s: Seq<PreviousEventV>, fp: Seq<u8>, i: int, found: int)
    requires
        find_idx_from(s, fp, i) == Some(found),
    ensures
        i <= found < s.len(),
        s[found].fingerprint == fp,
        forall|j: int| i <= j < found ==> s[j].fingerprint != fp,
    decreases s.len() - i,
{
    if i < 0 || i >= s.len() {
    } else if s[i].fingerprint == fp {
    } else {
        lemma_find_idx_in_range(s, fp, i + 1, found);
    }
}

/// Pushing a record with an unmatched fingerprint: the search from any
/// position finds exactly the pushed position.
proof fn lemma_find_idx_push(s: Seq<PreviousEventV>, e: PreviousEventV, i: int)
    requires
        0 <= i <= s.len(),
        find_idx_from(s, e.fingerprint, i) is None,
    ensures
        find_idx_from(s.push(e), e.fingerprint, i) == Some(s.len() as int),
    decreases s.len() - i,
{
    let p = s.push(e);
    if i < s.len() {
        assert(p[i] == s[i]);
        lemma_find_idx_push(s, e, i + 1);
    } else {
        assert(p[i] == e);
    }
}

/// Updating the found position in place: the search still finds it.
proof fn lemma_find_idx_update(s: Seq<PreviousEventV>, e: PreviousEventV, found: int, i: int)
    requires
        0 <= i <= found < s.len(),
        find_idx_from(s, e.fingerprint, i) == Some(found),
        s[found].fingerprint == e.fingerprint,
    ensures
        find_idx_from(s.update(found, e), e.fingerprint, i) == Some(found),
    decreases s.len() - i,
{
    let u = s.update(found, e);
    if i < found {
        assert(u[i] == s[i]);
        lemma_find_idx_update(s, e, found, i + 1);
    } else {
        assert(u[found] == e);
    }
}

/// Once a changed status is alerted and recorded, the same status reads as
/// unchanged immediately afterwards.
pub proof fn lemma_alerted_then_unchanged(
    s: Seq<PreviousEventV>,
    a: crate::grafana::AlertV,
    now: int,
)
    ensures
        !spec_changed(spec_record_alerted(s, a, now), a),
{
    lemma_lookup_after_insert(s, spec_alerted_event(s, a, now));
}

/// Status flapping always re-notifies: recording a transition to one
/// status leaves any different status reading as changed, on both legs of
/// an A to B to A round trip.
pub proof fn lemma_flapping_renotifies(
    s: Seq<PreviousEventV>,
    a: crate::grafana::AlertV,
    b: crate::grafana::AlertV,
    now1: int,
    now2: int,
)
    requires
        a.fingerprint == b.fingerprint,
        a.status != b.status,
    ensures
        spec_changed(s, a) ==> spec_changed(spec_record_alerted(s, a, now1), b),
        spec_changed(spec_record_alerted(spec_record_alerted(s, a, now1), b, now2), a),
{
    lemma_lookup_after_insert(s, spec_alerted_event(s, a, now1));
    let s1 = spec_record_alerted(s, a, now1);
    lemma_lookup_after_insert(s1, spec_alerted_event(s1, b, now2));
}

/// A record committed by an alerted status change has `first_alerted`
/// unset exactly when the new status is resolved.
pub proof fn lemma_first_alerted_after_alert(
    s: Seq<PreviousEventV>,
    a: crate::grafana::AlertV,
    now: int,
)
    ensures
        lookup(spec_record_alerted(s, a, now), a.fingerprint) is Some,
        lookup(spec_record_alerted(s, a, now), a.fingerprint).unwrap().first_alerted is None
            <==> a.status == text::spec_status_resolved(),
{
    lemma_lookup_after_insert(s, spec_alerted_event(s, a, now));
}

/// A record committed by an unchanged observation has `first_alerted`
/// unset exactly when the status is resolved or the condition has not
/// alerted since it was last resolved.
pub proof fn lemma_first_alerted_after_seen(
    s: Seq<PreviousEventV>,
    a: crate::grafana::AlertV,
    now: int,
)
    ensures
        lookup(spec_record_seen(s, a, now), a.fingerprint) is Some,
        lookup(spec_record_seen(s, a, now), a.fingerprint).unwrap().first_alerted is None <==> (
        a.status == text::spec_status_resolved() || lookup(s, a.fingerprint) is None || lookup(
            s,
            a.fingerprint,
        ).unwrap().first_alerted is None),
{
    lemma_lookup_after_insert(s, spec_seen_event(s, a, now));
}

/// The store-wide reading of the `first_alerted` discipline: a record
/// whose committed status is resolved never carries a `first_alerted`
/// timestamp.
pub open spec fn resolved_implies_unset(s: Seq<PreviousEventV>) -> bool {
    forall|i: int|
        #![trigger s[i]]
        0 <= i < s.len() ==> (s[i].last_status == text::spec_status_resolved()
            ==> s[i].first_alerted is None)
}

/// Committing any record that itself obeys the discipline preserves it.
proof fn lemma_insert_preserves_resolved_unset(s: Seq<PreviousEventV>, e: PreviousEventV)
    requires
        resolved_implies_unset(s),
        e.last_status == text::spec_status_resolved() ==> e.first_alerted is None,
    ensures
        resolved_implies_unset(spec_store_insert(s, e)),
{
    match find_idx(s, e.fingerprint) {
        None => {
            let t = s.push(e);
            assert forall|i: int|
                0 <= i < t.len() && t[i].last_status == text::spec_status_resolved() implies t[i].first_alerted is None by {
                if i < s.len() {
                    assert(t[i] == s[i]);
                } else {
                    assert(t[i] == e);
                }
            }
        },
        Some(k) => {
            lemma_find_idx_in_range(s, e.fingerprint, 0, k);
            let t = s.update(k, e);
            assert forall|i: int|
                0 <= i < t.len() && t[i].last_status == text::spec_status_resolved() implies t[i].first_alerted is None by {
                if i != k {
                    assert(t[i] == s[i]);
                } else {
                    assert(t[i] == e);
                }
            }
        },
    }
}

/// Recording an unchanged observation keeps resolved records unset.
pub proof fn lemma_seen_preserves_resolved_unset(
    s: Seq<PreviousEventV>,
    a: crate::grafana::AlertV,
    now: int,
)
    requires
        resolved_implies_unset(s),
    ensures
        resolved_implies_unset(spec_record_seen(s, a, now)),
{
    lemma_insert_preserves_resolved_unset(s, spec_seen_event(s, a, now));
}

/// Recording an alerted status change keeps resolved records unset.
pub proof fn lemma_alerted_preserves_resolved_unset(
    s: Seq<PreviousEventV>,
    a: crate::grafana::AlertV,
    now: int,
)
    requires
        resolved_implies_unset(s),
    ensures
        resolved_implies_unset(spec_record_alerted(s, a, now)),
{
    lemma_insert_preserves_resolved_unset(s, spec_alerted_event(s, a, now));
}

/// Recording a reminder for a record taken from the store keeps resolved
/// records unset.
pub proof fn lemma_reminder_preserves_resolved_unset(
    s: Seq<PreviousEventV>,
    prev: PreviousEventV,
    now: int,
)
    requires
        resolved_implies_unset(s),
        prev.last_status == text::spec_status_resolved() ==> prev.first_alerted is None,
    ensures
        resolved_implies_unset(spec_record_reminder(s, prev, now)),
{
    lemma_insert_preserves_resolved_unset(s, spec_reminder_event(prev, now));
}

} // verus!
