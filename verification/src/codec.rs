use crate::bytes::{
    all_digits, dec_digits, dec_digits_signed, digits_val, fmt_i64, is_digit, parse_u64_digits,
};
use crate::bytes::push_all;
use crate::fingerprint::{Fingerprints, PreviousEvent, PreviousEventV};
use crate::grafana::Priority;
use crate::http::matches_at;
use crate::text;
use vstd::prelude::*;

verus! {

// ---------------------------------------------------------------------
// The canonical on-disk form of the store: a JSON object
// `{"data":{<fingerprint>:<record>,...}}` with the record fields in a
// fixed order. The serializer below emits exactly this form; the parser
// accepts it back, and a file in any other shape counts as corrupt.
// ---------------------------------------------------------------------
/// Lowercase hex digit of a value below 16.
pub open spec fn hex_digit(n: int) -> u8 {
    if n < 10 {
        (48 + n) as u8
    } else {
        (87 + n) as u8
    }
}

/// The value of a hex digit, 16 for anything else.
pub open spec fn hex_val(b: u8) -> int {
    if 48 <= b <= 57 {
        b - 48
    } else if 97 <= b <= 102 {
        b - 87
    } else if 65 <= b <= 70 {
        b - 55
    } else {
        16
    }
}

/// How one byte of a JSON string is written: quotes and backslashes are
/// escaped, control bytes become `\u00xx`, and everything else is raw.
pub open spec fn esc_byte(b: u8) -> Seq<u8> {
    if b == 34 {
        seq![92u8, 34u8]
    } else if b == 92 {
        seq![92u8, 92u8]
    } else if b < 32 {
        seq![92u8, 117u8, 48u8, 48u8, hex_digit(b as int / 16), hex_digit(b as int % 16)]
    } else {
        seq![b]
    }
}

/// The escaped form of a whole string.
pub open spec fn esc(s: Seq<u8>) -> Seq<u8>
    decreases s.len(),
{
    if s.len() == 0 {
        Seq::<u8>::empty()
    } else {
        esc_byte(s[0]) + esc(s.drop_first())
    }
}

/// A string value: escaped content between double quotes.
pub open spec fn ser_string(v: Seq<u8>) -> Seq<u8> {
    seq![34u8] + esc(v) + seq![34u8]
}

/// An optional timestamp: `null` or a decimal number.
pub open spec fn ser_opt_i64(v: Option<int>) -> Seq<u8> {
    match v {
        None => text::spec_null(),
        Some(n) => dec_digits_signed(n),
    }
}

/// A severity: its variant name as a string.
pub open spec fn ser_priority(p: Priority) -> Seq<u8> {
    match p {
        Priority::VeryLow => seq![34u8] + text::spec_priority_very_low() + seq![34u8],
        Priority::Moderate => seq![34u8] + text::spec_priority_moderate() + seq![34u8],
        Priority::Normal => seq![34u8] + text::spec_priority_normal() + seq![34u8],
        Priority::High => seq![34u8] + text::spec_priority_high() + seq![34u8],
        Priority::Emergency => seq![34u8] + text::spec_priority_emergency() + seq![34u8],
    }
}

/// An optional severity: `null` or the variant name.
pub open spec fn ser_opt_priority(p: Option<Priority>) -> Seq<u8> {
    match p {
        None => text::spec_null(),
        Some(v) => ser_priority(v),
    }
}

/// An optional string: `null` or a string value.
pub open spec fn ser_opt_string(v: Option<Seq<u8>>) -> Seq<u8> {
    match v {
        None => text::spec_null(),
        Some(s) => ser_string(s),
    }
}

/// One record, with its fields in the canonical order.
#[verifier::opaque]
pub open spec fn ser_record(r: PreviousEventV) -> Seq<u8> {
    (seq![123u8] + text::spec_key_last_seen()) + (dec_digits_signed(r.last_seen) + (
    text::spec_key_first_alerted() + (ser_opt_i64(r.first_alerted) + (
    text::spec_key_last_alerted() + (dec_digits_signed(r.last_alerted) + (
    text::spec_key_last_status() + (ser_string(r.last_status) + (text::spec_key_fingerprint() + (
    ser_string(r.fingerprint) + (text::spec_key_priority() + (ser_opt_priority(r.priority) + (
    text::spec_key_name() + (ser_opt_string(r.name) + (text::spec_key_summary() + (ser_opt_string(
        r.summary,
    ) + seq![125u8])))))))))))))))
}

/// One map entry: the fingerprint as the key, then the record.
pub open spec fn ser_entry(r: PreviousEventV) -> Seq<u8> {
    ser_string(r.fingerprint) + (seq![58u8] + ser_record(r))
}

/// The comma-separated entries of a non-empty store.
pub open spec fn ser_entries(s: Seq<PreviousEventV>) -> Seq<u8>
    decreases s.len(),
{
    if s.len() == 0 {
        Seq::<u8>::empty()
    } else if s.len() == 1 {
        ser_entry(s[0])
    } else {
        ser_entry(s[0]) + (seq![44u8] + ser_entries(s.drop_first()))
    }
}

/// The whole persisted store.
pub open spec fn ser_store(s: Seq<PreviousEventV>) -> Seq<u8> {
    if s.len() == 0 {
        text::spec_store_head() + seq![125u8, 125u8]
    } else {
        text::spec_store_head() + ser_entries(s) + seq![125u8, 125u8]
    }
}

// ---------------------------------------------------------------------
// The parser, each piece returning the parsed value and the position
// just past what it consumed.
// ---------------------------------------------------------------------
/// The content of a string from just inside its opening quote, up to and
/// past the closing quote. Escape shortcuts and `\uXXXX` forms up to
/// U+007F are accepted; raw control bytes and anything else are not.
pub open spec fn p_string_body(s: Seq<u8>, i: int) -> Option<(Seq<u8>, int)>
    decreases s.len() - i,
{
    if i < 0 || i >= s.len() {
        None
    } else if s[i] == 34 {
        Some((Seq::<u8>::empty(), i + 1))
    } else if s[i] == 92 {
        if i + 1 >= s.len() {
            None
        } else {
            let e = s[i + 1];
            if e == 34 || e == 92 || e == 47 {
                match p_string_body(s, i + 2) {
                    None => None,
                    Some((rest, j)) => Some((seq![e] + rest, j)),
                }
            } else if e == 98 || e == 102 || e == 110 || e == 114 || e == 116 {
                let b: u8 = if e == 98 {
                    8u8
                } else if e == 102 {
                    12u8
                } else if e == 110 {
                    10u8
                } else if e == 114 {
                    13u8
                } else {
                    9u8
                };
                match p_string_body(s, i + 2) {
                    None => None,
                    Some((rest, j)) => Some((seq![b] + rest, j)),
                }
            } else if e == 117 {
                if i + 6 > s.len() {
                    None
                } else {
                    let v = hex_val(s[i + 2]) * 4096 + hex_val(s[i + 3]) * 256 + hex_val(s[i + 4])
                        * 16 + hex_val(s[i + 5]);
                    if hex_val(s[i + 2]) < 16 && hex_val(s[i + 3]) < 16 && hex_val(s[i + 4]) < 16
                        && hex_val(s[i + 5]) < 16 && v < 128 {
                        match p_string_body(s, i + 6) {
                            None => None,
                            Some((rest, j)) => Some((seq![v as u8] + rest, j)),
                        }
                    } else {
                        None
                    }
                }
            } else {
                None
            }
        }
    } else if s[i] < 32 {
        None
    } else {
        match p_string_body(s, i + 1) {
            None => None,
            Some((rest, j)) => Some((seq![s[i]] + rest, j)),
        }
    }
}

/// A whole string value, from its opening quote.
pub open spec fn p_string(s: Seq<u8>, i: int) -> Option<(Seq<u8>, int)> {
    if 0 <= i < s.len() && s[i] == 34 {
        p_string_body(s, i + 1)
    } else {
        None
    }
}

/// The end of the run of decimal digits starting at `i`.
pub open spec fn digits_end(s: Seq<u8>, i: int) -> int
    decreases s.len() - i,
{
    if 0 <= i < s.len() && is_digit(s[i]) {
        digits_end(s, i + 1)
    } else {
        i
    }
}

/// A signed decimal number that fits an `i64`.
pub open spec fn p_i64(s: Seq<u8>, i: int) -> Option<(int, int)> {
    if 0 <= i < s.len() && s[i] == 45 {
        let e = digits_end(s, i + 1);
        let v = digits_val(s.subrange(i + 1, e));
        if e == i + 1 || v > 0x8000_0000_0000_0000 {
            None
        } else {
            Some((-(v as int), e))
        }
    } else {
        let e = digits_end(s, i);
        let v = digits_val(s.subrange(i, e));
        if e == i || v > 0x7fff_ffff_ffff_ffff {
            None
        } else {
            Some((v as int, e))
        }
    }
}

/// Does `lit` sit at position `i` of `s`?
pub open spec fn at(s: Seq<u8>, i: int, lit: Seq<u8>) -> bool {
    matches_at(s, lit, i)
}

/// `null` or a signed number.
pub open spec fn p_opt_i64(s: Seq<u8>, i: int) -> Option<(Option<int>, int)> {
    if at(s, i, text::spec_null()) {
        Some((None, i + text::spec_null().len()))
    } else {
        match p_i64(s, i) {
            None => None,
            Some((v, j)) => Some((Some(v), j)),
        }
    }
}

/// A severity variant name as a string.
pub open spec fn p_priority(s: Seq<u8>, i: int) -> Option<(Priority, int)> {
    if at(s, i, seq![34u8] + text::spec_priority_very_low() + seq![34u8]) {
        Some((Priority::VeryLow, i + 2 + text::spec_priority_very_low().len()))
    } else if at(s, i, seq![34u8] + text::spec_priority_moderate() + seq![34u8]) {
        Some((Priority::Moderate, i + 2 + text::spec_priority_moderate().len()))
    } else if at(s, i, seq![34u8] + text::spec_priority_normal() + seq![34u8]) {
        Some((Priority::Normal, i + 2 + text::spec_priority_normal().len()))
    } else if at(s, i, seq![34u8] + text::spec_priority_high() + seq![34u8]) {
        Some((Priority::High, i + 2 + text::spec_priority_high().len()))
    } else if at(s, i, seq![34u8] + text::spec_priority_emergency() + seq![34u8]) {
        Some((Priority::Emergency, i + 2 + text::spec_priority_emergency().len()))
    } else {
        None
    }
}

/// `null` or a severity.
pub open spec fn p_opt_priority(s: Seq<u8>, i: int) -> Option<(Option<Priority>, int)> {
    if at(s, i, text::spec_null()) {
        Some((None, i + text::spec_null().len()))
    } else {
        match p_priority(s, i) {
            None => None,
            Some((v, j)) => Some((Some(v), j)),
        }
    }
}

/// `null` or a string value.
pub open spec fn p_opt_string(s: Seq<u8>, i: int) -> Option<(Option<Seq<u8>>, int)> {
    if at(s, i, text::spec_null()) {
        Some((None, i + text::spec_null().len()))
    } else {
        match p_string(s, i) {
            None => None,
            Some((v, j)) => Some((Some(v), j)),
        }
    }
}

/// One record in the canonical field order, from its opening brace to
/// just past its closing brace.
#[verifier::opaque]
pub open spec fn p_record(s: Seq<u8>, i: int) -> Option<(PreviousEventV, int)> {
    if !at(s, i, seq![123u8] + text::spec_key_last_seen()) {
        None
    } else {
        let j0 = i + 1 + text::spec_key_last_seen().len();
        match p_i64(s, j0) {
            None => None,
            Some((last_seen, j1)) => {
                if !at(s, j1, text::spec_key_first_alerted()) {
                    None
                } else {
                    match p_opt_i64(s, j1 + text::spec_key_first_alerted().len()) {
                        None => None,
                        Some((first_alerted, j2)) => {
                            if !at(s, j2, text::spec_key_last_alerted()) {
                                None
                            } else {
                                match p_i64(s, j2 + text::spec_key_last_alerted().len()) {
                                    None => None,
                                    Some((last_alerted, j3)) => {
                                        if !at(s, j3, text::spec_key_last_status()) {
                                            None
                                        } else {
                                            match p_string(
                                                s,
                                                j3 + text::spec_key_last_status().len(),
                                            ) {
                                                None => None,
                                                Some((last_status, j4)) => {
                                                    if !at(s, j4, text::spec_key_fingerprint()) {
                                                        None
                                                    } else {
                                                        match p_string(
                                                            s,
                                                            j4 + text::spec_key_fingerprint().len(),
                                                        ) {
                                                            None => None,
                                                            Some((fingerprint, j5)) => {
                                                                p_record_tail(
                                                                    s,
                                                                    j5,
                                                                    last_seen,
                                                                    first_alerted,
                                                                    last_alerted,
                                                                    last_status,
                                                                    fingerprint,
                                                                )
                                                            },
                                                        }
                                                    }
                                                },
                                            }
                                        }
                                    },
                                }
                            }
                        },
                    }
                }
            },
        }
    }
}

/// The priority, name and summary fields and the record's closing brace.
#[verifier::opaque]
pub open spec fn p_record_tail(
    s: Seq<u8>,
    i: int,
    last_seen: int,
    first_alerted: Option<int>,
    last_alerted: int,
    last_status: Seq<u8>,
    fingerprint: Seq<u8>,
) -> Option<(PreviousEventV, int)> {
    if !at(s, i, text::spec_key_priority()) {
        None
    } else {
        match p_opt_priority(s, i + text::spec_key_priority().len()) {
            None => None,
            Some((priority, j6)) => {
                if !at(s, j6, text::spec_key_name()) {
                    None
                } else {
                    match p_opt_string(s, j6 + text::spec_key_name().len()) {
                        None => None,
                        Some((name, j7)) => {
                            if !at(s, j7, text::spec_key_summary()) {
                                None
                            } else {
                                match p_opt_string(s, j7 + text::spec_key_summary().len()) {
                                    None => None,
                                    Some((summary, j8)) => {
                                        if 0 <= j8 < s.len() && s[j8] == 125 {
                                            Some(
                                                (
                                                    PreviousEventV {
                                                        last_seen,
                                                        first_alerted,
                                                        last_alerted,
                                                        last_status,
                                                        fingerprint,
                                                        priority,
                                                        name,
                                                        summary,
                                                    },
                                                    j8 + 1,
                                                ),
                                            )
                                        } else {
                                            None
                                        }
                                    },
                                }
                            }
                        },
                    }
                }
            },
        }
    }
}

/// The entries of a non-empty data object, from the first key up to and
/// past the object's closing brace.
pub open spec fn p_entry_seq(s: Seq<u8>, i: int) -> Option<(Seq<PreviousEventV>, int)>
    decreases s.len() - i,
{
    match p_string(s, i) {
        None => None,
        Some((key, j1)) => {
            if !(0 <= j1 < s.len() && s[j1] == 58) {
                None
            } else {
                match p_record(s, j1 + 1) {
                    None => None,
                    Some((rec, j2)) => {
                        if !(0 <= j2 < s.len()) {
                            None
                        } else if s[j2] == 125 {
                            Some((seq![rec], j2 + 1))
                        } else if s[j2] == 44 {
                            if j2 + 1 <= i {
                                None
                            } else {
                                match p_entry_seq(s, j2 + 1) {
                                    None => None,
                                    Some((rest, j3)) => Some((seq![rec] + rest, j3)),
                                }
                            }
                        } else {
                            None
                        }
                    },
                }
            }
        },
    }
}

/// The whole persisted store, which must span the entire input.
pub open spec fn p_store(s: Seq<u8>) -> Option<Seq<PreviousEventV>> {
    let head = text::spec_store_head();
    if !at(s, 0, head) {
        None
    } else {
        let i = head.len() as int;
        if i < s.len() && s[i] == 125 {
            if s.len() == i + 2 && s[i + 1] == 125 {
                Some(Seq::<PreviousEventV>::empty())
            } else {
                None
            }
        } else {
            match p_entry_seq(s, i) {
                None => None,
                Some((recs, j)) => {
                    if j + 1 == s.len() && s[j] == 125 {
                        Some(recs)
                    } else {
                        None
                    }
                },
            }
        }
    }
}

// ---------------------------------------------------------------------
// Executable serializer.
// ---------------------------------------------------------------------
/// Appends the escaped form of `v`.
fn esc_push(out: &mut Vec<u8>, v: &[u8])
    ensures
        final(out)@ == old(out)@ + esc(v@),
{
    let ghost base = out@;
    let n = v.len();
    let mut i: usize = 0;
    proof {
        assert(base + esc(v@.take(0)) =~= base);
    }
    while i < n
        invariant
            0 <= i <= n == v@.len(),
            out@ == base + esc(v@.take(i as int)),
        decreases n - i,
    {
        let b = v[i];
        if b == 34 {
            out.push(92);
            out.push(34);
        } else if b == 92 {
            out.push(92);
            out.push(92);
        } else if b < 32 {
            out.push(92);
            out.push(117);
            out.push(48);
            out.push(48);
            let hi = b / 16;
            let lo = b % 16;
            out.push(if hi < 10 { 48 + hi } else { 87 + hi });
            out.push(if lo < 10 { 48 + lo } else { 87 + lo });
        } else {
            out.push(b);
        }
        proof {
            lemma_esc_append_byte(v@.take(i as int), v@[i as int]);
            assert(v@.take(i + 1) =~= v@.take(i as int).push(v@[i as int]));
            assert(out@ =~= base + esc(v@.take(i + 1)));
        }
        i = i + 1;
    }
    proof {
        assert(v@.take(n as int) =~= v@);
    }
}

/// Escaping one more byte extends the escaped form.
proof fn lemma_esc_append_byte(a: Seq<u8>, b: u8)
    ensures
        esc(a.push(b)) == esc(a) + esc_byte(b),
    decreases a.len(),
{
    if a.len() == 0 {
        assert(a.push(b) =~= seq![b]);
        assert(seq![b].drop_first() =~= Seq::<u8>::empty());
        assert(esc(seq![b]) == esc_byte(b) + esc(seq![b].drop_first()));
        assert(esc_byte(b) + Seq::<u8>::empty() =~= esc_byte(b));
        assert(esc(a) + esc_byte(b) =~= esc_byte(b));
    } else {
        lemma_esc_append_byte(a.drop_first(), b);
        assert(a.push(b)[0] == a[0]);
        assert(a.push(b).drop_first() =~= a.drop_first().push(b));
        assert(esc(a) + esc_byte(b) =~= esc_byte(a[0]) + (esc(a.drop_first()) + esc_byte(b)));
    }
}

/// Appends a string value.
fn ser_string_push(out: &mut Vec<u8>, v: &[u8])
    ensures
        final(out)@ == old(out)@ + ser_string(v@),
{
    out.push(34);
    esc_push(out, v);
    out.push(34);
    proof {
        assert(out@ =~= old(out)@ + ser_string(v@));
    }
}

/// Appends `null` or a signed number.
fn ser_opt_i64_push(out: &mut Vec<u8>, v: &Option<i64>)
    ensures
        final(out)@ == old(out)@ + ser_opt_i64(crate::fingerprint::opt_int_view(*v)),
{
    match v {
        None => {
            let n = text::null();
            push_all(out, n.as_slice());
        },
        Some(t) => {
            let digits = fmt_i64(*t);
            push_all(out, digits.as_slice());
        },
    }
}

/// Appends `null` or a severity name.
fn ser_opt_priority_push(out: &mut Vec<u8>, v: &Option<Priority>)
    ensures
        final(out)@ == old(out)@ + ser_opt_priority(*v),
{
    let name: Vec<u8> = match v {
        None => {
            let n = text::null();
            push_all(out, n.as_slice());
            return ;
        },
        Some(Priority::VeryLow) => text::priority_very_low(),
        Some(Priority::Moderate) => text::priority_moderate(),
        Some(Priority::Normal) => text::priority_normal(),
        Some(Priority::High) => text::priority_high(),
        Some(Priority::Emergency) => text::priority_emergency(),
    };
    out.push(34);
    push_all(out, name.as_slice());
    out.push(34);
    proof {
        assert(out@ =~= old(out)@ + ser_opt_priority(*v));
    }
}

/// Appends `null` or a string value.
fn ser_opt_string_push(out: &mut Vec<u8>, v: &Option<Vec<u8>>)
    ensures
        final(out)@ == old(out)@ + ser_opt_string(crate::fingerprint::opt_seq_view(*v)),
{
    match v {
        None => {
            let n = text::null();
            push_all(out, n.as_slice());
        },
        Some(b) => {
            ser_string_push(out, b.as_slice());
        },
    }
}

/// Appends one record.
#[verifier::rlimit(50)]
fn ser_record_push(out: &mut Vec<u8>, r: &PreviousEvent)
    ensures
        final(out)@ == old(out)@ + ser_record(r@),
{
    out.push(123);
    let key = text::key_last_seen();
    push_all(out, key.as_slice());
    let digits = fmt_i64(r.last_seen);
    push_all(out, digits.as_slice());
    let key = text::key_first_alerted();
    push_all(out, key.as_slice());
    ser_opt_i64_push(out, &r.first_alerted);
    let key = text::key_last_alerted();
    push_all(out, key.as_slice());
    let digits = fmt_i64(r.last_alerted);
    push_all(out, digits.as_slice());
    let key = text::key_last_status();
    push_all(out, key.as_slice());
    ser_string_push(out, r.last_status.as_slice());
    let key = text::key_fingerprint();
    push_all(out, key.as_slice());
    ser_string_push(out, r.fingerprint.as_slice());
    let key = text::key_priority();
    push_all(out, key.as_slice());
    ser_opt_priority_push(out, &r.priority);
    let key = text::key_name();
    push_all(out, key.as_slice());
    ser_opt_string_push(out, &r.name);
    let key = text::key_summary();
    push_all(out, key.as_slice());
    ser_opt_string_push(out, &r.summary);
    out.push(125);
    proof {
        reveal(ser_record);
        assert(out@ =~= old(out)@ + ser_record(r@));
    }
}

/// Serializing one more entry extends the entry list.
#[verifier::rlimit(100)]
proof fn lemma_ser_entries_snoc(s: Seq<PreviousEventV>, r: PreviousEventV)
    ensures
        ser_entries(s.push(r)) == if s.len() == 0 {
            ser_entry(r)
        } else {
            ser_entries(s) + seq![44u8] + ser_entry(r)
        },
    decreases s.len(),
{
    if s.len() == 0 {
        assert(s.push(r)[0] == r);
    } else if s.len() == 1 {
        assert(s.push(r)[0] == s[0]);
        assert(s.push(r).drop_first() =~= seq![r]);
        assert(ser_entries(seq![r]) == ser_entry(seq![r][0]));
        assert(seq![r][0] == r);
        assert(ser_entries(s) + seq![44u8] + ser_entry(r) =~= ser_entry(s[0]) + seq![44u8]
            + ser_entries(s.push(r).drop_first()));
    } else {
        lemma_ser_entries_snoc(s.drop_first(), r);
        assert(s.push(r)[0] == s[0]);
        assert(s.push(r).drop_first() =~= s.drop_first().push(r));
        assert(ser_entries(s) + seq![44u8] + ser_entry(r) =~= ser_entry(s[0]) + seq![44u8] + (
        ser_entries(s.drop_first()) + seq![44u8] + ser_entry(r)));
    }
}

/// Appends one map entry: the fingerprint key, a colon, the record.
fn ser_entry_push(out: &mut Vec<u8>, record: &PreviousEvent)
    ensures
        final(out)@ == old(out)@ + ser_entry(record@),
{
    ser_string_push(out, record.fingerprint.as_slice());
    out.push(58);
    ser_record_push(out, record);
    proof {
        assert(out@ =~= old(out)@ + ser_entry(record@));
    }
}

impl Fingerprints {
    /// The canonical on-disk form of the store.
    #[verifier::rlimit(60)]
    pub fn serialize(&self) -> (r: Vec<u8>)
        ensures
            r@ == ser_store(self@),
    {
        let ghost s = self@;
        let mut out = text::store_head();
        let ghost head = out@;
        let n = self.data.len();
        let mut i: usize = 0;
        proof {
            assert(head + ser_entries(s.take(0)) =~= head);
        }
        while i < n
            invariant
                0 <= i <= n == self.data@.len(),
                s == self@,
                s.len() == n,
                out@ == head + ser_entries(s.take(i as int)),
            decreases n - i,
        {
            if i > 0 {
                out.push(44);
            }
            let record = &self.data[i];
            ser_entry_push(&mut out, record);
            proof {
                assert(record@ == s[i as int]);
                lemma_ser_entries_snoc(s.take(i as int), s[i as int]);
                assert(s.take(i + 1) =~= s.take(i as int).push(s[i as int]));
                assert(out@ =~= head + ser_entries(s.take(i + 1)));
            }
            i = i + 1;
        }
        proof {
            assert(s.take(n as int) =~= s);
        }
        out.push(125);
        out.push(125);
        proof {
            assert(out@ =~= ser_store(s));
        }
        out
    }
}

// ---------------------------------------------------------------------
// Executable parser.
// ---------------------------------------------------------------------
/// Does `lit` sit at position `i` of `s`?
fn lit_at(s: &[u8], i: usize, lit: &[u8]) -> (r: bool)
    ensures
        r == at(s@, i as int, lit@),
        r ==> i + lit@.len() <= s@.len() <= usize::MAX,
{
    if lit.len() > s.len() || i > s.len() - lit.len() {
        return false;
    }
    let mut k: usize = 0;
    while k < lit.len()
        invariant
            0 <= k <= lit@.len(),
            i + lit@.len() <= s@.len() <= usize::MAX,
            forall|m: int| 0 <= m < k ==> s@[i + m] == lit@[m],
        decreases lit.len() - k,
    {
        if s[i + k] != lit[k] {
            proof {
                assert(s@[i + k] != lit@[k as int]);
            }
            return false;
        }
        k = k + 1;
    }
    true
}

/// Parses a string's content from just inside its opening quote.
fn parse_string_body(s: &[u8], i: usize) -> (r: Option<(Vec<u8>, usize)>)
    ensures
        match r {
            Some((v, j)) => p_string_body(s@, i as int) == Some((v@, j as int)),
            None => p_string_body(s@, i as int) is None,
        },
    decreases s@.len() - i,
{
    if i >= s.len() {
        return None;
    }
    let b = s[i];
    if b == 34 {
        return Some((Vec::new(), i + 1));
    }
    if b == 92 {
        if i + 1 >= s.len() {
            return None;
        }
        let e = s[i + 1];
        if e == 34 || e == 92 || e == 47 {
            match parse_string_body(s, i + 2) {
                None => None,
                Some((mut rest, j)) => {
                    rest.insert(0, e);
                    proof {
                        assert(rest@ =~= seq![e] + rest@.drop_first());
                    }
                    Some((rest, j))
                },
            }
        } else if e == 98 || e == 102 || e == 110 || e == 114 || e == 116 {
            let decoded: u8 = if e == 98 {
                8
            } else if e == 102 {
                12
            } else if e == 110 {
                10
            } else if e == 114 {
                13
            } else {
                9
            };
            match parse_string_body(s, i + 2) {
                None => None,
                Some((mut rest, j)) => {
                    rest.insert(0, decoded);
                    proof {
                        assert(rest@ =~= seq![decoded] + rest@.drop_first());
                    }
                    Some((rest, j))
                },
            }
        } else if e == 117 {
            if s.len() - i < 6 {
                return None;
            }
            let h1 = hex_val_exec(s[i + 2]);
            let h2 = hex_val_exec(s[i + 3]);
            let h3 = hex_val_exec(s[i + 4]);
            let h4 = hex_val_exec(s[i + 5]);
            let v: u32 = (h1 as u32) * 4096 + (h2 as u32) * 256 + (h3 as u32) * 16 + (h4 as u32);
            if h1 < 16 && h2 < 16 && h3 < 16 && h4 < 16 && v < 128 {
                match parse_string_body(s, i + 6) {
                    None => None,
                    Some((mut rest, j)) => {
                        rest.insert(0, v as u8);
                        proof {
                            assert(rest@ =~= seq![(v as u8)] + rest@.drop_first());
                        }
                        Some((rest, j))
                    },
                }
            } else {
                None
            }
        } else {
            None
        }
    } else if b < 32 {
        None
    } else {
        match parse_string_body(s, i + 1) {
            None => None,
            Some((mut rest, j)) => {
                rest.insert(0, b);
                proof {
                    assert(rest@ =~= seq![b] + rest@.drop_first());
                }
                Some((rest, j))
            },
        }
    }
}

/// The value of a hex digit, 16 for anything else.
fn hex_val_exec(b: u8) -> (r: u8)
    ensures
        r as int == hex_val(b),
{
    if 48 <= b && b <= 57 {
        b - 48
    } else if 97 <= b && b <= 102 {
        b - 87
    } else if 65 <= b && b <= 70 {
        b - 55
    } else {
        16
    }
}

/// Parses a string value from its opening quote.
fn parse_string(s: &[u8], i: usize) -> (r: Option<(Vec<u8>, usize)>)
    ensures
        match r {
            Some((v, j)) => p_string(s@, i as int) == Some((v@, j as int)),
            None => p_string(s@, i as int) is None,
        },
{
    if i < s.len() && s[i] == 34 {
        parse_string_body(s, i + 1)
    } else {
        None
    }
}

/// The end of the run of decimal digits starting at `i`.
fn digits_end_exec(s: &[u8], i: usize) -> (r: usize)
    requires
        i <= s@.len(),
    ensures
        r as int == digits_end(s@, i as int),
        i <= r <= s@.len(),
    decreases s@.len() - i,
{
    if i < s.len() && 48 <= s[i] && s[i] <= 57 {
        digits_end_exec(s, i + 1)
    } else {
        i
    }
}

/// Parses a signed decimal number that fits an `i64`.
fn parse_i64(s: &[u8], i: usize) -> (r: Option<(i64, usize)>)
    requires
        i <= s@.len(),
    ensures
        match r {
            Some((v, j)) => p_i64(s@, i as int) == Some((v as int, j as int)),
            None => p_i64(s@, i as int) is None,
        },
{
    if i < s.len() && s[i] == 45 {
        let e = digits_end_exec(s, i + 1);
        if e == i + 1 {
            return None;
        }
        proof {
            lemma_digits_end_digits(s@, i + 1);
        }
        match parse_u64_digits(s, i + 1, e) {
            None => None,
            Some(v) => {
                if v > 0x8000_0000_0000_0000u64 {
                    None
                } else if v == 0x8000_0000_0000_0000u64 {
                    Some((i64::MIN, e))
                } else {
                    Some((-(v as i64), e))
                }
            },
        }
    } else {
        let e = digits_end_exec(s, i);
        if e == i {
            return None;
        }
        proof {
            lemma_digits_end_digits(s@, i as int);
        }
        match parse_u64_digits(s, i, e) {
            None => None,
            Some(v) => {
                if v > 0x7fff_ffff_ffff_ffffu64 {
                    None
                } else {
                    Some((v as i64, e))
                }
            },
        }
    }
}

/// Every byte before the end of a digit run is a digit.
proof fn lemma_digits_end_digits(s: Seq<u8>, i: int)
    requires
        0 <= i <= s.len(),
    ensures
        i <= digits_end(s, i) <= s.len(),
        all_digits(s.subrange(i, digits_end(s, i))),
        digits_end(s, i) < s.len() ==> !is_digit(s[digits_end(s, i)]),
    decreases s.len() - i,
{
    if 0 <= i < s.len() && is_digit(s[i]) {
        lemma_digits_end_digits(s, i + 1);
        let e = digits_end(s, i);
        assert(s.subrange(i + 1, e) =~= s.subrange(i, e).drop_first());
        assert forall|m: int| 0 <= m < e - i implies is_digit(s.subrange(i, e)[m]) by {
            if m > 0 {
                assert(s.subrange(i + 1, e)[m - 1] == s.subrange(i, e)[m]);
            }
        }
    }
}

/// Parses `null` or a signed number.
fn parse_opt_i64(s: &[u8], i: usize) -> (r: Option<(Option<i64>, usize)>)
    requires
        i <= s@.len(),
    ensures
        match r {
            Some((v, j)) => p_opt_i64(s@, i as int) == Some(
                (crate::fingerprint::opt_int_view(v), j as int),
            ),
            None => p_opt_i64(s@, i as int) is None,
        },
{
    let null_lit = text::null();
    if lit_at(s, i, null_lit.as_slice()) {
        proof {
            assert(i + text::spec_null().len() <= s@.len());
        }
        return Some((None, i + null_lit.len()));
    }
    match parse_i64(s, i) {
        None => None,
        Some((v, j)) => Some((Some(v), j)),
    }
}

/// Parses a severity variant name.
fn parse_priority(s: &[u8], i: usize) -> (r: Option<(Priority, usize)>)
    requires
        i <= s@.len(),
    ensures
        match r {
            Some((v, j)) => p_priority(s@, i as int) == Some((v, j as int)),
            None => p_priority(s@, i as int) is None,
        },
{
    let mut name = text::priority_very_low();
    let mut quoted: Vec<u8> = Vec::new();
    quoted.push(34);
    push_all(&mut quoted, name.as_slice());
    quoted.push(34);
    proof {
        assert(quoted@ =~= seq![34u8] + text::spec_priority_very_low() + seq![34u8]);
    }
    if lit_at(s, i, quoted.as_slice()) {
        proof {
            assert(i + 2 + text::spec_priority_very_low().len() <= s@.len());
        }
        return Some((Priority::VeryLow, i + quoted.len()));
    }
    name = text::priority_moderate();
    let mut quoted: Vec<u8> = Vec::new();
    quoted.push(34);
    push_all(&mut quoted, name.as_slice());
    quoted.push(34);
    proof {
        assert(quoted@ =~= seq![34u8] + text::spec_priority_moderate() + seq![34u8]);
    }
    if lit_at(s, i, quoted.as_slice()) {
        return Some((Priority::Moderate, i + quoted.len()));
    }
    name = text::priority_normal();
    let mut quoted: Vec<u8> = Vec::new();
    quoted.push(34);
    push_all(&mut quoted, name.as_slice());
    quoted.push(34);
    proof {
        assert(quoted@ =~= seq![34u8] + text::spec_priority_normal() + seq![34u8]);
    }
    if lit_at(s, i, quoted.as_slice()) {
        return Some((Priority::Normal, i + quoted.len()));
    }
    name = text::priority_high();
    let mut quoted: Vec<u8> = Vec::new();
    quoted.push(34);
    push_all(&mut quoted, name.as_slice());
    quoted.push(34);
    proof {
        assert(quoted@ =~= seq![34u8] + text::spec_priority_high() + seq![34u8]);
    }
    if lit_at(s, i, quoted.as_slice()) {
        return Some((Priority::High, i + quoted.len()));
    }
    name = text::priority_emergency();
    let mut quoted: Vec<u8> = Vec::new();
    quoted.push(34);
    push_all(&mut quoted, name.as_slice());
    quoted.push(34);
    proof {
        assert(quoted@ =~= seq![34u8] + text::spec_priority_emergency() + seq![34u8]);
    }
    if lit_at(s, i, quoted.as_slice()) {
        return Some((Priority::Emergency, i + quoted.len()));
    }
    None
}

/// Parses `null` or a severity.
fn parse_opt_priority(s: &[u8], i: usize) -> (r: Option<(Option<Priority>, usize)>)
    requires
        i <= s@.len(),
    ensures
        match r {
            Some((v, j)) => p_opt_priority(s@, i as int) == Some((v, j as int)),
            None => p_opt_priority(s@, i as int) is None,
        },
{
    let null_lit = text::null();
    if lit_at(s, i, null_lit.as_slice()) {
        return Some((None, i + null_lit.len()));
    }
    match parse_priority(s, i) {
        None => None,
        Some((v, j)) => Some((Some(v), j)),
    }
}

/// Parses `null` or a string value.
fn parse_opt_string(s: &[u8], i: usize) -> (r: Option<(Option<Vec<u8>>, usize)>)
    requires
        i <= s@.len(),
    ensures
        match r {
            Some((v, j)) => p_opt_string(s@, i as int) == Some(
                (crate::fingerprint::opt_seq_view(v), j as int),
            ),
            None => p_opt_string(s@, i as int) is None,
        },
{
    let null_lit = text::null();
    if lit_at(s, i, null_lit.as_slice()) {
        return Some((None, i + null_lit.len()));
    }
    match parse_string(s, i) {
        None => None,
        Some((v, j)) => Some((Some(v), j)),
    }
}

/// Parses one record in the canonical field order.
fn parse_record(s: &[u8], i: usize) -> (r: Option<(PreviousEvent, usize)>)
    ensures
        match r {
            Some((rec, j)) => p_record(s@, i as int) == Some((rec@, j as int)),
            None => p_record(s@, i as int) is None,
        },
{
    proof {
        reveal(p_record);
        reveal(p_record_tail);
    }
    let mut opener: Vec<u8> = Vec::new();
    opener.push(123);
    let key = text::key_last_seen();
    push_all(&mut opener, key.as_slice());
    proof {
        assert(opener@ =~= seq![123u8] + text::spec_key_last_seen());
    }
    if !lit_at(s, i, opener.as_slice()) {
        return None;
    }
    let j0 = i + opener.len();
    let (last_seen, j1) = match parse_i64(s, j0) {
        None => {
            return None;
        },
        Some(v) => v,
    };
    let key = text::key_first_alerted();
    if !lit_at(s, j1, key.as_slice()) {
        return None;
    }
    let (first_alerted, j2) = match parse_opt_i64(s, j1 + key.len()) {
        None => {
            return None;
        },
        Some(v) => v,
    };
    let key = text::key_last_alerted();
    if !lit_at(s, j2, key.as_slice()) {
        return None;
    }
    let (last_alerted, j3) = match parse_i64(s, j2 + key.len()) {
        None => {
            return None;
        },
        Some(v) => v,
    };
    let key = text::key_last_status();
    if !lit_at(s, j3, key.as_slice()) {
        return None;
    }
    let (last_status, j4) = match parse_string(s, j3 + key.len()) {
        None => {
            return None;
        },
        Some(v) => v,
    };
    let key = text::key_fingerprint();
    if !lit_at(s, j4, key.as_slice()) {
        return None;
    }
    let (fingerprint, j5) = match parse_string(s, j4 + key.len()) {
        None => {
            return None;
        },
        Some(v) => v,
    };
    let key = text::key_priority();
    if !lit_at(s, j5, key.as_slice()) {
        return None;
    }
    let (priority, j6) = match parse_opt_priority(s, j5 + key.len()) {
        None => {
            return None;
        },
        Some(v) => v,
    };
    let key = text::key_name();
    if !lit_at(s, j6, key.as_slice()) {
        return None;
    }
    let (name, j7) = match parse_opt_string(s, j6 + key.len()) {
        None => {
            return None;
        },
        Some(v) => v,
    };
    let key = text::key_summary();
    if !lit_at(s, j7, key.as_slice()) {
        return None;
    }
    let (summary, j8) = match parse_opt_string(s, j7 + key.len()) {
        None => {
            return None;
        },
        Some(v) => v,
    };
    if j8 < s.len() && s[j8] == 125 {
        let rec = PreviousEvent {
            last_seen,
            first_alerted,
            last_alerted,
            last_status,
            fingerprint,
            priority,
            name,
            summary,
        };
        Some((rec, j8 + 1))
    } else {
        None
    }
}

/// Parses the entries of a non-empty data object.
fn parse_entry_seq(s: &[u8], i: usize) -> (r: Option<(Vec<PreviousEvent>, usize)>)
    ensures
        match r {
            Some((v, j)) => p_entry_seq(s@, i as int) == Some(
                (crate::fingerprint::event_views(v@), j as int),
            ),
            None => p_entry_seq(s@, i as int) is None,
        },
    decreases s@.len() - i,
{
    let (_key, j1) = match parse_string(s, i) {
        None => {
            return None;
        },
        Some(v) => v,
    };
    proof {
        lemma_p_string_in_range(s@, i as int);
    }
    if !(j1 < s.len() && s[j1] == 58) {
        return None;
    }
    let (rec, j2) = match parse_record(s, j1 + 1) {
        None => {
            return None;
        },
        Some(v) => v,
    };
    if !(j2 < s.len()) {
        return None;
    }
    if s[j2] == 125 {
        let mut v: Vec<PreviousEvent> = Vec::new();
        v.push(rec);
        proof {
            assert(crate::fingerprint::event_views(v@) =~= seq![rec@]);
        }
        return Some((v, j2 + 1));
    }
    if s[j2] == 44 {
        if j2 + 1 <= i {
            return None;
        }
        match parse_entry_seq(s, j2 + 1) {
            None => None,
            Some((mut rest, j3)) => {
                rest.insert(0, rec);
                proof {
                    assert(crate::fingerprint::event_views(rest@) =~= seq![rec@]
                        + crate::fingerprint::event_views(rest@.drop_first()));
                }
                Some((rest, j3))
            },
        }
    } else {
        None
    }
}

/// A parsed string never ends beyond the input.
proof fn lemma_p_string_in_range(s: Seq<u8>, i: int)
    ensures
        match p_string(s, i) {
            Some((v, j)) => i < j <= s.len(),
            None => true,
        },
{
    if 0 <= i < s.len() && s[i] == 34 {
        lemma_p_string_body_in_range(s, i + 1);
    }
}

/// A parsed string body always makes progress and stays in range.
proof fn lemma_p_string_body_in_range(s: Seq<u8>, i: int)
    ensures
        match p_string_body(s, i) {
            Some((v, j)) => i < j <= s.len(),
            None => true,
        },
    decreases s.len() - i,
{
    if i < 0 || i >= s.len() {
    } else if s[i] == 34 {
    } else if s[i] == 92 {
        if i + 1 < s.len() {
            let e = s[i + 1];
            if e == 34 || e == 92 || e == 47 || e == 98 || e == 102 || e == 110 || e == 114 || e
                == 116 {
                lemma_p_string_body_in_range(s, i + 2);
            } else if e == 117 && i + 6 <= s.len() {
                lemma_p_string_body_in_range(s, i + 6);
            }
        }
    } else if s[i] < 32 {
    } else {
        lemma_p_string_body_in_range(s, i + 1);
    }
}

/// Parses a whole persisted store.
fn parse_store(s: &[u8]) -> (r: Option<Vec<PreviousEvent>>)
    ensures
        match r {
            Some(v) => p_store(s@) == Some(crate::fingerprint::event_views(v@)),
            None => p_store(s@) is None,
        },
{
    let head = text::store_head();
    if !lit_at(s, 0, head.as_slice()) {
        return None;
    }
    let i = head.len();
    if i < s.len() && s[i] == 125 {
        if s.len() == i + 2 && s[i + 1] == 125 {
            proof {
                assert(crate::fingerprint::event_views(Seq::<PreviousEvent>::empty())
                    =~= Seq::<PreviousEventV>::empty());
            }
            return Some(Vec::new());
        }
        return None;
    }
    match parse_entry_seq(s, i) {
        None => None,
        Some((v, j)) => {
            if j < s.len() && j + 1 == s.len() && s[j] == 125 {
                Some(v)
            } else {
                None
            }
        },
    }
}

impl Fingerprints {
    /// Loads a store from the contents of its file, or yields the empty
    /// store when there is no file or it does not parse.
    pub fn load_or_default(contents: Option<&Vec<u8>>) -> (r: Fingerprints)
        ensures
            match contents {
                None => r@ == Seq::<PreviousEventV>::empty(),
                Some(bytes) => match p_store(bytes@) {
                    Some(recs) => r@ == recs,
                    None => r@ == Seq::<PreviousEventV>::empty(),
                },
            },
    {
        proof {
            assert(crate::fingerprint::event_views(Seq::<PreviousEvent>::empty())
                =~= Seq::<PreviousEventV>::empty());
        }
        match contents {
            None => Fingerprints { data: Vec::new() },
            Some(bytes) => match parse_store(bytes.as_slice()) {
                Some(v) => Fingerprints { data: v },
                None => Fingerprints { data: Vec::new() },
            },
        }
    }
}

// ---------------------------------------------------------------------
// The legacy on-disk form: a flat JSON object mapping each fingerprint
// to its last status string. It is read once at startup and rewritten in
// the current form.
// ---------------------------------------------------------------------
/// The pairs of a non-empty legacy object, from the first key up to and
/// past the object's closing brace.
pub open spec fn p_legacy_entry_seq(s: Seq<u8>, i: int) -> Option<(Seq<(Seq<u8>, Seq<u8>)>, int)>
    decreases s.len() - i,
{
    match p_string(s, i) {
        None => None,
        Some((key, j1)) => {
            if !(0 <= j1 < s.len() && s[j1] == 58) {
                None
            } else {
                match p_string(s, j1 + 1) {
                    None => None,
                    Some((value, j2)) => {
                        if !(0 <= j2 < s.len()) {
                            None
                        } else if s[j2] == 125 {
                            Some((seq![(key, value)], j2 + 1))
                        } else if s[j2] == 44 {
                            if j2 + 1 <= i {
                                None
                            } else {
                                match p_legacy_entry_seq(s, j2 + 1) {
                                    None => None,
                                    Some((rest, j3)) => Some((seq![(key, value)] + rest, j3)),
                                }
                            }
                        } else {
                            None
                        }
                    },
                }
            }
        },
    }
}

/// A whole legacy store file, which must span the entire input.
pub open spec fn p_legacy(s: Seq<u8>) -> Option<Seq<(Seq<u8>, Seq<u8>)>> {
    if !(s.len() >= 1 && s[0] == 123) {
        None
    } else if 1 < s.len() && s[1] == 125 {
        if s.len() == 2 {
            Some(Seq::<(Seq<u8>, Seq<u8>)>::empty())
        } else {
            None
        }
    } else {
        match p_legacy_entry_seq(s, 1) {
            None => None,
            Some((pairs, j)) => {
                if j == s.len() {
                    Some(pairs)
                } else {
                    None
                }
            },
        }
    }
}

/// The records a legacy mapping migrates to: both timestamps set to the
/// migration time, everything optional left unset.
pub open spec fn migrated(pairs: Seq<(Seq<u8>, Seq<u8>)>, now: int) -> Seq<PreviousEventV> {
    Seq::new(
        pairs.len(),
        |i: int|
            PreviousEventV {
                last_seen: now,
                first_alerted: None,
                last_alerted: now,
                last_status: pairs[i].1,
                fingerprint: pairs[i].0,
                priority: None,
                name: None,
                summary: None,
            },
    )
}

/// Parses the pairs of a non-empty legacy object.
fn parse_legacy_entry_seq(s: &[u8], i: usize) -> (r: Option<(Vec<(Vec<u8>, Vec<u8>)>, usize)>)
    ensures
        match r {
            Some((v, j)) => p_legacy_entry_seq(s@, i as int) == Some((pair_views(v@), j as int)),
            None => p_legacy_entry_seq(s@, i as int) is None,
        },
    decreases s@.len() - i,
{
    let (key, j1) = match parse_string(s, i) {
        None => {
            return None;
        },
        Some(v) => v,
    };
    proof {
        lemma_p_string_in_range(s@, i as int);
    }
    if !(j1 < s.len() && s[j1] == 58) {
        return None;
    }
    let (value, j2) = match parse_string(s, j1 + 1) {
        None => {
            return None;
        },
        Some(v) => v,
    };
    if !(j2 < s.len()) {
        return None;
    }
    if s[j2] == 125 {
        let mut v: Vec<(Vec<u8>, Vec<u8>)> = Vec::new();
        v.push((key, value));
        proof {
            assert(pair_views(v@) =~= seq![(key@, value@)]);
        }
        return Some((v, j2 + 1));
    }
    if s[j2] == 44 {
        if j2 + 1 <= i {
            return None;
        }
        match parse_legacy_entry_seq(s, j2 + 1) {
            None => None,
            Some((mut rest, j3)) => {
                rest.insert(0, (key, value));
                proof {
                    assert(pair_views(rest@) =~= seq![(rest@[0].0@, rest@[0].1@)] + pair_views(
                        rest@.drop_first(),
                    ));
                }
                Some((rest, j3))
            },
        }
    } else {
        None
    }
}

/// The views of a sequence of byte-string pairs.
pub open spec fn pair_views(s: Seq<(Vec<u8>, Vec<u8>)>) -> Seq<(Seq<u8>, Seq<u8>)> {
    Seq::new(s.len(), |i: int| (s[i].0@, s[i].1@))
}

impl Fingerprints {
    /// Reads a legacy store file and rewrites it in the current form,
    /// stamping every record with the migration time. Fails when the
    /// contents are not a legacy mapping, which the caller ignores.
    pub fn migrate_v1(contents: &Vec<u8>, now: i64) -> (r: Result<Vec<u8>, ()>)
        ensures
            match r {
                Ok(out) => p_legacy(contents@) is Some && out@ == ser_store(
                    migrated(p_legacy(contents@).unwrap(), now as int),
                ),
                Err(_) => p_legacy(contents@) is None,
            },
    {
        let s = contents.as_slice();
        if !(s.len() >= 1 && s[0] == 123) {
            return Err(());
        }
        if 1 < s.len() && s[1] == 125 {
            if s.len() == 2 {
                let empty = Fingerprints { data: Vec::new() };
                proof {
                    assert(empty@ =~= migrated(Seq::<(Seq<u8>, Seq<u8>)>::empty(), now as int));
                }
                return Ok(empty.serialize());
            }
            return Err(());
        }
        let (pairs, j) = match parse_legacy_entry_seq(s, 1) {
            None => {
                return Err(());
            },
            Some(v) => v,
        };
        if j != s.len() {
            return Err(());
        }
        let mut data: Vec<PreviousEvent> = Vec::new();
        let n = pairs.len();
        let mut i: usize = 0;
        while i < n
            invariant
                0 <= i <= n == pairs@.len(),
                data@.len() == i,
                forall|m: int|
                    0 <= m < i ==> data@[m]@ == migrated(pair_views(pairs@), now as int)[m],
            decreases n - i,
        {
            let pair = &pairs[i];
            let record = PreviousEvent {
                last_seen: now,
                first_alerted: None,
                last_alerted: now,
                last_status: crate::bytes::clone_bytes(&pair.1),
                fingerprint: crate::bytes::clone_bytes(&pair.0),
                priority: None,
                name: None,
                summary: None,
            };
            data.push(record);
            i = i + 1;
        }
        let store = Fingerprints { data };
        proof {
            assert(store@ =~= migrated(pair_views(pairs@), now as int));
        }
        Ok(store.serialize())
    }
}

// ---------------------------------------------------------------------
// The round trip: parsing what the serializer wrote yields the store
// back, field for field.
// ---------------------------------------------------------------------
/// A record whose timestamps fit `i64`, as every record held by an
/// executable store does.
pub open spec fn rec_wf(r: PreviousEventV) -> bool {
    &&& i64::MIN <= r.last_seen <= i64::MAX
    &&& i64::MIN <= r.last_alerted <= i64::MAX
    &&& match r.first_alerted {
        Some(t) => i64::MIN <= t <= i64::MAX,
        None => true,
    }
}

/// When the region `[i, j)` of `s` reads `a + b`, then `a` sits at `i`
/// and `b` fills the rest of the region.
proof fn lemma_peel(s: Seq<u8>, i: int, j: int, a: Seq<u8>, b: Seq<u8>)
    requires
        0 <= i <= j <= s.len(),
        s.subrange(i, j) == a + b,
    ensures
        j - i == a.len() + b.len(),
        at(s, i, a),
        s.subrange(i, i + a.len()) == a,
        s.subrange(i + a.len(), j) == b,
{
    assert(s.subrange(i, j).len() == j - i);
    assert((a + b).len() == a.len() + b.len());
    assert(j - i == a.len() + b.len());
    assert forall|m: int| 0 <= m < a.len() implies s[i + m] == a[m] by {
        assert(s.subrange(i, j)[m] == s[i + m]);
        assert((a + b)[m] == a[m]);
    }
    assert(s.subrange(i, i + a.len()) =~= a);
    assert forall|m: int| 0 <= m < b.len() implies s.subrange(i + a.len(), j)[m] == b[m] by {
        assert(s.subrange(i, j)[a.len() + m] == s[i + a.len() + m]);
        assert((a + b)[a.len() + m] == b[m]);
    }
    assert(s.subrange(i + a.len(), j) =~= b);
}

/// Parsing the escaped form of `v`, closing quote included, yields `v`.
proof fn lemma_string_body_roundtrip(s: Seq<u8>, i: int, v: Seq<u8>, j: int)
    requires
        0 <= i <= j <= s.len(),
        s.subrange(i, j) == esc(v) + seq![34u8],
    ensures
        p_string_body(s, i) == Some((v, j)),
    decreases v.len(),
{
    if v.len() == 0 {
        assert(esc(v) + seq![34u8] =~= seq![34u8]);
        assert(s[i] == s.subrange(i, j)[0]);
        assert(j == i + 1);
    } else {
        let b = v[0];
        let rest_text = esc(v.drop_first()) + seq![34u8];
        assert(esc(v) + seq![34u8] =~= esc_byte(b) + rest_text);
        lemma_peel(s, i, j, esc_byte(b), rest_text);
        let k = i + esc_byte(b).len();
        lemma_string_body_roundtrip(s, k, v.drop_first(), j);
        if b == 34 || b == 92 {
            assert(s[i] == esc_byte(b)[0]);
            assert(s[i + 1] == esc_byte(b)[1]);
            assert(seq![b] + v.drop_first() =~= v);
        } else if b < 32 {
            assert(s[i] == esc_byte(b)[0]);
            assert(s[i + 1] == esc_byte(b)[1]);
            assert(s[i + 2] == esc_byte(b)[2]);
            assert(s[i + 3] == esc_byte(b)[3]);
            assert(s[i + 4] == esc_byte(b)[4]);
            assert(s[i + 5] == esc_byte(b)[5]);
            let hi = b as int / 16;
            let lo = b as int % 16;
            assert(hex_val(48u8) == 0);
            assert(hex_val(hex_digit(hi)) == hi);
            assert(hex_val(hex_digit(lo)) == lo);
            assert(hi * 16 + lo == b) by {
                vstd::arithmetic::div_mod::lemma_fundamental_div_mod(b as int, 16);
            }
            assert(seq![b] + v.drop_first() =~= v);
        } else {
            assert(s[i] == esc_byte(b)[0]);
            assert(seq![b] + v.drop_first() =~= v);
        }
    }
}

/// Parsing a serialized string value yields the string back.
proof fn lemma_string_roundtrip(s: Seq<u8>, i: int, v: Seq<u8>, j: int)
    requires
        0 <= i <= j <= s.len(),
        s.subrange(i, j) == ser_string(v),
    ensures
        p_string(s, i) == Some((v, j)),
{
    assert(ser_string(v) =~= seq![34u8] + (esc(v) + seq![34u8]));
    lemma_peel(s, i, j, seq![34u8], esc(v) + seq![34u8]);
    assert(s[i] == s.subrange(i, i + 1)[0]);
    assert(s[i] == 34);
    lemma_string_body_roundtrip(s, i + 1, v, j);
}

/// A run of digits ends exactly at the first non-digit.
proof fn lemma_digits_end_exact(s: Seq<u8>, a: int, j: int)
    requires
        0 <= a <= j < s.len(),
        forall|m: int| a <= m < j ==> is_digit(s[m]),
        !is_digit(s[j]),
    ensures
        digits_end(s, a) == j,
    decreases j - a,
{
    if a < j {
        lemma_digits_end_exact(s, a + 1, j);
    }
}

/// Parsing a serialized signed number, followed by a non-digit, yields
/// the number back.
proof fn lemma_i64_roundtrip(s: Seq<u8>, i: int, n: int, j: int)
    requires
        0 <= i <= j < s.len(),
        i64::MIN <= n <= i64::MAX,
        s.subrange(i, j) == dec_digits_signed(n),
        !is_digit(s[j]),
    ensures
        p_i64(s, i) == Some((n, j)),
{
    if n >= 0 {
        crate::bytes::lemma_dec_digits_val(n as nat);
        let d = dec_digits(n as nat);
        assert forall|m: int| i <= m < j implies is_digit(s[m]) by {
            assert(s.subrange(i, j)[m - i] == s[m]);
        }
        lemma_digits_end_exact(s, i, j);
        assert(s[i] == d[0]);
        assert(is_digit(s[i]));
        assert(s[i] != 45);
        assert(s.subrange(i, j) == d);
        assert(digits_val(s.subrange(i, digits_end(s, i))) == n);
    } else {
        let d = dec_digits((-n) as nat);
        crate::bytes::lemma_dec_digits_val((-n) as nat);
        assert(dec_digits_signed(n) =~= seq![45u8] + d);
        lemma_peel(s, i, j, seq![45u8], d);
        assert(s[i] == s.subrange(i, i + 1)[0]);
        assert(s[i] == 45);
        assert forall|m: int| i + 1 <= m < j implies is_digit(s[m]) by {
            assert(s.subrange(i + 1, j)[m - i - 1] == s[m]);
        }
        lemma_digits_end_exact(s, i + 1, j);
        assert(s.subrange(i + 1, j) == d);
        assert(digits_val(s.subrange(i + 1, digits_end(s, i + 1))) == -n);
        assert(-n <= 0x8000_0000_0000_0000);
    }
}

/// Parsing a serialized optional number yields it back.
proof fn lemma_opt_i64_roundtrip(s: Seq<u8>, i: int, o: Option<int>, j: int)
    requires
        0 <= i <= j < s.len(),
        match o {
            Some(n) => i64::MIN <= n <= i64::MAX,
            None => true,
        },
        s.subrange(i, j) == ser_opt_i64(o),
        !is_digit(s[j]),
    ensures
        p_opt_i64(s, i) == Some((o, j)),
{
    match o {
        None => {
            assert(text::spec_null() + Seq::<u8>::empty() =~= text::spec_null());
            lemma_peel(s, i, j, text::spec_null(), Seq::<u8>::empty());
            assert(j == i + text::spec_null().len());
        },
        Some(n) => {
            lemma_i64_roundtrip(s, i, n, j);
            crate::bytes::lemma_dec_digits_val(if n >= 0 {
                n as nat
            } else {
                (-n) as nat
            });
            assert(j - i == dec_digits_signed(n).len());
            assert(s[i] == s.subrange(i, j)[0]);
            if at(s, i, text::spec_null()) {
                assert(s[i] == text::spec_null()[0]);
                assert(false);
            }
        },
    }
}

/// Parsing a serialized optional severity yields it back.
proof fn lemma_opt_priority_roundtrip(s: Seq<u8>, i: int, o: Option<Priority>, j: int)
    requires
        0 <= i <= j <= s.len(),
        s.subrange(i, j) == ser_opt_priority(o),
    ensures
        p_opt_priority(s, i) == Some((o, j)),
{
    match o {
        None => {
            assert(text::spec_null() + Seq::<u8>::empty() =~= text::spec_null());
            lemma_peel(s, i, j, text::spec_null(), Seq::<u8>::empty());
            assert(j == i + text::spec_null().len());
        },
        Some(p) => {
            assert(ser_priority(p) + Seq::<u8>::empty() =~= ser_priority(p));
            lemma_peel(s, i, j, ser_priority(p), Seq::<u8>::empty());
            assert(s[i] == s.subrange(i, j)[0]);
            assert(s[i] == 34);
            if at(s, i, text::spec_null()) {
                assert(s[i] == text::spec_null()[0]);
                assert(false);
            }
            assert(s[i + 1] == s.subrange(i, j)[1]);
            if at(s, i, seq![34u8] + text::spec_priority_very_low() + seq![34u8]) {
                assert(s[i + 1] == (seq![34u8] + text::spec_priority_very_low() + seq![34u8])[1]);
            }
            if at(s, i, seq![34u8] + text::spec_priority_moderate() + seq![34u8]) {
                assert(s[i + 1] == (seq![34u8] + text::spec_priority_moderate() + seq![34u8])[1]);
            }
            if at(s, i, seq![34u8] + text::spec_priority_normal() + seq![34u8]) {
                assert(s[i + 1] == (seq![34u8] + text::spec_priority_normal() + seq![34u8])[1]);
            }
            if at(s, i, seq![34u8] + text::spec_priority_high() + seq![34u8]) {
                assert(s[i + 1] == (seq![34u8] + text::spec_priority_high() + seq![34u8])[1]);
            }
        },
    }
}

/// Parsing a serialized optional string yields it back.
proof fn lemma_opt_string_roundtrip(s: Seq<u8>, i: int, o: Option<Seq<u8>>, j: int)
    requires
        0 <= i <= j <= s.len(),
        s.subrange(i, j) == ser_opt_string(o),
    ensures
        p_opt_string(s, i) == Some((o, j)),
{
    match o {
        None => {
            assert(text::spec_null() + Seq::<u8>::empty() =~= text::spec_null());
            lemma_peel(s, i, j, text::spec_null(), Seq::<u8>::empty());
            assert(j == i + text::spec_null().len());
        },
        Some(v) => {
            assert(ser_string(v) + Seq::<u8>::empty() =~= ser_string(v));
            lemma_peel(s, i, j, ser_string(v), Seq::<u8>::empty());
            assert(s[i] == s.subrange(i, j)[0]);
            assert(s[i] == 34);
            if at(s, i, text::spec_null()) {
                assert(s[i] == text::spec_null()[0]);
                assert(false);
            }
            lemma_string_roundtrip(s, i, v, j);
        },
    }
}

/// Parsing a serialized record yields it back.
#[verifier::rlimit(100)]
proof fn lemma_record_roundtrip(s: Seq<u8>, i: int, r: PreviousEventV, j: int)
    requires
        0 <= i <= j <= s.len(),
        rec_wf(r),
        s.subrange(i, j) == ser_record(r),
    ensures
        p_record(s, i) == Some((r, j)),
{
    reveal(ser_record);
    reveal(p_record);
    reveal(p_record_tail);
    let t16 = seq![125u8];
    let t15 = ser_opt_string(r.summary) + t16;
    let t14 = text::spec_key_summary() + t15;
    let t13 = ser_opt_string(r.name) + t14;
    let t12 = text::spec_key_name() + t13;
    let t11 = ser_opt_priority(r.priority) + t12;
    let t10 = text::spec_key_priority() + t11;
    let t9 = ser_string(r.fingerprint) + t10;
    let t8 = text::spec_key_fingerprint() + t9;
    let t7 = ser_string(r.last_status) + t8;
    let t6 = text::spec_key_last_status() + t7;
    let t5 = dec_digits_signed(r.last_alerted) + t6;
    let t4 = text::spec_key_last_alerted() + t5;
    let t3 = ser_opt_i64(r.first_alerted) + t4;
    let t2 = text::spec_key_first_alerted() + t3;
    let t1 = dec_digits_signed(r.last_seen) + t2;
    let opener = seq![123u8] + text::spec_key_last_seen();
    assert(ser_record(r) == opener + t1);
    lemma_peel(s, i, j, opener, t1);
    let p0 = i + opener.len();
    lemma_peel(s, p0, j, dec_digits_signed(r.last_seen), t2);
    let p1 = p0 + dec_digits_signed(r.last_seen).len();
    assert(s[p1] == s.subrange(p1, j)[0]);
    assert(s[p1] == 44);
    lemma_i64_roundtrip(s, p0, r.last_seen, p1);
    lemma_peel(s, p1, j, text::spec_key_first_alerted(), t3);
    let p2 = p1 + text::spec_key_first_alerted().len();
    lemma_peel(s, p2, j, ser_opt_i64(r.first_alerted), t4);
    let p3 = p2 + ser_opt_i64(r.first_alerted).len();
    assert(s[p3] == s.subrange(p3, j)[0]);
    assert(s[p3] == 44);
    lemma_opt_i64_roundtrip(s, p2, r.first_alerted, p3);
    lemma_peel(s, p3, j, text::spec_key_last_alerted(), t5);
    let p4 = p3 + text::spec_key_last_alerted().len();
    lemma_peel(s, p4, j, dec_digits_signed(r.last_alerted), t6);
    let p5 = p4 + dec_digits_signed(r.last_alerted).len();
    assert(s[p5] == s.subrange(p5, j)[0]);
    assert(s[p5] == 44);
    lemma_i64_roundtrip(s, p4, r.last_alerted, p5);
    lemma_peel(s, p5, j, text::spec_key_last_status(), t7);
    let p6 = p5 + text::spec_key_last_status().len();
    lemma_peel(s, p6, j, ser_string(r.last_status), t8);
    let p7 = p6 + ser_string(r.last_status).len();
    lemma_string_roundtrip(s, p6, r.last_status, p7);
    lemma_peel(s, p7, j, text::spec_key_fingerprint(), t9);
    let p8 = p7 + text::spec_key_fingerprint().len();
    lemma_peel(s, p8, j, ser_string(r.fingerprint), t10);
    let p9 = p8 + ser_string(r.fingerprint).len();
    lemma_string_roundtrip(s, p8, r.fingerprint, p9);
    lemma_peel(s, p9, j, text::spec_key_priority(), t11);
    let p10 = p9 + text::spec_key_priority().len();
    lemma_peel(s, p10, j, ser_opt_priority(r.priority), t12);
    let p11 = p10 + ser_opt_priority(r.priority).len();
    lemma_opt_priority_roundtrip(s, p10, r.priority, p11);
    lemma_peel(s, p11, j, text::spec_key_name(), t13);
    let p12 = p11 + text::spec_key_name().len();
    lemma_peel(s, p12, j, ser_opt_string(r.name), t14);
    let p13 = p12 + ser_opt_string(r.name).len();
    lemma_opt_string_roundtrip(s, p12, r.name, p13);
    lemma_peel(s, p13, j, text::spec_key_summary(), t15);
    let p14 = p13 + text::spec_key_summary().len();
    lemma_peel(s, p14, j, ser_opt_string(r.summary), t16);
    let p15 = p14 + ser_opt_string(r.summary).len();
    lemma_opt_string_roundtrip(s, p14, r.summary, p15);
    assert(seq![125u8] + Seq::<u8>::empty() =~= seq![125u8]);
    lemma_peel(s, p15, j, seq![125u8], Seq::<u8>::empty());
    assert(s[p15] == s.subrange(p15, j)[0]);
    assert(s[p15] == 125);
    assert(j == p15 + 1);
}

/// Parsing serialized entries, with the data object's closing brace just
/// after them, yields the records back.
proof fn lemma_entries_roundtrip(s: Seq<u8>, i: int, recs: Seq<PreviousEventV>, j: int)
    requires
        0 <= i <= j < s.len(),
        recs.len() >= 1,
        forall|m: int| 0 <= m < recs.len() ==> rec_wf(#[trigger] recs[m]),
        s.subrange(i, j) == ser_entries(recs),
        s[j] == 125,
    ensures
        p_entry_seq(s, i) == Some((recs, j + 1)),
    decreases recs.len(),
{
    let r0 = recs[0];
    if recs.len() == 1 {
        assert(ser_entries(recs) == ser_entry(r0));
        lemma_peel(s, i, j, ser_string(r0.fingerprint), seq![58u8] + ser_record(r0));
        let k = i + ser_string(r0.fingerprint).len();
        lemma_string_roundtrip(s, i, r0.fingerprint, k);
        lemma_peel(s, k, j, seq![58u8], ser_record(r0));
        assert(s[k] == s.subrange(k, k + 1)[0]);
        assert(s[k] == 58);
        lemma_record_roundtrip(s, k + 1, r0, j);
        assert(seq![r0] =~= recs);
    } else {
        assert(ser_entries(recs) == ser_entry(r0) + (seq![44u8] + ser_entries(recs.drop_first())));
        lemma_peel(s, i, j, ser_entry(r0), seq![44u8] + ser_entries(recs.drop_first()));
        let e = i + ser_entry(r0).len();
        assert(s.subrange(i, e) == ser_entry(r0));
        lemma_peel(s, i, e, ser_string(r0.fingerprint), seq![58u8] + ser_record(r0));
        let k = i + ser_string(r0.fingerprint).len();
        lemma_string_roundtrip(s, i, r0.fingerprint, k);
        lemma_peel(s, k, e, seq![58u8], ser_record(r0));
        assert(s[k] == s.subrange(k, k + 1)[0]);
        assert(s[k] == 58);
        lemma_record_roundtrip(s, k + 1, r0, e);
        lemma_peel(s, e, j, seq![44u8], ser_entries(recs.drop_first()));
        assert(s[e] == s.subrange(e, e + 1)[0]);
        assert(s[e] == 44);
        lemma_entries_roundtrip(s, e + 1, recs.drop_first(), j);
        assert(seq![r0] + recs.drop_first() =~= recs);
    }
}

/// Serialize-then-parse yields the same store, field for field: the
/// canonical on-disk form loses nothing.
pub proof fn lemma_store_roundtrip(recs: Seq<PreviousEventV>)
    requires
        forall|m: int| 0 <= m < recs.len() ==> rec_wf(#[trigger] recs[m]),
    ensures
        p_store(ser_store(recs)) == Some(recs),
{
    let t = ser_store(recs);
    let head = text::spec_store_head();
    if recs.len() == 0 {
        assert(t =~= head + seq![125u8, 125u8]);
        assert(t.subrange(0, t.len() as int) =~= t);
        lemma_peel(t, 0, t.len() as int, head, seq![125u8, 125u8]);
        let i = head.len() as int;
        assert(t[i] == t.subrange(i, t.len() as int)[0]);
        assert(t[i + 1] == t.subrange(i, t.len() as int)[1]);
        assert(t[i] == 125);
        assert(t[i + 1] == 125);
        assert(p_store(t) == Some(Seq::<PreviousEventV>::empty()));
        assert(recs =~= Seq::<PreviousEventV>::empty());
    } else {
        assert(t =~= head + (ser_entries(recs) + seq![125u8, 125u8]));
        assert(t.subrange(0, t.len() as int) =~= t);
        lemma_peel(t, 0, t.len() as int, head, ser_entries(recs) + seq![125u8, 125u8]);
        let i = head.len() as int;
        lemma_peel(t, i, t.len() as int, ser_entries(recs), seq![125u8, 125u8]);
        let j = i + ser_entries(recs).len();
        assert(t[j] == t.subrange(j, t.len() as int)[0]);
        assert(t[j + 1] == t.subrange(j, t.len() as int)[1]);
        assert(t[j] == 125);
        assert(t[j + 1] == 125);
        assert(ser_string(recs[0].fingerprint)[0] == 34);
        assert(ser_entry(recs[0])[0] == ser_string(recs[0].fingerprint)[0]);
        assert(ser_entries(recs)[0] == ser_entry(recs[0])[0]);
        assert(t[i] == t.subrange(i, j)[0]);
        assert(t[i] == 34);
        lemma_entries_roundtrip(t, i, recs, j);
        assert(j + 2 == t.len());
    }
}

/// Round trip at the store level: what `serialize` writes, `load_or_default`
/// reads back as the identical mapping, field for field. Every executable
/// store's records satisfy `rec_wf`, so this holds of all of them.
pub proof fn lemma_serialize_roundtrip(store: &Fingerprints)
    ensures
        p_store(ser_store(store@)) == Some(store@),
{
    lemma_store_roundtrip(store@);
}

} // verus!
