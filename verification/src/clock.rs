use vstd::prelude::*;

verus! {

/// The `dd/mm/yy HH:MM` rendering of an epoch timestamp, in UTC; empty for
/// timestamps chrono cannot represent.
pub uninterp spec fn short_timestamp(ts: int) -> Seq<u8>;

/// The `dd/mm/YYYY HH:MM` rendering of an epoch timestamp, in UTC; empty
/// for timestamps chrono cannot represent.
pub uninterp spec fn long_timestamp(ts: int) -> Seq<u8>;

/// Relies on chrono's `DateTime::from_timestamp` and `format("%d/%m/%y %H:%M")`:
/// the rendering is a function of the timestamp alone (UTC, no locale).
#[verifier::external_body]
pub fn format_timestamp_short(ts: i64) -> (r: Vec<u8>)
    ensures
        r@ == short_timestamp(ts as int),
{
    match chrono::DateTime::from_timestamp(ts, 0) {
        Some(t) => t.format("%d/%m/%y %H:%M").to_string().into_bytes(),
        None => Vec::new(),
    }
}

/// Relies on chrono's `DateTime::from_timestamp` and `format("%d/%m/%Y %H:%M")`:
/// the rendering is a function of the timestamp alone (UTC, no locale).
#[verifier::external_body]
pub fn format_timestamp_long(ts: i64) -> (r: Vec<u8>)
    ensures
        r@ == long_timestamp(ts as int),
{
    match chrono::DateTime::from_timestamp(ts, 0) {
        Some(t) => t.format("%d/%m/%Y %H:%M").to_string().into_bytes(),
        None => Vec::new(),
    }
}

} // verus!
