use crate::bytes::push_all;
use crate::text;
use vstd::prelude::*;

verus! {

/// A sample firing-alert payload, as the provider would post it.
pub fn create_firing_alert() -> (r: Vec<u8>)
    ensures
        r@ == text::spec_alert_json_firing_head() + text::spec_alert_json_tail(),
{
    let mut r = text::alert_json_firing_head();
    let tail = text::alert_json_tail();
    push_all(&mut r, tail.as_slice());
    r
}

/// A sample resolved-alert payload, as the provider would post it.
pub fn create_resolved_alert() -> (r: Vec<u8>)
    ensures
        r@ == text::spec_alert_json_resolved_head() + text::spec_alert_json_tail(),
{
    let mut r = text::alert_json_resolved_head();
    let tail = text::alert_json_tail();
    push_all(&mut r, tail.as_slice());
    r
}

/// A sample firing-alert payload whose name carries the given prefix.
pub fn create_firing_alert_with_prefix(prefix: &[u8]) -> (r: Vec<u8>)
    ensures
        r@ == text::spec_alert_json_firing_head() + prefix@ + text::spec_alert_json_tail(),
{
    let mut r = text::alert_json_firing_head();
    push_all(&mut r, prefix);
    let tail = text::alert_json_tail();
    push_all(&mut r, tail.as_slice());
    r
}

/// A sample resolved-alert payload whose name carries the given prefix.
pub fn create_resolved_alert_with_prefix(prefix: &[u8]) -> (r: Vec<u8>)
    ensures
        r@ == text::spec_alert_json_resolved_head() + prefix@ + text::spec_alert_json_tail(),
{
    let mut r = text::alert_json_resolved_head();
    push_all(&mut r, prefix);
    let tail = text::alert_json_tail();
    push_all(&mut r, tail.as_slice());
    r
}

} // verus!
