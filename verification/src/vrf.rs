use vstd::prelude::*;

verus! {

/// The value `ephemeral_vrf_sdk::rnd::random_u8_with_range` draws from the
/// given randomness bytes: a function of its arguments alone, left
/// uninterpreted here beyond the facts stated where it is applied.
pub uninterp spec fn range_sample(bytes: Seq<u8>, min_value: u8, max_value: u8) -> u8;

/// Relies on `ephemeral_vrf_sdk::rnd::random_u8_with_range`: it maps the
/// 32 randomness bytes to a value of `min_value..=max_value` by scanning for
/// a byte under the largest multiple of the range width (an unbiased
/// range-reduction, with a fallback on the last byte), so the result depends
/// on the arguments alone and always lies in the range. It panics when
/// `min_value > max_value`, which the precondition rules out.
pub assume_specification[ ephemeral_vrf_sdk::rnd::random_u8_with_range ](
    bytes: &[u8; 32],
    min_value: u8,
    max_value: u8,
) -> (r: u8)
    requires
        min_value <= max_value,
    ensures
        min_value <= r <= max_value,
        r == range_sample(bytes@, min_value, max_value),
;

} // verus!
