pub mod builder;
pub mod dummy_witness;
pub mod errors;
pub mod inscription_id_resolver;
pub mod manifest;
pub mod outpoint;
pub mod settings;

use vstd::prelude::*;

verus! {

/// Value, in satoshis, of the trailing anchor output appended to every
/// assembled transaction so that a later child transaction can bump the fee.
pub const ANCHOR_OUTPUT_SATS: u64 = 546;

/// Fixed safety margin, in satoshis, added on top of the rate-times-size
/// product when estimating a fee, protecting against rounding
/// under-estimation. Kept equal to the anchor output value.
pub const FEE_SAFETY_OFFSET_SATS: u64 = 546;

} // verus!
