//! Trusted boundary to the `uuid` crate. Everything here is believed, not proved.
use vstd::prelude::*;

verus! {

/// The 128-bit value has the version-4 nibble (bits 76..80 equal 4) and the
/// RFC 4122 variant (bits 62..64 equal 0b10).
pub open spec fn is_v4_uuid(u: u128) -> bool {
    &&& (u >> 76u128) & 0xF == 4
    &&& (u >> 62u128) & 0x3 == 2
}

/// Calls `uuid::Uuid::new_v4` and returns `Uuid::as_u128` of it. The value
/// is random; the crate's source masks in the version and variant bits, and
/// that is all that is claimed.
#[verifier::external_body]
pub(crate) fn new_v4_uuid() -> (r: u128)
    ensures
        is_v4_uuid(r),
{
    uuid::Uuid::new_v4().as_u128()
}

} // verus!
