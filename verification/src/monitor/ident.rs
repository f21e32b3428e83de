//! Identifiers of monitored targets.

use vstd::prelude::*;

verus! {

/// Whether `id`, read as the 128 bits of a UUID, carries version 4 and the
/// RFC variant.
pub open spec fn is_random_uuid(id: u128) -> bool {
    id & 0x0000_0000_0000_f000_c000_0000_0000_0000u128
        == 0x0000_0000_0000_4000_8000_0000_0000_0000u128
}

/// A new identifier, drawn with `uuid::Uuid::new_v4` and handed out as the
/// UUID's 128 bits.
///
/// Trusted: the contract says only that version and variant are those of a
/// random UUID; the other 122 bits come from the system's random source and
/// nothing is claimed of them.
#[verifier::external_body]
pub(crate) fn fresh_id() -> (id: u128)
    ensures
        is_random_uuid(id),
{
    uuid::Uuid::new_v4().as_u128()
}

} // verus!
