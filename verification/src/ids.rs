//! Recipe ids: 128-bit values in the time-ordered (version 7) UUID layout.

use vstd::prelude::*;

verus! {

/// The version nibble of a 128-bit UUID value (big-endian byte order):
/// the high nibble of byte 6.
pub open spec fn uuid_version(u: u128) -> u128 {
    (u >> 76) & 0xf
}

/// The two variant bits of a 128-bit UUID value: the top bits of byte 8.
pub open spec fn uuid_variant(u: u128) -> u128 {
    (u >> 62) & 0x3
}

/// The version nibble of a 128-bit UUID value.
pub fn uuid_version_of(u: u128) -> (r: u128)
    ensures
        r == uuid_version(u),
{
    (u >> 76) & 0xf
}

/// Relies on uuid::Uuid::now_v7, which builds a version 7 UUID from the
/// current time: the version nibble is always 7 and the variant bits are
/// always 0b10; the rest depends on the clock and on random state, so
/// nothing more is stated.
#[verifier::external_body]
pub(crate) fn new_recipe_id() -> (r: u128)
    ensures
        uuid_version(r) == 7,
        uuid_variant(r) == 2,
{
    uuid::Uuid::now_v7().as_u128()
}

} // verus!
