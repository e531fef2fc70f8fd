//! Identifiers of factions, provinces, units and technologies.
//!
//! An identifier is the 128-bit number of a UUID. New ones are drawn at
//! random, so nothing is known of a fresh identifier but its UUID layout.

use vstd::prelude::*;

verus! {

/// The bits that every version-4 UUID fixes: the version nibble and the
/// two variant bits.
pub const UUID_FIXED_MASK: u128 = 0x0000_0000_0000_F000_C000_0000_0000_0000u128;

/// The value of the fixed bits in a version-4 UUID of the RFC variant.
pub const UUID_V4_BITS: u128 = 0x0000_0000_0000_4000_8000_0000_0000_0000u128;

/// Whether `bits` has the layout of a random (version 4) UUID.
pub open spec fn is_random_uuid(bits: u128) -> bool {
    bits & UUID_FIXED_MASK == UUID_V4_BITS
}

/// Draws a random UUID with `uuid::Uuid::new_v4` and returns it as a number
/// (`Uuid::as_u128`).
///
/// Trusted: `new_v4` takes 128 random bits from the operating system, clears
/// the version and variant bits and sets them to version 4, RFC variant;
/// `as_u128` reads the sixteen bytes back as the same big-endian number.
/// Nothing else is claimed, and two calls may differ. The call panics if the
/// operating system cannot supply random bytes.
#[verifier::external_body]
fn random_uuid() -> (bits: u128)
    ensures
        is_random_uuid(bits),
{
    uuid::Uuid::new_v4().as_u128()
}

/// Names a faction.
#[derive(Debug, Clone, Copy, PartialEq, Eq, Hash, Structural)]
pub struct FactionId(pub u128);

/// Names a province.
#[derive(Debug, Clone, Copy, PartialEq, Eq, Hash, Structural)]
pub struct ProvinceId(pub u128);

/// Names a unit.
#[derive(Debug, Clone, Copy, PartialEq, Eq, Hash, Structural)]
pub struct UnitId(pub u128);

/// Names a technology.
#[derive(Debug, Clone, Copy, PartialEq, Eq, Hash, Structural)]
pub struct TechnologyId(pub u128);

impl Default for FactionId {
    /// A fresh random identifier.
    fn default() -> (id: FactionId)
        ensures
            is_random_uuid(id.0),
    {
        FactionId(random_uuid())
    }
}

impl Default for ProvinceId {
    /// A fresh random identifier.
    fn default() -> (id: ProvinceId)
        ensures
            is_random_uuid(id.0),
    {
        ProvinceId(random_uuid())
    }
}

impl Default for UnitId {
    /// A fresh random identifier.
    fn default() -> (id: UnitId)
        ensures
            is_random_uuid(id.0),
    {
        UnitId(random_uuid())
    }
}

impl Default for TechnologyId {
    /// A fresh random identifier.
    fn default() -> (id: TechnologyId)
        ensures
            is_random_uuid(id.0),
    {
        TechnologyId(random_uuid())
    }
}

} // verus!
