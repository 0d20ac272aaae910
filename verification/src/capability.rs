//! The capability gate: the boot proceeds only if the hardware reports a
//! required memory-tagging feature at a minimum strength.
//!
//! The architecture layer performs one privileged read of the processor
//! feature register and hands the raw value to this module.  The register
//! encodes the strength of the memory-tagging feature in a four-bit field at
//! bits 8 through 11; the loader requires an encoded strength of at least 2.
//! A value below that threshold is a hard stop by design: the loader refuses
//! to boot a kernel on hardware that cannot provide the safety guarantees the
//! rest of the system depends on.

use vstd::prelude::*;

verus! {

/// Bit position of the memory-tagging field in the feature register.
pub const CAPABILITY_FIELD_SHIFT: u64 = 8;

/// Width mask of the four-bit memory-tagging field.
pub const CAPABILITY_FIELD_MASK: u64 = 0xF;

/// Minimum encoded strength of the memory-tagging feature the loader accepts.
pub const MIN_CAPABILITY_LEVEL: u64 = 2;

/// The memory-tagging field of the feature register: bits 8 through 11.
pub open spec fn capability_field(pfr: u64) -> u64 {
    (pfr >> CAPABILITY_FIELD_SHIFT) & CAPABILITY_FIELD_MASK
}

/// Extracts the four-bit memory-tagging field from the raw register value.
pub fn extract_capability_field(pfr: u64) -> (field: u64)
    ensures
        field == capability_field(pfr),
        field <= 15,
{
    let field: u64 = (pfr >> CAPABILITY_FIELD_SHIFT) & CAPABILITY_FIELD_MASK;
    proof {
        assert((pfr >> 8u64) & 0xFu64 <= 15u64) by (bit_vector);
    }
    field
}

/// Decides whether booting may go on: true exactly when the register's
/// memory-tagging field is at or above `MIN_CAPABILITY_LEVEL`.
pub fn capability_sufficient(pfr: u64) -> (ok: bool)
    ensures
        ok == (capability_field(pfr) >= MIN_CAPABILITY_LEVEL),
{
    extract_capability_field(pfr) >= MIN_CAPABILITY_LEVEL
}

} // verus!
