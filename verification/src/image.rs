//! The kernel image descriptor and the placement policy.
//!
//! The binary-format collaborator parses the embedded kernel image and
//! reports the attributes the orchestrator needs as plain values: the
//! required in-memory size, an optional preferred load address, and the entry
//! point.  This module holds that descriptor, its well-formedness, and the
//! placement policy: an image that declares a preferred address must be
//! loaded exactly there, whatever the allocator suggested; otherwise the
//! allocator's address is used.

use vstd::prelude::*;

verus! {

/// The attributes of a parsed kernel image that the orchestrator acts on.
#[derive(Clone, Copy, Debug, PartialEq, Eq, Structural)]
pub struct KernelDescriptor {
    /// Bytes of memory the loaded kernel occupies.
    pub required_size: u64,
    /// The load address the image demands, if it demands one; a kernel that
    /// is not relocatable must not be silently moved elsewhere.
    pub preferred_address: Option<u64>,
}

impl KernelDescriptor {
    /// A well-formed descriptor asks for at least one byte of memory, and a
    /// declared preferred address leaves room for the whole kernel below the
    /// top of the address space.
    pub open spec fn wf(self) -> bool {
        &&& self.required_size >= 1
        &&& (self.preferred_address matches Some(a) ==> a + self.required_size <= u64::MAX)
    }

    /// Checks well-formedness: a descriptor that fails this check is treated
    /// as a malformed image.
    pub fn is_wf(&self) -> (ok: bool)
        ensures
            ok == self.wf(),
    {
        if self.required_size < 1 {
            return false;
        }
        match self.preferred_address {
            Some(a) => a <= u64::MAX - self.required_size,
            None => true,
        }
    }
}

/// The load destination: the image's own preferred address when it declares
/// one, else the address the allocator returned.
pub open spec fn spec_load_destination(preferred: Option<u64>, allocated: u64) -> u64 {
    match preferred {
        Some(a) => a,
        None => allocated,
    }
}

/// Chooses where the kernel is placed.  An image-declared address always
/// wins over the allocator's suggestion.
pub fn load_destination(preferred: Option<u64>, allocated: u64) -> (destination: u64)
    ensures
        destination == spec_load_destination(preferred, allocated),
        preferred matches Some(a) ==> destination == a,
        preferred is None ==> destination == allocated,
{
    match preferred {
        Some(a) => a,
        None => allocated,
    }
}

} // verus!
