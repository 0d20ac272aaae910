//! Early-boot orchestration logic for a unikernel loader.
//!
//! The loader runs freestanding: it brings up a diagnostics channel, checks
//! that the hardware provides a required memory-tagging capability, parses an
//! embedded kernel image, reserves a target memory region, loads the kernel
//! there, and transfers control to it, never returning.  Everything that the
//! loader *decides* — whether the capability suffices, where the kernel must
//! be placed, how large the reservation must be, and which failures halt the
//! boot — lives here as verified code over plain values.  The privileged
//! register read, the ELF parser, the raw-memory copy and the final jump are
//! architecture collaborators that drive this logic from outside.

pub mod boot;
pub mod capability;
pub mod image;
pub mod trace;
