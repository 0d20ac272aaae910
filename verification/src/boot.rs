//! The boot orchestrator: a linear state machine from power-on to the
//! control transfer into the loaded kernel.
//!
//! Every decision of the boot sequence is made here, over plain values.  The
//! architecture collaborators (console wiring, the privileged register read,
//! locating the embedded image bytes, the binary-format parser, the physical
//! allocator, the raw-memory copy and the final jump) perform the actions
//! this machine requests and hand the outcome back as the next event.  Every
//! failure is fatal: the machine moves to a halted state that absorbs all
//! further events and never again requests a memory operation.

use vstd::prelude::*;

use crate::capability::capability_field;
use crate::capability::capability_sufficient;
use crate::capability::MIN_CAPABILITY_LEVEL;
use crate::image::load_destination;
use crate::image::spec_load_destination;
use crate::image::KernelDescriptor;

verus! {

/// The four fatal failures of the boot sequence.  None is recoverable: there
/// is no supervisor to report to and no safe degraded mode at this stage.
#[derive(Clone, Copy, Debug, PartialEq, Eq, Structural)]
pub enum FatalError {
    /// The hardware's memory-tagging feature is below the minimum strength.
    CapabilityAbsent,
    /// No embedded kernel image could be located.
    ImageNotFound,
    /// The image's binary format was rejected or its layout is inconsistent.
    ImageMalformed,
    /// The allocator could not provide a region of the required size.
    MemoryReservationFailed,
}

impl FatalError {
    /// The single diagnostic line emitted for this failure.
    pub open spec fn spec_message(self) -> Seq<char> {
        match self {
            FatalError::CapabilityAbsent => "MTE is not supported"@,
            FatalError::ImageNotFound => "no embedded kernel image found"@,
            FatalError::ImageMalformed => "invalid kernel image"@,
            FatalError::MemoryReservationFailed => "memory reservation failed"@,
        }
    }

    /// The diagnostic line for this failure, ready for the earliest and most
    /// primitive output path: a plain borrowed string that cannot itself fail
    /// to format.
    pub fn message(&self) -> (m: &'static str)
        ensures
            m@ == self.spec_message(),
    {
        match self {
            FatalError::CapabilityAbsent => "MTE is not supported",
            FatalError::ImageNotFound => "no embedded kernel image found",
            FatalError::ImageMalformed => "invalid kernel image",
            FatalError::MemoryReservationFailed => "memory reservation failed",
        }
    }
}

/// The stages of the boot sequence, in order.  `Halted` is terminal and
/// absorbing; a completed sequence ends in `HandoffConstructed`, whose only
/// requested action is the non-returning control transfer.
#[derive(Clone, Copy, Debug, PartialEq, Eq, Structural)]
pub enum BootState {
    /// Nothing has run yet; not even diagnostics are available.
    Start,
    /// The diagnostics channel is wired up.
    OutputReady,
    /// The capability gate passed.
    CapabilityChecked,
    /// The embedded kernel image bytes were found.
    ImageLocated,
    /// The image parsed into a well-formed descriptor.
    ImageParsed { image: KernelDescriptor },
    /// A region of `image.required_size` bytes is reserved at `destination`.
    MemoryReserved { image: KernelDescriptor, destination: u64 },
    /// The kernel's segments were written into the reserved region.
    KernelLoaded { destination: u64, entry_point: u64 },
    /// The handoff descriptor is complete; only the jump remains.
    HandoffConstructed { destination: u64, entry_point: u64 },
    /// A fatal error stopped the boot; the machine stays here forever.
    Halted { error: FatalError },
}

/// What a collaborator reports back to the orchestrator.
#[derive(Clone, Copy, Debug, PartialEq, Eq, Structural)]
pub enum BootEvent {
    /// The diagnostics channel is ready.
    OutputInitialized,
    /// The raw value of the processor feature register.
    CapabilityRead { pfr: u64 },
    /// The embedded kernel image bytes were located.
    ImageFound,
    /// No embedded kernel image exists.
    ImageMissing,
    /// The parser accepted the image and derived its attributes.
    ImageParsedOk { image: KernelDescriptor },
    /// The parser rejected the image's binary format.
    ImageRejected,
    /// The allocator granted a region starting at `address`.
    MemoryGranted { address: u64 },
    /// The allocator could not satisfy the request.
    MemoryDenied,
    /// The kernel's segments were copied; the handoff reports `entry_point`.
    KernelCopied { entry_point: u64 },
    /// The handoff descriptor is fully constructed.
    HandoffReady,
}

/// What the orchestrator asks a collaborator to do next.
#[derive(Clone, Copy, Debug, PartialEq, Eq, Structural)]
pub enum BootAction {
    /// Wire up the earliest diagnostics channel.
    InitializeOutput,
    /// Perform the privileged read of the processor feature register.
    ReadCapability,
    /// Locate the embedded kernel image bytes.
    LocateImage,
    /// Parse the located image.
    ParseImage,
    /// Reserve a physical region of exactly `size` bytes.
    ReserveMemory { size: u64 },
    /// Copy the kernel's segments into `size` bytes at `destination`.
    LoadKernel { destination: u64, size: u64 },
    /// Assemble the handoff descriptor for the loaded kernel.
    ConstructHandoff,
    /// Jump into the loaded kernel; this never returns.
    TransferControl,
    /// Emit one diagnostic line for `error` and idle forever.
    Halt { error: FatalError },
}

/// The action the driver must perform before the first event: nothing can
/// run before the diagnostics channel, so the boot opens by wiring it up.
pub fn initial_action() -> (a: BootAction)
    ensures
        a == BootAction::InitializeOutput,
{
    BootAction::InitializeOutput
}

/// The transition relation of the orchestrator.  `None` means the event is
/// out of protocol for the state: the machine does not accept it.
pub open spec fn spec_step(s: BootState, e: BootEvent) -> Option<(BootState, BootAction)> {
    match (s, e) {
        (BootState::Start, BootEvent::OutputInitialized) => Some((
            BootState::OutputReady,
            BootAction::ReadCapability,
        )),
        (BootState::OutputReady, BootEvent::CapabilityRead { pfr }) => {
            if capability_field(pfr) >= MIN_CAPABILITY_LEVEL {
                Some((BootState::CapabilityChecked, BootAction::LocateImage))
            } else {
                Some((
                    BootState::Halted { error: FatalError::CapabilityAbsent },
                    BootAction::Halt { error: FatalError::CapabilityAbsent },
                ))
            }
        },
        (BootState::CapabilityChecked, BootEvent::ImageFound) => Some((
            BootState::ImageLocated,
            BootAction::ParseImage,
        )),
        (BootState::CapabilityChecked, BootEvent::ImageMissing) => Some((
            BootState::Halted { error: FatalError::ImageNotFound },
            BootAction::Halt { error: FatalError::ImageNotFound },
        )),
        (BootState::ImageLocated, BootEvent::ImageParsedOk { image }) => {
            if image.wf() {
                Some((
                    BootState::ImageParsed { image },
                    BootAction::ReserveMemory { size: image.required_size },
                ))
            } else {
                Some((
                    BootState::Halted { error: FatalError::ImageMalformed },
                    BootAction::Halt { error: FatalError::ImageMalformed },
                ))
            }
        },
        (BootState::ImageLocated, BootEvent::ImageRejected) => Some((
            BootState::Halted { error: FatalError::ImageMalformed },
            BootAction::Halt { error: FatalError::ImageMalformed },
        )),
        (BootState::ImageParsed { image }, BootEvent::MemoryGranted { address }) => {
            let destination = spec_load_destination(image.preferred_address, address);
            if destination + image.required_size <= u64::MAX {
                Some((
                    BootState::MemoryReserved { image, destination },
                    BootAction::LoadKernel { destination, size: image.required_size },
                ))
            } else {
                Some((
                    BootState::Halted { error: FatalError::MemoryReservationFailed },
                    BootAction::Halt { error: FatalError::MemoryReservationFailed },
                ))
            }
        },
        (BootState::ImageParsed { image }, BootEvent::MemoryDenied) => Some((
            BootState::Halted { error: FatalError::MemoryReservationFailed },
            BootAction::Halt { error: FatalError::MemoryReservationFailed },
        )),
        (
            BootState::MemoryReserved { image, destination },
            BootEvent::KernelCopied { entry_point },
        ) => Some((
            BootState::KernelLoaded { destination, entry_point },
            BootAction::ConstructHandoff,
        )),
        (BootState::KernelLoaded { destination, entry_point }, BootEvent::HandoffReady) => Some((
            BootState::HandoffConstructed { destination, entry_point },
            BootAction::TransferControl,
        )),
        (BootState::Halted { error }, _) => Some((
            BootState::Halted { error },
            BootAction::Halt { error },
        )),
        _ => None,
    }
}

/// Whether the machine accepts `e` in state `s`.
pub open spec fn accepts(s: BootState, e: BootEvent) -> bool {
    spec_step(s, e) is Some
}

/// Runtime check of `accepts`, for the driver of the machine.
pub fn event_accepted(s: &BootState, e: &BootEvent) -> (ok: bool)
    ensures
        ok == accepts(*s, *e),
{
    match (s, e) {
        (BootState::Start, BootEvent::OutputInitialized) => true,
        (BootState::OutputReady, BootEvent::CapabilityRead { .. }) => true,
        (BootState::CapabilityChecked, BootEvent::ImageFound) => true,
        (BootState::CapabilityChecked, BootEvent::ImageMissing) => true,
        (BootState::ImageLocated, BootEvent::ImageParsedOk { .. }) => true,
        (BootState::ImageLocated, BootEvent::ImageRejected) => true,
        (BootState::ImageParsed { .. }, BootEvent::MemoryGranted { .. }) => true,
        (BootState::ImageParsed { .. }, BootEvent::MemoryDenied) => true,
        (BootState::MemoryReserved { .. }, BootEvent::KernelCopied { .. }) => true,
        (BootState::KernelLoaded { .. }, BootEvent::HandoffReady) => true,
        (BootState::Halted { .. }, _) => true,
        _ => false,
    }
}

/// One step of the orchestrator: from the current state and the event a
/// collaborator reported, decide the next state and the next action.
pub fn boot_step(s: BootState, e: BootEvent) -> (r: (BootState, BootAction))
    requires
        accepts(s, e),
    ensures
        spec_step(s, e) == Some(r),
{
    match (s, e) {
        (BootState::Start, BootEvent::OutputInitialized) => (
            BootState::OutputReady,
            BootAction::ReadCapability,
        ),
        (BootState::OutputReady, BootEvent::CapabilityRead { pfr }) => {
            if capability_sufficient(pfr) {
                (BootState::CapabilityChecked, BootAction::LocateImage)
            } else {
                (
                    BootState::Halted { error: FatalError::CapabilityAbsent },
                    BootAction::Halt { error: FatalError::CapabilityAbsent },
                )
            }
        },
        (BootState::CapabilityChecked, BootEvent::ImageFound) => (
            BootState::ImageLocated,
            BootAction::ParseImage,
        ),
        (BootState::CapabilityChecked, BootEvent::ImageMissing) => (
            BootState::Halted { error: FatalError::ImageNotFound },
            BootAction::Halt { error: FatalError::ImageNotFound },
        ),
        (BootState::ImageLocated, BootEvent::ImageParsedOk { image }) => {
            if image.is_wf() {
                (
                    BootState::ImageParsed { image },
                    BootAction::ReserveMemory { size: image.required_size },
                )
            } else {
                (
                    BootState::Halted { error: FatalError::ImageMalformed },
                    BootAction::Halt { error: FatalError::ImageMalformed },
                )
            }
        },
        (BootState::ImageLocated, BootEvent::ImageRejected) => (
            BootState::Halted { error: FatalError::ImageMalformed },
            BootAction::Halt { error: FatalError::ImageMalformed },
        ),
        (BootState::ImageParsed { image }, BootEvent::MemoryGranted { address }) => {
            let destination = load_destination(image.preferred_address, address);
            if image.required_size <= u64::MAX - destination {
                (
                    BootState::MemoryReserved { image, destination },
                    BootAction::LoadKernel { destination, size: image.required_size },
                )
            } else {
                (
                    BootState::Halted { error: FatalError::MemoryReservationFailed },
                    BootAction::Halt { error: FatalError::MemoryReservationFailed },
                )
            }
        },
        (BootState::ImageParsed { .. }, BootEvent::MemoryDenied) => (
            BootState::Halted { error: FatalError::MemoryReservationFailed },
            BootAction::Halt { error: FatalError::MemoryReservationFailed },
        ),
        (
            BootState::MemoryReserved { destination, .. },
            BootEvent::KernelCopied { entry_point },
        ) => (
            BootState::KernelLoaded { destination, entry_point },
            BootAction::ConstructHandoff,
        ),
        (BootState::KernelLoaded { destination, entry_point }, BootEvent::HandoffReady) => (
            BootState::HandoffConstructed { destination, entry_point },
            BootAction::TransferControl,
        ),
        (BootState::Halted { error }, _) => (
            BootState::Halted { error },
            BootAction::Halt { error },
        ),
        _ => {
            proof {
                assert(false);
            }
            (
                BootState::Halted { error: FatalError::ImageMalformed },
                BootAction::Halt { error: FatalError::ImageMalformed },
            )
        },
    }
}

/// Law: the machine moves on from the capability check exactly when the
/// register's four-bit field reaches `MIN_CAPABILITY_LEVEL`; any weaker
/// reading stops everything at once with `CapabilityAbsent`.
pub proof fn lemma_gate_proceeds_iff(pfr: u64)
    ensures
        (capability_field(pfr) >= MIN_CAPABILITY_LEVEL) <==> spec_step(
            BootState::OutputReady,
            BootEvent::CapabilityRead { pfr },
        ) == Some((BootState::CapabilityChecked, BootAction::LocateImage)),
        capability_field(pfr) < MIN_CAPABILITY_LEVEL ==> spec_step(
            BootState::OutputReady,
            BootEvent::CapabilityRead { pfr },
        ) == Some(
            (
                BootState::Halted { error: FatalError::CapabilityAbsent },
                BootAction::Halt { error: FatalError::CapabilityAbsent },
            ),
        ),
{
}

/// Law: an image that declares a preferred address is loaded exactly there,
/// whatever address the allocator granted.
pub proof fn lemma_preferred_address_wins(image: KernelDescriptor, granted: u64, a: u64)
    requires
        image.preferred_address == Some(a),
        image.wf(),
    ensures
        spec_step(
            BootState::ImageParsed { image },
            BootEvent::MemoryGranted { address: granted },
        ) == Some(
            (
                BootState::MemoryReserved { image, destination: a },
                BootAction::LoadKernel { destination: a, size: image.required_size },
            ),
        ),
{
}

/// Law: an image that declares no preferred address is loaded at exactly the
/// address the allocator granted.
pub proof fn lemma_allocator_address_used(image: KernelDescriptor, granted: u64)
    requires
        image.preferred_address is None,
        image.wf(),
        granted + image.required_size <= u64::MAX,
    ensures
        spec_step(
            BootState::ImageParsed { image },
            BootEvent::MemoryGranted { address: granted },
        ) == Some(
            (
                BootState::MemoryReserved { image, destination: granted },
                BootAction::LoadKernel { destination: granted, size: image.required_size },
            ),
        ),
{
}

} // verus!
