use hermit_loader::boot::{
    boot_step, event_accepted, initial_action, BootAction, BootEvent, BootState, FatalError,
};
use hermit_loader::image::KernelDescriptor;

/// Feeds the events to the machine in order, collecting every requested
/// action, exactly as the architecture driver would.
fn drive(mut state: BootState, events: &[BootEvent]) -> (BootState, Vec<BootAction>) {
    let mut actions: Vec<BootAction> = Vec::new();
    for &event in events {
        assert!(event_accepted(&state, &event), "driver sent an out-of-protocol event");
        let (next, action) = boot_step(state, event);
        state = next;
        actions.push(action);
    }
    (state, actions)
}

fn is_memory_action(a: &BootAction) -> bool {
    matches!(
        a,
        BootAction::ReserveMemory { .. }
            | BootAction::LoadKernel { .. }
            | BootAction::TransferControl
    )
}

#[test]
fn gate_threshold_on_every_field_value() {
    for v in 0u64..=15 {
        let pfr = v << 8;
        let (state, _) = drive(
            BootState::Start,
            &[BootEvent::OutputInitialized, BootEvent::CapabilityRead { pfr }],
        );
        if v >= 2 {
            assert_eq!(state, BootState::CapabilityChecked);
        } else {
            assert_eq!(
                state,
                BootState::Halted { error: FatalError::CapabilityAbsent }
            );
        }
    }
}

#[test]
fn gate_reads_only_bits_eight_to_eleven() {
    // Everything outside the four-bit field is noise and must not matter.
    let pfr = 0xFFFF_FFFF_FFFF_F0FFu64;
    let (state, _) = drive(
        BootState::Start,
        &[BootEvent::OutputInitialized, BootEvent::CapabilityRead { pfr }],
    );
    assert_eq!(
        state,
        BootState::Halted { error: FatalError::CapabilityAbsent }
    );

    let pfr = 0x0000_0000_0000_0200u64;
    let (state, _) = drive(
        BootState::Start,
        &[BootEvent::OutputInitialized, BootEvent::CapabilityRead { pfr }],
    );
    assert_eq!(state, BootState::CapabilityChecked);
}

#[test]
fn weak_capability_halts_without_memory_operations() {
    // Scenario: the capability field reads 0b0001.
    let pfr = 0b0001u64 << 8;
    let (state, actions) = drive(
        BootState::Start,
        &[BootEvent::OutputInitialized, BootEvent::CapabilityRead { pfr }],
    );
    assert_eq!(
        state,
        BootState::Halted { error: FatalError::CapabilityAbsent }
    );
    // Exactly one halt is requested, carrying the diagnostic; no locate,
    // parse, reserve, load or transfer is ever asked for.
    assert_eq!(
        actions.last(),
        Some(&BootAction::Halt { error: FatalError::CapabilityAbsent })
    );
    assert!(actions.iter().all(|a| !is_memory_action(a)));
    assert!(actions.iter().all(|a| !matches!(
        a,
        BootAction::LocateImage | BootAction::ParseImage
    )));
    assert_eq!(
        FatalError::CapabilityAbsent.message(),
        "MTE is not supported"
    );

    // The halted machine absorbs whatever arrives later and keeps refusing
    // memory operations.
    let later = [
        BootEvent::ImageFound,
        BootEvent::MemoryGranted { address: 0x1000 },
        BootEvent::HandoffReady,
    ];
    let (state, actions) = drive(state, &later);
    assert_eq!(
        state,
        BootState::Halted { error: FatalError::CapabilityAbsent }
    );
    assert!(actions.iter().all(|a| !is_memory_action(a)));
}

#[test]
fn preferred_address_scenario() {
    // Scenario: required_size = 4096, preferred_address = 0x100000.
    let image = KernelDescriptor {
        required_size: 4096,
        preferred_address: Some(0x100000),
    };
    let events = [
        BootEvent::OutputInitialized,
        BootEvent::CapabilityRead { pfr: 0x200 },
        BootEvent::ImageFound,
        BootEvent::ImageParsedOk { image },
        BootEvent::MemoryGranted { address: 0x9000 },
        BootEvent::KernelCopied { entry_point: 0x100400 },
        BootEvent::HandoffReady,
    ];
    let (state, actions) = drive(BootState::Start, &events);

    // The reservation call is made, at the image's exact size, even though
    // its result does not decide the placement.
    assert!(actions.contains(&BootAction::ReserveMemory { size: 4096 }));
    // The image's own address wins over the allocator's suggestion.
    assert!(actions.contains(&BootAction::LoadKernel { destination: 0x100000, size: 4096 }));
    // The handoff carries the image's declared entry point.
    assert_eq!(
        state,
        BootState::HandoffConstructed { destination: 0x100000, entry_point: 0x100400 }
    );
    // Control transfer is requested exactly once, as the last action.
    let transfers = actions
        .iter()
        .filter(|a| matches!(a, BootAction::TransferControl))
        .count();
    assert_eq!(transfers, 1);
    assert_eq!(actions.last(), Some(&BootAction::TransferControl));
    // The machine is terminal: nothing more is accepted after the transfer.
    assert!(!event_accepted(&state, &BootEvent::HandoffReady));
    assert!(!event_accepted(&state, &BootEvent::OutputInitialized));
}

#[test]
fn relocatable_image_uses_allocator_address() {
    let image = KernelDescriptor {
        required_size: 8192,
        preferred_address: None,
    };
    let events = [
        BootEvent::OutputInitialized,
        BootEvent::CapabilityRead { pfr: 0xF00 },
        BootEvent::ImageFound,
        BootEvent::ImageParsedOk { image },
        BootEvent::MemoryGranted { address: 0x20_0000 },
    ];
    let (state, actions) = drive(BootState::Start, &events);
    assert!(actions.contains(&BootAction::LoadKernel { destination: 0x20_0000, size: 8192 }));
    assert_eq!(
        state,
        BootState::MemoryReserved { image, destination: 0x20_0000 }
    );
}

#[test]
fn rejected_image_never_reaches_reservation() {
    let events = [
        BootEvent::OutputInitialized,
        BootEvent::CapabilityRead { pfr: 0x300 },
        BootEvent::ImageFound,
        BootEvent::ImageRejected,
        // Later events are absorbed without effect.
        BootEvent::MemoryGranted { address: 0x4000 },
        BootEvent::KernelCopied { entry_point: 0x4000 },
    ];
    let (state, actions) = drive(BootState::Start, &events);
    assert_eq!(state, BootState::Halted { error: FatalError::ImageMalformed });
    assert!(actions.iter().all(|a| !is_memory_action(a)));
    assert_eq!(FatalError::ImageMalformed.message(), "invalid kernel image");
}

#[test]
fn zero_size_image_is_malformed() {
    let image = KernelDescriptor {
        required_size: 0,
        preferred_address: None,
    };
    let events = [
        BootEvent::OutputInitialized,
        BootEvent::CapabilityRead { pfr: 0x200 },
        BootEvent::ImageFound,
        BootEvent::ImageParsedOk { image },
    ];
    let (state, actions) = drive(BootState::Start, &events);
    assert_eq!(state, BootState::Halted { error: FatalError::ImageMalformed });
    assert!(actions.iter().all(|a| !is_memory_action(a)));
}

#[test]
fn missing_image_halts() {
    let events = [
        BootEvent::OutputInitialized,
        BootEvent::CapabilityRead { pfr: 0x200 },
        BootEvent::ImageMissing,
    ];
    let (state, actions) = drive(BootState::Start, &events);
    assert_eq!(state, BootState::Halted { error: FatalError::ImageNotFound });
    assert!(actions.iter().all(|a| !is_memory_action(a)));
    assert_eq!(
        FatalError::ImageNotFound.message(),
        "no embedded kernel image found"
    );
}

#[test]
fn denied_reservation_halts() {
    let image = KernelDescriptor {
        required_size: 4096,
        preferred_address: None,
    };
    let events = [
        BootEvent::OutputInitialized,
        BootEvent::CapabilityRead { pfr: 0x200 },
        BootEvent::ImageFound,
        BootEvent::ImageParsedOk { image },
        BootEvent::MemoryDenied,
    ];
    let (state, actions) = drive(BootState::Start, &events);
    assert_eq!(
        state,
        BootState::Halted { error: FatalError::MemoryReservationFailed }
    );
    assert!(actions.iter().all(|a| !matches!(a, BootAction::LoadKernel { .. })));
    assert_eq!(
        FatalError::MemoryReservationFailed.message(),
        "memory reservation failed"
    );
}

#[test]
fn granted_region_overflowing_address_space_halts() {
    // A relocatable image granted a region too close to the top of the
    // address space cannot be loaded without wrapping around.
    let image = KernelDescriptor {
        required_size: 100,
        preferred_address: None,
    };
    let events = [
        BootEvent::OutputInitialized,
        BootEvent::CapabilityRead { pfr: 0x200 },
        BootEvent::ImageFound,
        BootEvent::ImageParsedOk { image },
        BootEvent::MemoryGranted { address: u64::MAX - 10 },
    ];
    let (state, actions) = drive(BootState::Start, &events);
    assert_eq!(
        state,
        BootState::Halted { error: FatalError::MemoryReservationFailed }
    );
    assert!(actions.iter().all(|a| !matches!(a, BootAction::LoadKernel { .. })));
}

#[test]
fn boot_opens_with_diagnostics() {
    assert_eq!(initial_action(), BootAction::InitializeOutput);
}

#[test]
fn reservation_precedes_load_with_same_size() {
    let image = KernelDescriptor {
        required_size: 512,
        preferred_address: None,
    };
    let events = [
        BootEvent::OutputInitialized,
        BootEvent::CapabilityRead { pfr: 0x200 },
        BootEvent::ImageFound,
        BootEvent::ImageParsedOk { image },
        BootEvent::MemoryGranted { address: 0x8000 },
        BootEvent::KernelCopied { entry_point: 0x8000 },
        BootEvent::HandoffReady,
    ];
    let (_, actions) = drive(BootState::Start, &events);
    let reserve = actions
        .iter()
        .position(|a| *a == BootAction::ReserveMemory { size: 512 })
        .expect("a reservation is requested");
    let load = actions
        .iter()
        .position(|a| matches!(a, BootAction::LoadKernel { .. }))
        .expect("a load is requested");
    assert!(reserve < load);
    assert_eq!(
        actions[load],
        BootAction::LoadKernel { destination: 0x8000, size: 512 }
    );
}

#[test]
fn out_of_protocol_events_are_refused() {
    assert!(!event_accepted(&BootState::Start, &BootEvent::ImageFound));
    assert!(!event_accepted(
        &BootState::CapabilityChecked,
        &BootEvent::CapabilityRead { pfr: 0x200 }
    ));
    assert!(!event_accepted(
        &BootState::ImageLocated,
        &BootEvent::MemoryGranted { address: 0 }
    ));
    assert!(event_accepted(&BootState::Start, &BootEvent::OutputInitialized));
    assert!(event_accepted(
        &BootState::Halted { error: FatalError::ImageNotFound },
        &BootEvent::OutputInitialized
    ));
}
