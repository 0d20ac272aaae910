use hermit_loader::capability::{capability_sufficient, extract_capability_field};
use hermit_loader::image::{load_destination, KernelDescriptor};

#[test]
fn capability_field_extraction() {
    assert_eq!(extract_capability_field(0), 0);
    assert_eq!(extract_capability_field(0x100), 1);
    assert_eq!(extract_capability_field(0x200), 2);
    assert_eq!(extract_capability_field(0xF00), 15);
    // Bits outside 8..=11 are ignored.
    assert_eq!(extract_capability_field(0xFFFF_FFFF_FFFF_F3FF), 3);
    assert_eq!(extract_capability_field(0x1000), 0);
    assert_eq!(extract_capability_field(0xFF), 0);
}

#[test]
fn capability_sufficient_iff_field_at_least_two() {
    for v in 0u64..=15 {
        let pfr = (v << 8) | 0xFF | (0xABu64 << 12);
        assert_eq!(capability_sufficient(pfr), v >= 2);
    }
}

#[test]
fn destination_prefers_image_address() {
    assert_eq!(load_destination(Some(0x100000), 0x9000), 0x100000);
    assert_eq!(load_destination(Some(0), 0x9000), 0);
    assert_eq!(load_destination(None, 0x9000), 0x9000);
    assert_eq!(load_destination(None, 0), 0);
}

#[test]
fn descriptor_well_formedness() {
    let good = KernelDescriptor {
        required_size: 4096,
        preferred_address: Some(0x100000),
    };
    assert!(good.is_wf());

    let zero_size = KernelDescriptor {
        required_size: 0,
        preferred_address: None,
    };
    assert!(!zero_size.is_wf());

    let wrapping = KernelDescriptor {
        required_size: 2,
        preferred_address: Some(u64::MAX),
    };
    assert!(!wrapping.is_wf());

    let at_top = KernelDescriptor {
        required_size: 1,
        preferred_address: Some(u64::MAX - 1),
    };
    assert!(at_top.is_wf());

    let relocatable = KernelDescriptor {
        required_size: u64::MAX,
        preferred_address: None,
    };
    assert!(relocatable.is_wf());
}
