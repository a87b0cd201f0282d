//! Pattern scanning over code bytes, and the RTTI address arithmetic.

use vmthook::scan::scan;
use vmthook::x86_64::{RTTICompleteObjectLocator, TypeDescriptor};

#[test]
fn scan_finds_first_match_and_offsets_it() {
    let bytes = [0x10u8, 0x20, 0x30, 0x40, 0x20, 0x30];
    assert_eq!(scan(&bytes, 0x4000, "20 30 40", 0).unwrap(), Some(0x4001));
    // The hit address carries the caller's extra offset.
    assert_eq!(scan(&bytes, 0x4000, "20 30 40", 2).unwrap(), Some(0x4003));
    // Only the first of the two "20 30" occurrences is reported.
    assert_eq!(scan(&bytes, 0x4000, "20 30", 0).unwrap(), Some(0x4001));
}

#[test]
fn scan_wildcards_and_misses() {
    let bytes = [0xfe, 0x00, 0x68, 0x98];
    assert_eq!(scan(&bytes, 0, "fe ? 68", 0).unwrap(), Some(0));
    assert_eq!(scan(&bytes, 0, "99 99", 0).unwrap(), None);
}

#[test]
fn scan_rejects_a_malformed_pattern() {
    let bytes = [0x10u8, 0x20];
    assert!(scan(&bytes, 0, "zz xx", 0).is_err());
}

#[test]
fn scan_rejects_an_overlong_pattern() {
    // The scanner accepts at most 1024 tokens; one more is rejected, and a
    // well-formed pattern of any other length is not.
    let bytes = [0x10u8, 0x20];
    let long = "00 ".repeat(1025);
    assert!(scan(&bytes, 0, long.trim_end(), 0).is_err());
    let allowed = "00 ".repeat(1024);
    assert!(scan(&bytes, 0, allowed.trim_end(), 0).is_ok());
}

#[test]
fn locator_walks_back_to_the_image_base() {
    let loc = RTTICompleteObjectLocator {
        signature: 1,
        offset: 0,
        constructor_displacement_offset: 0,
        descriptor_offset: 0x500,
        class_descriptor_offset: 0,
        self_offset: 0x2000,
    };
    // The locator was read at image base + self_offset; the descriptor sits
    // descriptor_offset past the base.
    assert_eq!(loc.type_descriptor(0x4000_2000), 0x4000_0500);
}

#[test]
fn locator_saturates_below_zero() {
    let loc = RTTICompleteObjectLocator {
        signature: 1,
        offset: 0,
        constructor_displacement_offset: 0,
        descriptor_offset: 0x10,
        class_descriptor_offset: 0,
        self_offset: 0x2000,
    };
    assert_eq!(loc.type_descriptor(0x1000), 0x10);
}

#[test]
fn type_descriptor_holds_its_name() {
    let d = TypeDescriptor::new(0x1111, 0, b".?AVPlayer@@".to_vec());
    assert_eq!(d.name_ref().as_slice(), b".?AVPlayer@@");
}
