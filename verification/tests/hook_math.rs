//! Tests of the hook-installation arithmetic: page alignment for the
//! protection toggles, and base-plus-offset address resolution.

use tick_control::hook::{page_base, resolve_target};

#[test]
fn page_base_aligns_down() {
    assert_eq!(page_base(0x1234_5678), 0x1234_5000);
    assert_eq!(page_base(0x1234_5fff), 0x1234_5000);
}

#[test]
fn page_base_keeps_aligned_addresses() {
    assert_eq!(page_base(0x1000), 0x1000);
    assert_eq!(page_base(0), 0);
    assert_eq!(page_base(0xfff), 0);
}

#[test]
fn resolve_target_is_base_plus_offset() {
    assert_eq!(resolve_target(0x1400_0000, 0x9d_0cf0), Some(0x149d_0cf0));
    assert_eq!(resolve_target(0, 0), Some(0));
}

#[test]
fn resolve_target_rejects_wraparound() {
    assert_eq!(resolve_target(u64::MAX, 1), None);
    assert_eq!(resolve_target(u64::MAX, 0), Some(u64::MAX));
}
