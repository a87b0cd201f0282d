//! End-to-end scenarios for the overlay registry: installation, slot
//! independence, deduplication, teardown ordering and restoration.

use vmthook::vmthook::{ensure_range, HookError, HookInstance, InstanceRegistry};

fn table_words() -> Vec<usize> {
    // Table = [f0, f1, f2, 0].
    vec![0xf0f0, 0xf1f1, 0xf2f2, 0]
}

#[test]
fn identity_hook_on_three_slot_table() {
    // Install on slot 1; the clone shows the trampoline there and the
    // original entries elsewhere; after the drop the teardown hands back the
    // original table pointer read at creation.
    let words = table_words();
    let mut reg = InstanceRegistry::new();
    let h = reg
        .install_first(0x1000, 0x2000, &words, 1, 0xc105, 0x7a7a)
        .unwrap();
    assert_eq!(h.instance_ptr, 0x1000);
    assert_eq!(h.slot, 1);
    {
        let ov = reg.overlay_ref(0x1000).unwrap();
        assert_eq!(ov.table_len(), 3);
        assert_eq!(ov.clone_table_ref().as_slice(), &[0xf0f0, 0x7a7a, 0xf2f2]);
        assert_eq!(ov.original_table_addr(), 0x2000);
        assert_eq!(ov.instance_addr(), 0x1000);
        assert_eq!(ov.handle_count(), 1);
    }
    let torn = reg.drop_handle(h).expect("last handle tears the overlay down");
    // The pre-install first word is restored from the overlay that is still
    // alive at this point.
    assert_eq!(torn.original_table_addr(), 0x2000);
    assert!(!reg.has_overlay(0x1000));
}

#[test]
fn constant_override_slot_zero() {
    // Install on slot 0; the stored closure is the one the dispatcher will
    // run; after the drop the slot shows f0 again.
    let words = table_words();
    let mut reg = InstanceRegistry::new();
    let h = reg
        .install_first(0x1000, 0x2000, &words, 0, 0xc0de, 0x7777)
        .unwrap();
    assert_eq!(
        reg.dispatch_lookup(0x1000, 0),
        Some((0xc0de, 0xf0f0)),
        "dispatcher reads the closure and the original entry"
    );
    let torn = reg.drop_handle(h).unwrap();
    assert_eq!(torn.clone_table_ref().as_slice(), &[0xf0f0, 0xf1f1, 0xf2f2]);
    assert!(!reg.has_overlay(0x1000));
}

#[test]
fn two_hooks_one_instance() {
    // Install on slots 0 and 2; slot 1 is untouched; dropping the slot-0
    // handle restores slot 0 and keeps slot 2 hooked; dropping the slot-2
    // handle restores the table pointer.
    let words = table_words();
    let mut reg = InstanceRegistry::new();
    let h0 = reg
        .install_first(0x1000, 0x2000, &words, 0, 0xc0, 0x70)
        .unwrap();
    let h2 = reg.install_more(0x1000, 2, 0xc2, 0x72).unwrap();
    {
        let ov = reg.overlay_ref(0x1000).unwrap();
        assert_eq!(ov.clone_table_ref().as_slice(), &[0x70, 0xf1f1, 0x72]);
        assert_eq!(ov.handle_count(), 2);
    }
    assert!(reg.drop_handle(h0).is_none(), "a handle remains: no teardown");
    {
        let ov = reg.overlay_ref(0x1000).unwrap();
        assert_eq!(ov.clone_table_ref().as_slice(), &[0xf0f0, 0xf1f1, 0x72]);
        assert_eq!(ov.handle_count(), 1);
    }
    let torn = reg.drop_handle(h2).expect("last handle tears down");
    assert_eq!(torn.original_table_addr(), 0x2000);
    assert!(!reg.has_overlay(0x1000));
}

#[test]
fn two_instances_same_vtable() {
    // Instances x and y share the original table; installing on x leaves y
    // without an overlay, so y's first word is never touched.
    let words = table_words();
    let mut reg = InstanceRegistry::new();
    let hx = reg
        .install_first(0x1000, 0x2000, &words, 0, 0xc0, 0x70)
        .unwrap();
    assert!(reg.has_overlay(0x1000));
    assert!(!reg.has_overlay(0x3000), "y is not affected by x's hook");
    let hy = reg
        .install_first(0x3000, 0x2000, &words, 1, 0xc1, 0x71)
        .unwrap();
    // Independent overlays: x's table is not changed by y's install.
    assert_eq!(
        reg.overlay_ref(0x1000).unwrap().clone_table_ref().as_slice(),
        &[0x70, 0xf1f1, 0xf2f2]
    );
    assert_eq!(
        reg.overlay_ref(0x3000).unwrap().clone_table_ref().as_slice(),
        &[0xf0f0, 0x71, 0xf2f2]
    );
    reg.drop_handle(hy).unwrap();
    assert!(reg.has_overlay(0x1000), "x's overlay outlives y's");
    reg.drop_handle(hx).unwrap();
    assert!(!reg.has_overlay(0x1000));
}

#[test]
fn out_of_range_slot_is_rejected_without_trace() {
    // Table length 3 (plus terminator): slot 4 fails with SlotOutOfRange and
    // the instance is left unhooked — its first word was never swapped.
    let words = table_words();
    let mut reg = InstanceRegistry::new();
    let e = reg
        .install_first(0x1000, 0x2000, &words, 4, 0xc0, 0x70)
        .unwrap_err();
    assert_eq!(e, HookError::SlotOutOfRange { slot: 4, len: 3 });
    assert!(!reg.has_overlay(0x1000), "no partial installation is observable");
}

#[test]
fn out_of_range_slot_on_existing_overlay() {
    let words = table_words();
    let mut reg = InstanceRegistry::new();
    let h = reg
        .install_first(0x1000, 0x2000, &words, 0, 0xc0, 0x70)
        .unwrap();
    let e = reg.install_more(0x1000, 3, 0xc3, 0x73).unwrap_err();
    assert_eq!(e, HookError::SlotOutOfRange { slot: 3, len: 3 });
    // The overlay is exactly as before the failed install.
    assert_eq!(
        reg.overlay_ref(0x1000).unwrap().clone_table_ref().as_slice(),
        &[0x70, 0xf1f1, 0xf2f2]
    );
    reg.drop_handle(h).unwrap();
}

#[test]
fn unterminated_table_is_rejected() {
    let words = vec![0x10usize, 0x20, 0x30];
    let mut reg = InstanceRegistry::new();
    let e = reg
        .install_first(0x1000, 0x2000, &words, 0, 0xc0, 0x70)
        .unwrap_err();
    assert_eq!(e, HookError::TableLayout { scanned: 3 });
    assert!(!reg.has_overlay(0x1000));
}

#[test]
fn per_instance_dedup_shares_one_overlay() {
    // A second install on the same instance reuses the overlay: both hooks
    // are visible in one clone, and one teardown serves both.
    let words = table_words();
    let mut reg = InstanceRegistry::new();
    let h0 = reg
        .install_first(0x1000, 0x2000, &words, 0, 0xc0, 0x70)
        .unwrap();
    assert!(reg.has_overlay(0x1000));
    let h1 = reg.install_more(0x1000, 1, 0xc1, 0x71).unwrap();
    let ov = reg.overlay_ref(0x1000).unwrap();
    assert_eq!(ov.clone_table_ref().as_slice(), &[0x70, 0x71, 0xf2f2]);
    assert_eq!(ov.handle_count(), 2);
    assert!(reg.drop_handle(h0).is_none());
    assert!(reg.drop_handle(h1).is_some());
}

#[test]
fn restoration_after_any_install_drop_sequence() {
    // A sequence of installs and drops ending with no live handles leaves no
    // overlay, and every teardown carried the original table pointer.
    let words = table_words();
    let mut reg = InstanceRegistry::new();
    let a = reg
        .install_first(0x1000, 0x2000, &words, 0, 0xa0, 0x50)
        .unwrap();
    let b = reg.install_more(0x1000, 1, 0xa1, 0x51).unwrap();
    assert!(reg.drop_handle(a).is_none());
    let c = reg.install_more(0x1000, 2, 0xa2, 0x52).unwrap();
    assert!(reg.drop_handle(c).is_none());
    let torn = reg.drop_handle(b).expect("last drop tears down");
    assert_eq!(torn.original_table_addr(), 0x2000);
    assert_eq!(torn.handle_count(), 0);
    assert!(!reg.has_overlay(0x1000));
}

#[test]
fn teardown_hands_the_clone_back_alive() {
    // Ordering at teardown: the returned overlay still owns the clone — the
    // caller can read the table pointer target and only then free the clone
    // by dropping the overlay.
    let words = table_words();
    let mut reg = InstanceRegistry::new();
    let h = reg
        .install_first(0x1000, 0x2000, &words, 1, 0xc1, 0x71)
        .unwrap();
    let torn = reg.drop_handle(h).unwrap();
    let restore_to = torn.original_table_addr();
    let still_readable = torn.clone_table_ref().len();
    assert_eq!(restore_to, 0x2000);
    assert_eq!(still_readable, 3);
    drop(torn);
}

#[test]
fn dispatch_lookup_unknown_cases() {
    let words = table_words();
    let mut reg = InstanceRegistry::new();
    assert_eq!(reg.dispatch_lookup(0x1000, 0), None, "unhooked instance");
    let h = reg
        .install_first(0x1000, 0x2000, &words, 1, 0xc1, 0x71)
        .unwrap();
    assert_eq!(reg.dispatch_lookup(0x1000, 0), None, "unhooked slot");
    assert_eq!(reg.dispatch_lookup(0x1000, 9), None, "slot past the table");
    assert_eq!(reg.dispatch_lookup(0x1000, 1), Some((0xc1, 0xf1f1)));
    reg.drop_handle(h).unwrap();
}

#[test]
fn hook_and_unhook_single_overlay() {
    // The overlay's own operations, outside the registry.
    let words = table_words();
    let mut ov = HookInstance::new(0x1000, 0x2000, &words).unwrap();
    assert_eq!(ov.table_len(), 3);
    ov.hook_function(2, 0x99).unwrap();
    assert_eq!(ov.clone_table_ref().as_slice(), &[0xf0f0, 0xf1f1, 0x99]);
    assert_eq!(ov.original_function(2), 0xf2f2);
    ov.unhook_function(2).unwrap();
    assert_eq!(ov.clone_table_ref().as_slice(), &[0xf0f0, 0xf1f1, 0xf2f2]);
    let e = ov.hook_function(3, 0x99).unwrap_err();
    assert_eq!(e, HookError::SlotOutOfRange { slot: 3, len: 3 });
}

#[test]
fn closure_storage_follows_hook_lifecycle() {
    let words = table_words();
    let mut ov = HookInstance::new(0x1000, 0x2000, &words).unwrap();
    ov.hook_function_with_closure(1, 0xc1, 0x71).unwrap();
    assert_eq!(ov.closure(1), 0xc1);
    assert_eq!(ov.dispatch_lookup(1), Some((0xc1, 0xf1f1)));
    ov.unhook_function_with_closure(1).unwrap();
    assert_eq!(ov.dispatch_lookup(1), None);
}

#[test]
fn ensure_range_boundaries() {
    assert!(ensure_range(0, 1).is_ok());
    assert!(ensure_range(3, 4).is_ok());
    assert_eq!(
        ensure_range(4, 4).unwrap_err(),
        HookError::SlotOutOfRange { slot: 4, len: 4 }
    );
    assert_eq!(
        ensure_range(0, 0).unwrap_err(),
        HookError::SlotOutOfRange { slot: 0, len: 0 }
    );
}

#[test]
fn count_funcs_finds_first_null() {
    assert_eq!(HookInstance::count_funcs(&vec![1, 2, 0, 4]), Some(2));
    assert_eq!(HookInstance::count_funcs(&vec![0usize]), Some(0));
    assert_eq!(HookInstance::count_funcs(&vec![1usize, 2]), None);
    assert_eq!(HookInstance::count_funcs(&Vec::new()), None);
}
