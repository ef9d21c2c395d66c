use bsp_loader::mmio::{
    InterruptCause, InterruptMask, Interrupts, PermissionRoot, Uninterruptible, INTERRUPT_DVD,
    INTERRUPT_GP_ERROR, INTERRUPT_HIGH_SPEED_PORT, INTERRUPT_SOURCES, INTERRUPT_VIDEO_INTERFACE,
};
use bsp_loader::vpk_path::VpkPath;

#[test]
fn tokens_are_copyable() {
    let root = PermissionRoot::new_unchecked();
    let copy = root;
    let _ = (root, copy);
    let u = Uninterruptible::new_unchecked();
    let _ = (u, u);
}

#[test]
fn vpk_paths_are_well_formed() {
    for (name, prefix, ext) in [("a/b", "c", "d"), ("x.y", "", "z"), ("m/n.o", "m", "p")] {
        let p = VpkPath::new_with_prefix_and_extension(name, prefix, ext);
        assert!(p.is_well_formed());
        let rebuilt = if p.parent().as_str().is_empty() && !p.to_string().contains('/') {
            format!("{}.{}", p.file_stem().as_str(), p.extension().as_str())
        } else {
            format!("{}/{}.{}", p.parent().as_str(), p.file_stem().as_str(), p.extension().as_str())
        };
        assert_eq!(rebuilt, p.to_string());
    }
}

#[test]
fn all_interrupt_sources() {
    let all = Interrupts::all();
    assert_eq!(all.bits, 0x3fff);
    for i in 0..INTERRUPT_SOURCES {
        assert!(all.is_set(i));
        assert!(!Interrupts::zero().is_set(i));
    }
    assert_eq!(Interrupts::zero().with(INTERRUPT_DVD, true).bits, 0x4);
    assert_eq!(all.with(INTERRUPT_HIGH_SPEED_PORT, false).bits, 0x1fff);
    assert_eq!(InterruptMask::new(all).bits, 0x3fff);
    assert_eq!(InterruptMask { bits: 0xffff_ffff }.interrupts(), all);
    let cause = InterruptCause { bits: 0x0001_0104 };
    assert!(cause.reset_switch_is_pressed());
    assert!(cause.interrupts().is_set(INTERRUPT_DVD));
    assert!(cause.interrupts().is_set(INTERRUPT_VIDEO_INTERFACE));
    assert!(!cause.interrupts().is_set(INTERRUPT_GP_ERROR));
    assert!(!InterruptCause { bits: 0x3fff }.reset_switch_is_pressed());
}
