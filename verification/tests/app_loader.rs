use bsp_loader::app_loader::{
    AppLoader, BootHeader, DolHeader, Effect, LoadCommand, BOOT_INFO_LOAD_ADDR, FST_LOAD_ADDR,
};

fn dol_bytes() -> Vec<u8> {
    let mut b = vec![0u8; 256];
    let put = |b: &mut Vec<u8>, off: usize, v: u32| b[off..off + 4].copy_from_slice(&v.to_be_bytes());
    // Section 0: offset 0x100, to 0x80003100, 0x40 bytes.
    put(&mut b, 0, 0x100);
    put(&mut b, 72, 0x8000_3100);
    put(&mut b, 144, 0x40);
    // Section 7: offset 0x200, to 0x80005000, 0x20 bytes.
    put(&mut b, 28, 0x200);
    put(&mut b, 72 + 28, 0x8000_5000);
    put(&mut b, 144 + 28, 0x20);
    put(&mut b, 216, 0x8010_0000);
    put(&mut b, 220, 0x1000);
    put(&mut b, 224, 0x8000_3154);
    b
}

#[test]
fn apploader_sequence() {
    let mut l = AppLoader::new(0x8120_0000, 0x8120_1000, 0x20);
    let s = l.main();
    assert!(s.effects.is_empty());
    assert_eq!(s.command, Some(LoadCommand { addr: 0x8120_0000, len: 64, offset: 0x420 }));
    let mut boot = vec![0u8; 32];
    boot[0..4].copy_from_slice(&0x0001_0000u32.to_be_bytes());
    boot[4..8].copy_from_slice(&0x0002_0000u32.to_be_bytes());
    boot[8..12].copy_from_slice(&0x300u32.to_be_bytes());
    l.set_boot_header(BootHeader::from_bytes(&boot));

    let s = l.main();
    assert_eq!(s.effects, vec![Effect::SetBootInfoAddress(BOOT_INFO_LOAD_ADDR)]);
    assert_eq!(s.command, Some(LoadCommand { addr: BOOT_INFO_LOAD_ADDR, len: 0x20, offset: 0x440 }));

    let s = l.main();
    assert_eq!(s.effects, vec![Effect::SetFstAddress(FST_LOAD_ADDR), Effect::SetFstSize(0x300)]);
    assert_eq!(s.command, Some(LoadCommand { addr: FST_LOAD_ADDR, len: 0x300, offset: 0x2_0000 }));

    let s = l.main();
    assert_eq!(s.command, Some(LoadCommand { addr: 0x8120_1000, len: 256, offset: 0x1_0000 }));
    l.set_dol_header(DolHeader::from_bytes(&dol_bytes()));

    let s = l.main();
    assert_eq!(s.command, Some(LoadCommand { addr: 0x8000_3100, len: 0x40, offset: 0x1_0100 }));
    let s = l.main();
    assert_eq!(s.command, Some(LoadCommand { addr: 0x8000_5000, len: 0x20, offset: 0x1_0200 }));
    let s = l.main();
    assert_eq!(s.effects, vec![Effect::ClearBss { start: 0x8010_0000, size: 0x1000 }]);
    assert_eq!(s.command, None);
    let s = l.main();
    assert!(s.effects.is_empty());
    assert_eq!(s.command, None);
    assert_eq!(l.entry_point(), 0x8000_3154);
}

#[test]
fn dol_header_fields() {
    let h = DolHeader::from_bytes(&dol_bytes());
    assert_eq!(h.section_offsets[0], 0x100);
    assert_eq!(h.section_load_addrs[7], 0x8000_5000);
    assert_eq!(h.section_sizes[7], 0x20);
    assert_eq!(h.section_sizes[1], 0);
    assert_eq!(h.bss_size, 0x1000);
    assert_eq!(DolHeader::zeroed().entry_point, 0);
    assert_eq!(BootHeader::zeroed().fst_size, 0);
}
