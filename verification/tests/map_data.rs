use bsp_loader::map_data::{
    relocate_references, BspNode, BspStep, ClusterGeometry, TextureReference, TextureTableEntry,
    GX_CLAMP, GX_LINEAR, GX_LIN_MIP_LIN, GX_REPEAT,
};

#[test]
fn relocation_keeps_the_command_byte() {
    let mut dl = vec![0x88, 0x11, 0x22, 0x33, 0x99, 0x44, 0x55, 0x66];
    let refs = [
        TextureReference { display_list_offset: 0, texture_id: 1 },
        TextureReference { display_list_offset: 4, texture_id: 0 },
    ];
    let starts = [0x20, 0x1000];
    relocate_references(&mut dl, &refs, &starts, 0x8040_0000);
    // (0x80401000 >> 5) & 0xffffff = 0x020080; (0x80400020 >> 5) & 0xffffff = 0x020001.
    assert_eq!(dl, vec![0x88, 0x02, 0x00, 0x80, 0x99, 0x02, 0x00, 0x01]);
}

#[test]
fn relocating_twice_is_relocating_once() {
    let original = vec![0x61, 0xde, 0xad, 0xbe, 0xef, 0x62, 0x01, 0x02, 0x03, 0x04];
    let refs = [
        TextureReference { display_list_offset: 0, texture_id: 1 },
        TextureReference { display_list_offset: 2, texture_id: 0 },
        TextureReference { display_list_offset: 5, texture_id: 1 },
        TextureReference { display_list_offset: 0, texture_id: 0 },
    ];
    let starts = [0x40, 0x12_3460];
    let mut once = original.clone();
    relocate_references(&mut once, &refs, &starts, 0x8123_4560);
    let mut twice = once.clone();
    relocate_references(&mut twice, &refs, &starts, 0x8123_4560);
    assert_eq!(twice, once);
    assert_ne!(once, original);
    assert_eq!(once[0], 0x61);
}

#[test]
fn bsp_steps() {
    let node = BspNode { plane_bits: [0; 4], children: [3, -5] };
    assert_eq!(node.step(true), BspStep::Node(3));
    assert_eq!(node.step(false), BspStep::Leaf(4));
    let edge = BspNode { plane_bits: [0; 4], children: [-1, i32::MIN] };
    assert_eq!(edge.step(true), BspStep::Leaf(0));
    assert_eq!(edge.step(false), BspStep::Leaf(i32::MAX as usize));
}

#[test]
fn texture_sampling() {
    let t = TextureTableEntry {
        width: 64,
        height: 64,
        mip_count: 7,
        flags: 0x01,
        format: 14,
        _padding: 0,
        start_index: 0,
        end_index: 0,
    };
    let s = t.sampling();
    assert_eq!((s.wrap_s, s.wrap_t), (GX_CLAMP, GX_REPEAT));
    assert!(s.mipmap);
    assert_eq!(s.min_filter, GX_LIN_MIP_LIN);
    assert_eq!(s.max_lod, 6);
    let single = TextureTableEntry { mip_count: 1, flags: 0x02, ..t };
    let s = single.sampling();
    assert_eq!((s.wrap_s, s.wrap_t), (GX_REPEAT, GX_CLAMP));
    assert!(!s.mipmap);
    assert_eq!(s.min_filter, GX_LINEAR);
    assert_eq!(s.max_lod, 0);
}

#[test]
fn cluster_passes() {
    let mut ranges = [[0usize; 2]; 18];
    ranges[2] = [1, 3];
    let g = ClusterGeometry { byte_code_index_ranges: ranges };
    let code = [0x0200_0001u32, 0x0200_0002, 0x0300_0003, 0xff00_0000];
    let mut reader = g.iter_display_lists(&code, 2);
    assert!(reader.next_is_valid());
    assert!(reader.next().is_some());
    assert!(reader.next().is_some());
    assert!(reader.next().is_none());
}
