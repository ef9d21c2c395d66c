use bsp_loader::lightmap::Lightmap;
use bsp_loader::map_data::{LightmapClusterTableEntry, LightmapPatchTableEntry};

fn patch(x: u8, y: u8, w: u8, h: u8, styles: u8, start: usize, end: usize) -> LightmapPatchTableEntry {
    LightmapPatchTableEntry {
        sub_block_x: x,
        sub_block_y: y,
        sub_blocks_wide: w,
        sub_blocks_high: h,
        style_count: styles,
        _padding1: 0,
        _padding2: 0,
        data_start_offset: start,
        data_end_offset: end,
    }
}

#[test]
fn new_lightmap_is_rounded_and_zeroed() {
    let entry = LightmapClusterTableEntry {
        width: 10,
        height: 6,
        patch_table_start_index: 0,
        patch_table_end_index: 0,
    };
    let l = Lightmap::new(&entry);
    assert_eq!(l.physical_width(), 12);
    assert_eq!(l.physical_height(), 8);
    assert_eq!(l.image_data().len(), 4 * 12 * 8);
    assert!(l.image_data().iter().all(|&b| b == 0));
    let tiny = LightmapClusterTableEntry { width: 0, height: 0, ..entry };
    let l = Lightmap::new(&tiny);
    assert_eq!((l.physical_width(), l.physical_height()), (4, 4));
}

#[test]
fn update_places_sub_blocks() {
    // 16 luxels wide: two 8x8 blocks across.
    let entry = LightmapClusterTableEntry {
        width: 16,
        height: 16,
        patch_table_start_index: 1,
        patch_table_end_index: 3,
    };
    let mut l = Lightmap::new(&entry);
    let data: Vec<u8> = (0..64).collect();
    let table = [
        patch(0, 0, 1, 1, 1, 0, 8),
        // Two styles of one sub-block at (1, 1).
        patch(1, 1, 1, 1, 2, 0, 16),
        // A 2x1 patch at (2, 0), one style.
        patch(2, 0, 2, 1, 1, 32, 48),
    ];
    assert!(l.patches_fit(&table, &data, &entry, 1));
    l.update(&table, &data, &entry, 1);
    let img = l.image_data();
    // (1, 1): block 0, lower right sub-block: 16 + 8; style 1 is the second page.
    assert_eq!(&img[24..32], &data[8..16]);
    // (2, 0) is the upper left of block 1 and (3, 0) its upper right.
    assert_eq!(&img[32..40], &data[32..40]);
    assert_eq!(&img[40..48], &data[40..48]);
    assert!(img[0..24].iter().all(|&b| b == 0));

    // A style beyond the patch's last one uses its last one.
    let mut l = Lightmap::new(&entry);
    let entry1 = LightmapClusterTableEntry { patch_table_start_index: 1, patch_table_end_index: 2, ..entry };
    l.update(&table, &data, &entry1, 3);
    assert_eq!(&l.image_data()[24..32], &data[8..16]);
    l.update(&table, &data, &entry1, 0);
    assert_eq!(&l.image_data()[24..32], &data[0..8]);
}

#[test]
fn patches_that_do_not_fit() {
    let entry = LightmapClusterTableEntry {
        width: 8,
        height: 8,
        patch_table_start_index: 0,
        patch_table_end_index: 1,
    };
    let l = Lightmap::new(&entry);
    let data = vec![0u8; 64];
    assert!(!l.patches_fit(&[patch(0, 0, 1, 1, 1, 0, 8)], &data, &entry, 4));
    assert!(!l.patches_fit(&[patch(0, 0, 1, 1, 0, 0, 8)], &data, &entry, 0));
    assert!(!l.patches_fit(&[patch(0, 0, 1, 1, 1, 0, 100)], &data, &entry, 0));
    assert!(!l.patches_fit(&[patch(0, 0, 2, 1, 1, 0, 8)], &data, &entry, 0));
    assert!(!l.patches_fit(&[patch(200, 200, 1, 1, 1, 0, 8)], &data, &entry, 0));
    assert!(!l.patches_fit(&[], &data, &entry, 0));
    assert!(l.patches_fit(&[patch(1, 1, 1, 1, 1, 0, 8)], &data, &entry, 0));
}
