use bsp_loader::display_list_data::{
    cluster_geometry_byte_code, cluster_geometry_table, get_cluster_geometry, ByteCodeEntry,
    ByteCodeReader, ClusterGeometry,
};

#[test]
fn tables_are_big_endian_words() {
    let table = cluster_geometry_table(&[0, 0, 0, 1, 0, 0, 0, 3, 0, 0, 1, 0, 0, 0, 1, 2]);
    assert_eq!(table.len(), 2);
    assert_eq!(*get_cluster_geometry(&table, 0), ClusterGeometry::new(1, 3));
    assert_eq!(*get_cluster_geometry(&table, 1), ClusterGeometry::new(256, 258));
    assert_eq!(cluster_geometry_byte_code(&[0x12, 0x34, 0x56, 0x78]), vec![0x1234_5678]);
}

#[test]
fn byte_code_decodes_each_instruction() {
    let mut words = vec![0x0000_0010u32, 0x40];
    words.push(0x0100_0000);
    words.extend(1..=12u32);
    words.push(0x0200_0007);
    words.push(0x0300_0009);
    words.push(0x0411_2233);
    words.push(0xff00_0005);
    let mut r = ByteCodeReader::new(&words);
    assert!(matches!(r.next(), Some(ByteCodeEntry::Draw { start_offset: 0x10, end_offset: 0x40 })));
    match r.next() {
        Some(ByteCodeEntry::SetPlane { texture_matrix }) => assert_eq!(texture_matrix[11], 12),
        _ => panic!("expected a plane"),
    }
    assert!(matches!(r.next(), Some(ByteCodeEntry::SetBaseTexture { base_texture_index: 7 })));
    assert!(matches!(r.next(), Some(ByteCodeEntry::SetEnvMapTexture { env_map_texture_index: 9 })));
    assert!(matches!(r.next(), Some(ByteCodeEntry::SetEnvMapTint { r: 0x11, g: 0x22, b: 0x33 })));
    assert!(matches!(r.next(), Some(ByteCodeEntry::SetMode { mode: 5 })));
    assert!(r.next().is_none());
}

#[test]
fn byte_code_errors_are_detected() {
    assert!(!ByteCodeReader::new(&[0x0500_0000]).next_is_valid());
    assert!(!ByteCodeReader::new(&[0x0000_0000]).next_is_valid());
    assert!(!ByteCodeReader::new(&[0x0100_0000, 1, 2]).next_is_valid());
    assert!(ByteCodeReader::new(&[]).next_is_valid());
    let g = ClusterGeometry::new(1, 2);
    let code = [0xff00_0000u32, 0x0200_0003, 0xff00_0000];
    let mut r = g.iter_display_lists(&code);
    assert!(matches!(r.next(), Some(ByteCodeEntry::SetBaseTexture { base_texture_index: 3 })));
    assert!(r.next().is_none());
}
