use bsp_loader::vpk::{archive_file_name, decimal, index_file_name, Vpk, VpkError};
use bsp_loader::vpk_path::VpkPath;

fn u16le(v: &mut Vec<u8>, n: u16) {
    v.extend_from_slice(&n.to_le_bytes());
}

fn u32le(v: &mut Vec<u8>, n: u32) {
    v.extend_from_slice(&n.to_le_bytes());
}

fn cstr(v: &mut Vec<u8>, s: &str) {
    v.extend_from_slice(s.as_bytes());
    v.push(0);
}

/// A file record: crc, preload size, archive, offset, length, terminator.
fn record(v: &mut Vec<u8>, preload: u16, archive: u16, offset: u32, length: u32, terminator: u16) {
    u32le(v, 0xdead_beef);
    u16le(v, preload);
    u16le(v, archive);
    u32le(v, offset);
    u32le(v, length);
    u16le(v, terminator);
}

fn index_file(version: u32, tree: &[u8]) -> Vec<u8> {
    let mut d = Vec::new();
    u32le(&mut d, 0x55aa_1234);
    u32le(&mut d, version);
    u32le(&mut d, tree.len() as u32);
    for _ in 0..4 {
        u32le(&mut d, 0);
    }
    d.extend_from_slice(tree);
    d
}

fn sample_tree() -> Vec<u8> {
    let mut t = Vec::new();
    cstr(&mut t, "vtf");
    cstr(&mut t, "materials/brick");
    cstr(&mut t, "wall01");
    record(&mut t, 2, 0, 4, 3, 0xffff);
    t.extend_from_slice(&[0xaa, 0xbb]);
    cstr(&mut t, "wall02");
    record(&mut t, 0, 1, 0, 2, 0xffff);
    t.push(0);
    t.push(0);
    cstr(&mut t, "vmt");
    cstr(&mut t, "materials/brick");
    cstr(&mut t, "wall01");
    record(&mut t, 0, 0, 8, 1, 0xffff);
    t.push(0);
    t.push(0);
    t.push(0);
    t
}

#[test]
fn vpk_reads_tree_and_finds_files() {
    let vpk = Vpk::new("pak01".to_string(), index_file(2, &sample_tree())).unwrap();
    let path = VpkPath::new_with_prefix_and_extension("brick/wall01", "materials", "vtf");
    let entry = vpk.lookup(&path).unwrap();
    assert_eq!(entry.preload_bytes, 2);
    assert_eq!(entry.archive_index, 0);
    assert_eq!(entry.entry_offset, 4);
    assert_eq!(entry.entry_length, 3);
    assert_eq!(entry.crc, 0xdead_beef);
    // Header (28) + "vtf\0" (4) + "materials/brick\0" (16) + "wall01\0" (7) + record (18).
    assert_eq!(entry.preload_offset, 28 + 4 + 16 + 7 + 18);
    assert_eq!(vpk.preload(&entry), &[0xaa, 0xbb]);
    let archive = [0u8, 1, 2, 3, 4, 5, 6, 7, 8, 9];
    assert_eq!(vpk.assemble(&entry, &archive), vec![0xaa, 0xbb, 4, 5, 6]);
    assert_eq!(vpk.archive_name(&entry), "pak01_000.vpk");

    let vmt = VpkPath::new_with_prefix_and_extension("brick/wall01", "materials", "vmt");
    assert_eq!(vpk.lookup(&vmt).unwrap().entry_offset, 8);
    let second = VpkPath::new_with_prefix_and_extension("materials/brick/wall02", "materials", "vtf");
    assert_eq!(vpk.lookup(&second).unwrap().archive_index, 1);
    let missing = VpkPath::new_with_prefix_and_extension("brick/wall03", "materials", "vtf");
    assert!(vpk.lookup(&missing).is_none());
}

#[test]
fn vpk_later_record_replaces_earlier() {
    let mut t = Vec::new();
    cstr(&mut t, "txt");
    cstr(&mut t, "a");
    cstr(&mut t, "b");
    record(&mut t, 0, 0, 1, 1, 0xffff);
    cstr(&mut t, "b");
    record(&mut t, 0, 0, 2, 1, 0xffff);
    t.push(0);
    t.push(0);
    t.push(0);
    let vpk = Vpk::new("x".to_string(), index_file(2, &t)).unwrap();
    let path = VpkPath::new_with_prefix_and_extension("a/b", "", "txt");
    assert_eq!(vpk.lookup(&path).unwrap().entry_offset, 2);
}

#[test]
fn vpk_errors() {
    assert_eq!(Vpk::new("x".to_string(), vec![0; 10]).err(), Some(VpkError::TruncatedHeader));
    assert_eq!(
        Vpk::new("x".to_string(), index_file(1, &sample_tree())).err(),
        Some(VpkError::UnsupportedVersion(1))
    );
    let mut short = index_file(2, &sample_tree());
    short.truncate(40);
    assert_eq!(Vpk::new("x".to_string(), short).err(), Some(VpkError::TruncatedTree));

    let mut t = Vec::new();
    t.extend_from_slice(b"vtf");
    assert_eq!(
        Vpk::new("x".to_string(), index_file(2, &t)).err(),
        Some(VpkError::UnterminatedName)
    );

    let mut t = Vec::new();
    cstr(&mut t, "VTF");
    assert_eq!(Vpk::new("x".to_string(), index_file(2, &t)).err(), Some(VpkError::InvalidName));

    let mut t = Vec::new();
    t.extend_from_slice(&[0xff, 0xfe, 0]);
    assert_eq!(Vpk::new("x".to_string(), index_file(2, &t)).err(), Some(VpkError::InvalidName));

    let mut t = Vec::new();
    cstr(&mut t, "vtf");
    cstr(&mut t, "a");
    cstr(&mut t, "b");
    t.extend_from_slice(&[1, 2, 3]);
    assert_eq!(Vpk::new("x".to_string(), index_file(2, &t)).err(), Some(VpkError::TruncatedEntry));

    let mut t = Vec::new();
    cstr(&mut t, "vtf");
    cstr(&mut t, "a");
    cstr(&mut t, "b");
    record(&mut t, 0, 0, 0, 0, 0x1234);
    t.extend_from_slice(&[0, 0, 0]);
    assert_eq!(Vpk::new("x".to_string(), index_file(2, &t)).err(), Some(VpkError::BadTerminator));

    let mut t = Vec::new();
    cstr(&mut t, "vtf");
    cstr(&mut t, "a");
    cstr(&mut t, "b");
    record(&mut t, 100, 0, 0, 0, 0xffff);
    t.extend_from_slice(&[0, 0, 0]);
    assert_eq!(
        Vpk::new("x".to_string(), index_file(2, &t)).err(),
        Some(VpkError::TruncatedPreload)
    );
}

#[test]
fn vpk_empty_tree_has_no_files() {
    let vpk = Vpk::new("x".to_string(), index_file(2, &[0])).unwrap();
    let path = VpkPath::new_with_prefix_and_extension("a", "", "txt");
    assert!(vpk.lookup(&path).is_none());
}

#[test]
fn vpk_file_names() {
    assert_eq!(index_file_name("pak01"), "pak01_dir.vpk");
    assert_eq!(archive_file_name("pak01", 7), "pak01_007.vpk");
    assert_eq!(archive_file_name("pak01", 42), "pak01_042.vpk");
    assert_eq!(archive_file_name("pak01", 1234), "pak01_1234.vpk");
    assert_eq!(decimal(0, 3), "000");
    assert_eq!(decimal(65535, 3), "65535");
    assert_eq!(decimal(5, 0), "5");
}

#[test]
fn vpk_index_size() {
    let d = index_file(2, &sample_tree());
    let n = d.len();
    let vpk = Vpk::new("pak01".to_string(), d).unwrap();
    assert_eq!(vpk.index_len(), n);
}
