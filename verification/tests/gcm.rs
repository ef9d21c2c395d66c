use bsp_loader::gcm::{fst_location, is_expected_disc, DvdGcmLoader, FileTableEntry, FstError};

fn be(v: &mut Vec<u8>, n: u32) {
    v.extend_from_slice(&n.to_be_bytes());
}

/// Root, the directory `maps` holding `d1.dat`, and `list.txt` at the top level.
fn table() -> Vec<u8> {
    let mut t = Vec::new();
    be(&mut t, 0x0100_0000);
    be(&mut t, 0);
    be(&mut t, 4);
    be(&mut t, 0x0100_0000);
    be(&mut t, 0);
    be(&mut t, 3);
    be(&mut t, 14);
    be(&mut t, 0x1000);
    be(&mut t, 100);
    be(&mut t, 5);
    be(&mut t, 0x2000);
    be(&mut t, 10);
    t.extend_from_slice(b"maps\0list.txt\0d1.dat\0");
    t
}

#[test]
fn fst_finds_files() {
    let fst = DvdGcmLoader::from_table(table());
    assert_eq!(fst.find_file("maps/D1.DAT"), Ok((0x1000, 100)));
    assert_eq!(fst.find_file("list.txt"), Ok((0x2000, 10)));
    assert_eq!(fst.find_file("maps"), Err(FstError::DirectoryPath));
    assert_eq!(fst.find_file("nope"), Err(FstError::NotFound));
    assert_eq!(fst.find_file("maps/list.txt"), Err(FstError::NotFound));
    assert_eq!(fst.string(5), Some("list.txt"));
    assert_eq!(fst.string(1000), None);
}

#[test]
fn fst_malformed() {
    let mut t = table();
    t.truncate(48 + 4);
    let fst = DvdGcmLoader::from_table(t);
    assert_eq!(fst.find_file("list.txt"), Err(FstError::Malformed));
}

#[test]
fn fst_entries_and_header() {
    let t = table();
    let e = FileTableEntry::read(&t, 24);
    assert!(e.is_file());
    assert_eq!(e.name_offset(), 14);
    assert!(!FileTableEntry::read(&t, 12).is_file());
    let mut header = vec![0u8; 32];
    header[4..8].copy_from_slice(&0x0012_3400u32.to_be_bytes());
    header[8..12].copy_from_slice(&0x500u32.to_be_bytes());
    assert_eq!(fst_location(&header), (0x0012_3400, 0x500));
    assert!(is_expected_disc(b"GGMEMV\0\0rest"));
    assert!(!is_expected_disc(b"GGMEMV\0"));
    assert!(!is_expected_disc(b"GALE01\0\0"));
}

#[test]
fn fst_lookup_ignores_ascii_case() {
    let fst = DvdGcmLoader::from_table(table());
    for (a, b) in [("maps/d1.dat", "MAPS/D1.dat"), ("list.txt", "LiSt.TxT"), ("Maps", "maps"), ("NOPE", "nope")] {
        assert_eq!(fst.find_file(a), fst.find_file(b));
    }
    assert_eq!(fst.find_file("MAPS/D1.DAT"), Ok((0x1000, 100)));
}

#[test]
fn fst_strings_must_be_utf8() {
    let mut t = table();
    t.extend_from_slice(&[0xff, 0xfe, 0]);
    let fst = DvdGcmLoader::from_table(t);
    assert_eq!(fst.string(14), Some("d1.dat"));
    assert_eq!(fst.string(21), None);
}
