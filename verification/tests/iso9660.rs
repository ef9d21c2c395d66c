use bsp_loader::iso9660::{
    read_volume_descriptor, record_offsets, split_path, BePathTableEntry, DirectoryEntry,
    DiscReader, VolumeDescriptor, WalkAction, WalkOutcome,
};

/// A directory record with an optional Rock Ridge name.
fn record(name: &[u8], rr: Option<&[u8]>, lba: u32, size: u32, dir: bool) -> Vec<u8> {
    let mut r = vec![0u8; 33];
    r[2..6].copy_from_slice(&lba.to_le_bytes());
    r[6..10].copy_from_slice(&lba.to_be_bytes());
    r[10..14].copy_from_slice(&size.to_le_bytes());
    r[14..18].copy_from_slice(&size.to_be_bytes());
    r[25] = if dir { 2 } else { 0 };
    r[32] = name.len() as u8;
    r.extend_from_slice(name);
    if name.len() % 2 == 0 {
        r.push(0);
    }
    if let Some(n) = rr {
        r.extend_from_slice(b"NM");
        r.push(5 + n.len() as u8);
        r.push(1);
        r.push(0);
        r.extend_from_slice(n);
    }
    r[0] = r.len() as u8;
    r
}

fn sector(records: &[Vec<u8>]) -> Vec<u8> {
    let mut s = Vec::new();
    for r in records {
        s.extend_from_slice(r);
    }
    s.resize(2048, 0);
    s
}

fn root_sector() -> Vec<u8> {
    sector(&[
        record(&[0], None, 20, 2048, true),
        record(&[1], None, 20, 2048, true),
        record(b"MAPS", Some(b"maps"), 21, 2048, true),
        record(b"LIST.TXT;1", Some(b"list.txt"), 30, 10, false),
    ])
}

fn maps_sector() -> Vec<u8> {
    sector(&[
        record(&[0], None, 21, 2048, true),
        record(&[1], None, 20, 2048, true),
        record(b"D1.DAT;1", Some(b"d1.dat"), 31, 100, false),
    ])
}

fn primary() -> Vec<u8> {
    let mut s = vec![0u8; 2048];
    s[0] = 1;
    s[6] = 1;
    s[130] = 0x08;
    s[136..140].copy_from_slice(&0x40u32.to_be_bytes());
    s[148..152].copy_from_slice(&19u32.to_be_bytes());
    let root = record(&[0], None, 20, 2048, true);
    s[156..156 + root.len()].copy_from_slice(&root);
    s
}

#[test]
fn volume_descriptors() {
    let mut t = vec![0u8; 2048];
    t[0] = 255;
    assert!(matches!(read_volume_descriptor(&t), VolumeDescriptor::Terminator));
    t[0] = 2;
    assert!(matches!(read_volume_descriptor(&t), VolumeDescriptor::Other));
    match read_volume_descriptor(&primary()) {
        VolumeDescriptor::Primary { path_table_offset, path_table_size, root_directory_extent } => {
            assert_eq!(path_table_offset, 19 * 2048);
            assert_eq!(path_table_size, 0x40);
            assert_eq!(root_directory_extent, 20 * 2048..21 * 2048);
        }
        _ => panic!("expected a primary descriptor"),
    }
    let mut bad = primary();
    bad[6] = 2;
    assert!(matches!(read_volume_descriptor(&bad), VolumeDescriptor::Invalid));
    assert_eq!(DiscReader::first_volume_descriptor_offset(), 16 * 2048);
}

#[test]
fn list_root_directory() {
    let reader = DiscReader::new(read_volume_descriptor(&primary())).unwrap();
    assert_eq!(reader.path_table_offset(), 19 * 2048);
    assert_eq!(reader.path_table_size(), 0x40);
    let mut walk = reader.list_directory("");
    assert_eq!(walk.next_action(), WalkAction::ReadSector(20 * 2048));
    walk.on_sector(&root_sector());
    assert_eq!(walk.outcome(), Some(WalkOutcome::Listed));
    assert_eq!(walk.next_action(), WalkAction::Finished);
    assert_eq!(walk.names(), &vec![b"maps".to_vec(), b"list.txt".to_vec()]);
}

#[test]
fn list_subdirectory() {
    let reader = DiscReader::new(read_volume_descriptor(&primary())).unwrap();
    let mut walk = reader.list_directory("MAPS");
    walk.on_sector(&root_sector());
    assert_eq!(walk.next_action(), WalkAction::ReadSector(21 * 2048));
    walk.on_sector(&maps_sector());
    assert_eq!(walk.outcome(), Some(WalkOutcome::Listed));
    assert_eq!(walk.names(), &vec![b"d1.dat".to_vec()]);
}

#[test]
fn find_files() {
    let reader = DiscReader::new(read_volume_descriptor(&primary())).unwrap();
    let mut walk = reader.read_file("maps/d1.dat");
    walk.on_sector(&root_sector());
    walk.on_sector(&maps_sector());
    assert_eq!(walk.outcome(), Some(WalkOutcome::Found { offset: 31 * 2048, size: 100 }));

    let mut walk = reader.read_file("list.txt");
    walk.on_sector(&root_sector());
    assert_eq!(walk.outcome(), Some(WalkOutcome::Found { offset: 30 * 2048, size: 10 }));

    let mut walk = reader.read_file("nothing");
    walk.on_sector(&root_sector());
    assert_eq!(walk.outcome(), Some(WalkOutcome::NotFound));

    let mut walk = reader.read_file("list.txt/x");
    walk.on_sector(&root_sector());
    assert_eq!(walk.outcome(), Some(WalkOutcome::NotADirectory));
}

#[test]
fn directory_records() {
    let r = record(b"LIST.TXT;1", Some(b"list.txt"), 30, 10, false);
    let e = DirectoryEntry::new(&r);
    assert_eq!(e.record_len() as usize, r.len());
    assert!(!e.is_directory());
    assert_eq!(e.extent_start(), 30 * 2048);
    assert_eq!(e.extent_size(), 10);
    assert_eq!(e.extent(), 30 * 2048..30 * 2048 + 10);
    assert_eq!(e.name_len(), 10);
    assert_eq!(e.padded_name_len(), 11);
    assert_eq!(e.name_bytes(), b"LIST.TXT;1");
    assert_eq!(e.rock_ridge_name(), Some("list.txt"));
    let plain = record(b"A", None, 1, 1, true);
    assert!(DirectoryEntry::new(&plain).is_directory());
    assert_eq!(DirectoryEntry::new(&plain).rock_ridge_name(), None);
    let s = root_sector();
    assert_eq!(record_offsets(&s, 0, 2048), vec![0, 34, 68, 115]);
}

#[test]
fn path_table_entries() {
    let mut b = vec![4u8, 0, 0, 0, 0, 20, 0, 1];
    b.extend_from_slice(b"MAPS\0\0");
    let e = BePathTableEntry::new(&b);
    assert_eq!(e.size(), 12);
    assert_eq!(e.extent(), 20);
    assert_eq!(e.parent_index(), 1);
    assert_eq!(e.name(), "MAPS");
}

#[test]
fn path_splitting() {
    assert_eq!(split_path(b"a/b/c"), (b"a".to_vec(), b"b/c".to_vec()));
    assert_eq!(split_path(b"abc"), (b"abc".to_vec(), Vec::new()));
}

#[test]
fn iso_loader_walks() {
    let reader = DiscReader::new(read_volume_descriptor(&primary())).unwrap();
    let loader = bsp_loader::loader::DvdIsoLoader::new(reader);
    let mut walk = loader.maps();
    walk.on_sector(&root_sector());
    walk.on_sector(&maps_sector());
    assert_eq!(walk.names(), &vec![b"d1.dat".to_vec()]);
    let mut walk = loader.load_map("d1.dat");
    walk.on_sector(&root_sector());
    walk.on_sector(&maps_sector());
    assert_eq!(walk.outcome(), Some(WalkOutcome::Found { offset: 31 * 2048, size: 100 }));
}
