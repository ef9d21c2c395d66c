use bsp_loader::loader::{ftp_map_path, gcm_map_path, iso_map_path, map_list, EmbeddedLoader};

#[test]
fn map_list_skips_empty_lines() {
    assert_eq!(
        map_list(b"d1_trainstation_01\nd1_trainstation_02\n\nbackground01"),
        vec![b"d1_trainstation_01".to_vec(), b"d1_trainstation_02".to_vec(), b"background01".to_vec()]
    );
    assert_eq!(map_list(b""), Vec::<Vec<u8>>::new());
    assert_eq!(map_list(b"\n\n"), Vec::<Vec<u8>>::new());
    assert_eq!(map_list(b"a\n"), vec![b"a".to_vec()]);
}

#[test]
fn map_paths() {
    assert_eq!(gcm_map_path("d1"), "maps/d1.dat");
    assert_eq!(iso_map_path("d1.dat"), "maps/d1.dat");
    assert_eq!(ftp_map_path("d1"), "d1.dat");
    assert_eq!(EmbeddedLoader::new().maps(), vec!["embedded".to_string()]);
}
