use bsp_loader::canonical_path::{
    all_canonical, canonical, display_canonical, is_canonical, CanonicalPath, CanonicalPathBuf,
};

#[test]
fn insensitive_path_from_str() {
    assert_eq!(
        CanonicalPath::from_str("abc/def/123/ghi").unwrap().as_str(),
        "abc/def/123/ghi",
    );
    assert_eq!(CanonicalPath::from_str("abc/def/123\\ghi"), None);
    assert_eq!(CanonicalPath::from_str("abc/def/123/Ghi"), None);
}

#[test]
fn insensitive_path_buf_from_string() {
    assert_eq!(
        CanonicalPathBuf::from_string("abc/def/123/ghi".to_string()),
        Some(CanonicalPathBuf::from_string_unchecked(
            "abc/def/123/ghi".to_string()
        )),
    );
    assert_eq!(
        CanonicalPathBuf::from_string("abc/def/123\\ghi".to_string()),
        None,
    );
    assert_eq!(
        CanonicalPathBuf::from_string("abc/def/123/Ghi".to_string()),
        None,
    );
}

#[test]
fn canonical_maps_upper_case_and_backslash() {
    assert_eq!(canonical('A'), 'a');
    assert_eq!(canonical('Z'), 'z');
    assert_eq!(canonical('\\'), '/');
    assert_eq!(canonical('q'), 'q');
    assert_eq!(canonical('7'), '7');
    assert!(is_canonical('a'));
    assert!(!is_canonical('B'));
    assert!(!is_canonical('\\'));
    assert!(all_canonical("maps/d1_trainstation_01.bsp"));
    assert!(!all_canonical("Maps/x"));
}

#[test]
fn canonicalize_is_idempotent() {
    let once = CanonicalPathBuf::from_str_canonicalize("Materials\\Brick\\WALL01");
    assert_eq!(once.as_str(), "materials/brick/wall01");
    let twice = CanonicalPathBuf::from_str_canonicalize(once.as_str());
    assert_eq!(twice, once);
}

#[test]
fn canonical_str_is_fixed_by_canonicalize() {
    let s = "already/canonical/path";
    assert_eq!(CanonicalPathBuf::from_str_canonicalize(s).as_str(), s);
}

#[test]
fn display_canonical_writes_text() {
    assert_eq!(display_canonical("abc/def"), "abc/def");
}

#[test]
fn empty_and_slice() {
    assert_eq!(CanonicalPath::empty().as_str(), "");
    let p = CanonicalPath::from_str("abc/def").unwrap();
    assert_eq!(p.slice(4, 7).as_str(), "def");
    assert_eq!(p.to_owned().as_str(), "abc/def");
    assert_eq!(CanonicalPathBuf::new().as_str(), "");
    let buf = CanonicalPathBuf::from_string("x/y".to_string()).unwrap();
    assert_eq!(buf.as_canonical_path().as_str(), "x/y");
    assert_eq!(buf.to_string(), "x/y");
}
