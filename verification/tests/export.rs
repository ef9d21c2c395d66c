use bsp_loader::export::{display_list_index, fan_triangles, vis_index};

#[test]
fn display_list_index_layout() {
    let index = display_list_index(&[4, 0, 8]);
    let mut expected = vec![
        0, 0, 0, 32, 0, 0, 0, 4, // first list right after the 32-byte index
        0, 0, 0, 0, 0, 0, 0, 0, // an empty list has offset 0
        0, 0, 0, 36, 0, 0, 0, 8,
    ];
    expected.resize(32, 0);
    assert_eq!(index, expected);
    assert_eq!(display_list_index(&[]), Vec::<u8>::new());
    let four = display_list_index(&[1, 1, 1, 1]);
    assert_eq!(four.len(), 32);
    assert_eq!(&four[0..4], &[0, 0, 0, 32]);
    assert_eq!(&four[24..28], &[0, 0, 0, 35]);
    let five = display_list_index(&[1, 1, 1, 1, 1]);
    assert_eq!(five.len(), 64);
    assert_eq!(&five[0..4], &[0, 0, 0, 64]);
}

#[test]
fn vis_index_layout() {
    assert_eq!(vis_index(&[3, 5]), vec![0, 0, 0, 2, 0, 0, 0, 12, 0, 0, 0, 15]);
    assert_eq!(vis_index(&[]), vec![0, 0, 0, 0]);
}

#[test]
fn fan_triangles_from_polygon() {
    assert_eq!(fan_triangles(&[1, 2, 3, 4]), vec![1, 1, 2, 1, 2, 3, 1, 3, 4]);
    assert_eq!(fan_triangles(&[7]), Vec::<u16>::new());
    assert_eq!(fan_triangles(&[]), Vec::<u16>::new());
}
