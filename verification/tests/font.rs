use bsp_loader::font::{GlyphQuad, TextRenderer};

#[test]
fn characters_advance_and_wrap() {
    let mut r = TextRenderer { x: 16, y: 100, left_margin: 16 };
    let q = r.draw_char(b'A').unwrap();
    // 'A' is 0x41: column 1, row 4.
    assert_eq!(q, GlyphQuad { x0: 16, y0: 100, x1: 24, y1: 116, s0: 5, s1: 7, t0: 16, t1: 20 });
    assert_eq!((r.x, r.y), (24, 100));
    assert_eq!(r.draw_char(b'\n'), None);
    assert_eq!((r.x, r.y), (16, 116));
    let mut edge = TextRenderer { x: 624, y: 0, left_margin: 16 };
    edge.draw_char(b'x');
    assert_eq!((edge.x, edge.y), (632, 0));
    edge.draw_char(b'x');
    assert_eq!((edge.x, edge.y), (16, 16));
}

#[test]
fn strings_lay_out_in_order() {
    let mut r = TextRenderer { x: 616, y: 452, left_margin: 16 };
    let quads = r.draw_str(b"12\n3");
    assert_eq!(quads.len(), 3);
    assert_eq!((quads[0].x0, quads[0].y0), (616, 452));
    assert_eq!((quads[1].x0, quads[1].y0), (624, 452));
    assert_eq!((quads[2].x0, quads[2].y0), (16, 468));
    assert_eq!((r.x, r.y), (24, 468));
    let mut s = TextRenderer { x: 0, y: 0, left_margin: 0 };
    s.new_line();
    assert_eq!((s.x, s.y), (0, 16));
}
