use bsp_loader::gx::{
    PostTransformTexMtxIndex, TevColorIn, TevOp, TevTexMap, TexMtxIndex,
};

#[test]
fn enum_values_round_trip() {
    assert_eq!(TevColorIn::TexColor.as_u8(), 0x08);
    assert_eq!(TevColorIn::from_u8(0x0f), Some(TevColorIn::Constant0));
    assert_eq!(TevColorIn::from_u8(0x10), None);
    assert_eq!(TevOp::from_u8(TevOp::Sub.as_u8()), Some(TevOp::Sub));
}

#[test]
fn tex_map_flags_combine() {
    let m = TevTexMap::TEXMAP3() | TevTexMap::DISABLE_FLAG();
    assert_eq!(m.as_u32(), 0x103);
    assert_eq!((m & TevTexMap::DISABLE_FLAG()).as_u32(), 0x100);
    assert_eq!((m ^ TevTexMap::TEXMAP3()).as_u32(), 0x100);
    let mut n = TevTexMap::TEXMAP1();
    n |= TevTexMap::TEXMAP2();
    assert_eq!(n.as_u32(), 0x3);
    assert_eq!(TevTexMap::NULL().as_u32(), 0xff);
    assert_eq!(TevTexMap::from_u32(7), TevTexMap::TEXMAP7());
    assert_eq!(TexMtxIndex::IDENTITY().as_u32(), 0x3c);
    assert_eq!(PostTransformTexMtxIndex::IDENTITY().as_u32(), 0x7d);
}
