use bsp_loader::vpk_path::VpkPath;
use bsp_loader::vtf::{ImageFormat, Vtf, VtfError};

fn header(high_format: u32, low_format: u32, width: u16, height: u16, mips: u8) -> Vec<u8> {
    let mut d = vec![0u8; 80];
    d[0..4].copy_from_slice(&0x0046_5456u32.to_le_bytes());
    d[12..16].copy_from_slice(&80u32.to_le_bytes());
    d[16..18].copy_from_slice(&width.to_le_bytes());
    d[18..20].copy_from_slice(&height.to_le_bytes());
    d[52..56].copy_from_slice(&high_format.to_le_bytes());
    d[56] = mips;
    d[57..61].copy_from_slice(&low_format.to_le_bytes());
    d
}

fn path() -> VpkPath {
    VpkPath::new_with_prefix_and_extension("brick/wall01", "materials", "vtf")
}

#[test]
fn vtf_reads_dxt1_mip_chain() {
    let mut d = header(13, 13, 8, 8, 2);
    // The smallest level is stored first.
    d.extend_from_slice(&[1u8; 8]);
    d.extend_from_slice(&[2u8; 32]);
    let v = Vtf::from_data(&path(), d).unwrap();
    assert_eq!(v.width(), 8);
    assert_eq!(v.height(), 8);
    assert_eq!(v.path().to_string(), "materials/brick/wall01.vtf");
    let image = v.data().unwrap();
    assert_eq!(image.format, ImageFormat::Dxt1);
    assert_eq!(image.mips.len(), 2);
    assert_eq!(image.mips[0], vec![2u8; 32]);
    assert_eq!(image.mips[1], vec![1u8; 8]);
}

#[test]
fn vtf_small_levels_stay_four_pixels() {
    let mut d = header(13, 13, 4, 4, 3);
    d.extend_from_slice(&[3u8; 8]);
    d.extend_from_slice(&[4u8; 8]);
    d.extend_from_slice(&[5u8; 8]);
    let v = Vtf::from_data(&path(), d).unwrap();
    let image = v.data().unwrap();
    assert_eq!(image.mips, vec![vec![5u8; 8], vec![4u8; 8], vec![3u8; 8]]);
}

#[test]
fn vtf_other_formats_have_no_image() {
    let d = header(3, 13, 8, 8, 1);
    assert!(Vtf::from_data(&path(), d).unwrap().data().is_none());
    let d = header(13, 3, 8, 8, 1);
    assert!(Vtf::from_data(&path(), d).unwrap().data().is_none());
    let d = header(15, 13, 8, 8, 1);
    assert!(Vtf::from_data(&path(), d).unwrap().data().is_none());
}

#[test]
fn vtf_truncated_header() {
    let mut d = header(13, 13, 8, 8, 1);
    d.truncate(20);
    assert_eq!(Vtf::from_data(&path(), d).err(), Some(VtfError::UnexpectedEof));
    let mut d = header(13, 13, 8, 8, 1);
    d.truncate(50);
    assert_eq!(Vtf::from_data(&path(), d).err(), Some(VtfError::UnexpectedEof));
}

#[test]
fn vtf_readability() {
    let mut d = header(13, 13, 8, 8, 2);
    d.extend_from_slice(&[0u8; 40]);
    assert!(Vtf::is_readable(&d));
    d.truncate(100);
    assert!(!Vtf::is_readable(&d));
    let mut bad = header(13, 13, 8, 8, 1);
    bad[0] = 0;
    assert!(!Vtf::is_readable(&bad));
    assert!(!Vtf::is_readable(&header(13, 13, 8, 8, 1)[..30]));
    assert!(Vtf::is_readable(&header(13, 13, 8, 8, 1)[..20]));
    assert!(Vtf::is_readable(&header(3, 13, 8, 8, 1)));
}
