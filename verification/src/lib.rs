//! Verified file-format and hardware-register logic for a BSP map loader.
use vstd::prelude::*;

pub mod canonical_path;
pub mod vpk_path;
pub mod peripheral_access;
pub mod gx;
pub mod bytes;
pub mod vtf;
pub mod iso9660;
pub mod gcm;
pub mod loader;
pub mod display_list_data;
pub mod app_loader;
pub mod file_loader;
pub mod game;
pub mod dvd;
pub mod vpk;
pub mod video;
pub mod map_data;
pub mod lightmap;
pub mod shader;
pub mod mmio;
pub mod export;
pub mod font;
pub mod frame;
pub mod ftp;
pub mod vmt;
pub mod cpu;

verus! {

/// Returns whether `address` is a multiple of `alignment`.
pub fn is_aligned(address: usize, alignment: usize) -> (r: bool)
    requires
        alignment > 0,
    ensures
        r == (address % alignment == 0),
{
    address % alignment == 0
}

} // verus!
