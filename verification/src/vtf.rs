//! Valve texture files: the header and the DXT1 mipmap chain of the high-resolution image.
use vstd::prelude::*;
use vstd::slice::{slice_subrange, slice_to_vec};

use crate::bytes::{spec_u16_le, spec_u32_le, u16_le_at, u32_le_at};
use crate::vpk_path::VpkPath;

verus! {

/// The file signature, "VTF\0" read as a little-endian `u32`.
pub const VTF_SIGNATURE: u32 = 0x00465456;

/// Image format number of DXT1.
pub const FORMAT_DXT1: u32 = 13;

/// Image format number of BGR888.
pub const FORMAT_BGR888: u32 = 3;

/// Image format number of DXT5.
pub const FORMAT_DXT5: u32 = 15;

/// Offsets of the header fields.
pub const OFFSET_HEADER_SIZE: usize = 12;

/// Offset of the width.
pub const OFFSET_WIDTH: usize = 16;

/// Offset of the height.
pub const OFFSET_HEIGHT: usize = 18;

/// Offset of the high-resolution image format.
pub const OFFSET_HIGH_RES_FORMAT: usize = 52;

/// Offset of the mipmap count.
pub const OFFSET_MIPMAP_COUNT: usize = 56;

/// Offset of the low-resolution image format.
pub const OFFSET_LOW_RES_FORMAT: usize = 57;

/// Offset of the low-resolution image width.
pub const OFFSET_LOW_RES_WIDTH: usize = 61;

/// Offset of the low-resolution image height.
pub const OFFSET_LOW_RES_HEIGHT: usize = 62;

/// The format of decoded image data.
#[derive(Clone, Copy, Debug, PartialEq, Eq, Structural)]
pub enum ImageFormat {
    /// DXT1 (S3TC) compressed blocks.
    Dxt1,
}

/// The mipmap chain of an image, largest level first.
pub struct ImageData {
    /// The format of every level.
    pub format: ImageFormat,
    /// The bytes of each level.
    pub mips: Vec<Vec<u8>>,
}

impl ImageData {
    /// The bytes of each level.
    pub open spec fn spec_mips(&self) -> Seq<Seq<u8>> {
        self.mips@.map_values(|m: Vec<u8>| m@)
    }
}

/// Why a texture could not be read.
#[derive(Clone, Copy, Debug, PartialEq, Eq, Structural)]
pub enum VtfError {
    /// The data ended inside the header.
    UnexpectedEof,
}

/// The file ends inside the part of the header that is read field by field.
pub open spec fn spec_vtf_truncated(d: Seq<u8>) -> bool {
    d.len() < 28 || (32 <= d.len() < 44) || (48 <= d.len() < 63)
}

/// Reading the header stops on a failed check or on skipping past the end of the data.
pub open spec fn spec_vtf_header_panics(d: Seq<u8>) -> bool {
    (d.len() >= 4 && spec_u32_le(d, 0) != VTF_SIGNATURE) || (28 <= d.len() < 32) || (44 <= d.len()
        < 48)
}

/// Side length of mipmap `level` of an image whose largest side is `d`: halved once per level,
/// and never below 4.
pub open spec fn spec_mip_dim(d: nat, level: nat) -> nat
    decreases level,
{
    if level == 0 {
        d
    } else {
        let half = spec_mip_dim(d, (level - 1) as nat) / 2;
        if half > 4 {
            half
        } else {
            4
        }
    }
}

/// Byte size of mipmap `level` of a DXT1 image of `w` by `h` pixels.
pub open spec fn spec_mip_size(w: nat, h: nat, level: nat) -> nat {
    spec_mip_dim(w, level) * spec_mip_dim(h, level) / 2
}

/// Byte offset, from the start of the high-resolution data, of the mipmap stored at position `i`
/// of a chain of `count` levels. The smallest level is stored first.
pub open spec fn spec_mip_offset(w: nat, h: nat, count: nat, i: nat) -> nat
    decreases i,
{
    if i == 0 {
        0
    } else {
        spec_mip_offset(w, h, count, (i - 1) as nat) + spec_mip_size(
            w,
            h,
            (count - 1 - (i - 1)) as nat,
        )
    }
}

/// Width of the image.
pub open spec fn spec_vtf_width(d: Seq<u8>) -> u16 {
    spec_u16_le(d, OFFSET_WIDTH as int)
}

/// Height of the image.
pub open spec fn spec_vtf_height(d: Seq<u8>) -> u16 {
    spec_u16_le(d, OFFSET_HEIGHT as int)
}

/// Where the high-resolution data starts: after the header and the low-resolution image, which
/// takes half a byte per pixel.
pub open spec fn spec_high_res_offset(d: Seq<u8>) -> nat {
    spec_u32_le(d, OFFSET_HEADER_SIZE as int) as nat + ((d[OFFSET_LOW_RES_WIDTH as int] as nat)
        * (d[OFFSET_LOW_RES_HEIGHT as int] as nat) * 4) / 8
}

/// Whether the low-resolution image has a format of known size (only DXT1).
pub open spec fn spec_low_res_known(d: Seq<u8>) -> bool {
    spec_u32_le(d, OFFSET_LOW_RES_FORMAT as int) == FORMAT_DXT1
}

/// Whether the high-resolution image is DXT1.
pub open spec fn spec_high_res_dxt1(d: Seq<u8>) -> bool {
    spec_u32_le(d, OFFSET_HIGH_RES_FORMAT as int) == FORMAT_DXT1
}

/// Number of mipmap levels.
pub open spec fn spec_mip_count(d: Seq<u8>) -> nat {
    d[OFFSET_MIPMAP_COUNT as int] as nat
}

/// Reading the image data runs past the end of the file.
pub open spec fn spec_vtf_image_panics(d: Seq<u8>) -> bool {
    let w = spec_vtf_width(d) as nat;
    let h = spec_vtf_height(d) as nat;
    let count = spec_mip_count(d);
    let hro = spec_high_res_offset(d);
    spec_low_res_known(d) && (hro > d.len() || (spec_high_res_dxt1(d) && hro + spec_mip_offset(
        w,
        h,
        count,
        count,
    ) > d.len()))
}

/// Reading `d` as a texture stops on a failed check or on running past the end of the data.
pub open spec fn spec_vtf_panics(d: Seq<u8>) -> bool {
    spec_vtf_header_panics(d) || (!spec_vtf_truncated(d) && spec_vtf_image_panics(d))
}

/// The bytes of mipmap `level` of a DXT1 image stored in `d`.
pub open spec fn spec_vtf_mip(d: Seq<u8>, level: nat) -> Seq<u8> {
    let w = spec_vtf_width(d) as nat;
    let h = spec_vtf_height(d) as nat;
    let count = spec_mip_count(d);
    let start = spec_high_res_offset(d) + spec_mip_offset(w, h, count, (count - 1 - level) as nat);
    d.subrange(start as int, (start + spec_mip_size(w, h, level)) as int)
}

/// The decoded mipmap chain of `d`: present only when both the low-resolution and the
/// high-resolution images are DXT1.
pub open spec fn spec_vtf_image(d: Seq<u8>) -> Option<Seq<Seq<u8>>> {
    if spec_low_res_known(d) && spec_high_res_dxt1(d) {
        Some(Seq::new(spec_mip_count(d), |level: int| spec_vtf_mip(d, level as nat)))
    } else {
        None
    }
}

/// A texture.
pub struct Vtf {
    path: VpkPath,
    width: u32,
    height: u32,
    data: Option<ImageData>,
}

proof fn lemma_mip_dim_bound(d: nat, level: nat)
    requires
        d <= 0xffff,
    ensures
        spec_mip_dim(d, level) <= 0xffff,
    decreases level,
{
    if level > 0 {
        lemma_mip_dim_bound(d, (level - 1) as nat);
    }
}

proof fn lemma_mip_size_bound(w: nat, h: nat, level: nat)
    requires
        w <= 0xffff,
        h <= 0xffff,
    ensures
        spec_mip_size(w, h, level) <= 0x8000_0000,
{
    lemma_mip_dim_bound(w, level);
    lemma_mip_dim_bound(h, level);
    let a = spec_mip_dim(w, level);
    let b = spec_mip_dim(h, level);
    assert(a * b <= 0xffff * 0xffff) by (nonlinear_arith)
        requires
            a <= 0xffff,
            b <= 0xffff,
    ;
}

proof fn lemma_mip_offset_monotonic(w: nat, h: nat, count: nat, i: nat, j: nat)
    requires
        i <= j,
    ensures
        spec_mip_offset(w, h, count, i) <= spec_mip_offset(w, h, count, j),
    decreases j,
{
    if i < j {
        lemma_mip_offset_monotonic(w, h, count, i, (j - 1) as nat);
    }
}

proof fn lemma_mip_offset_bound(w: nat, h: nat, count: nat, i: nat)
    requires
        w <= 0xffff,
        h <= 0xffff,
    ensures
        spec_mip_offset(w, h, count, i) <= i * 0x8000_0000,
    decreases i,
{
    if i > 0 {
        lemma_mip_offset_bound(w, h, count, (i - 1) as nat);
        lemma_mip_size_bound(w, h, (count - 1 - (i - 1)) as nat);
    }
}

/// Halves `d` `level` times, never going below 4.
fn mip_dim(d: u32, level: u8) -> (r: u32)
    requires
        d <= 0xffff,
    ensures
        r as nat == spec_mip_dim(d as nat, level as nat),
{
    let mut v = d;
    let mut k: u8 = 0;
    while k < level
        invariant
            k <= level,
            d <= 0xffff,
            v as nat == spec_mip_dim(d as nat, k as nat),
        decreases level - k,
    {
        proof {
            lemma_mip_dim_bound(d as nat, k as nat);
        }
        let half = v / 2;
        v = if half > 4 {
            half
        } else {
            4
        };
        k = k + 1;
    }
    v
}

impl Vtf {
    /// The path of the texture.
    pub closed spec fn spec_path(&self) -> Seq<char> {
        self.path@
    }

    /// Width of the image.
    pub closed spec fn spec_width(&self) -> u32 {
        self.width
    }

    /// Height of the image.
    pub closed spec fn spec_height(&self) -> u32 {
        self.height
    }

    /// The mipmap chain, when the image format is supported.
    pub closed spec fn spec_image(&self) -> Option<Seq<Seq<u8>>> {
        match self.data {
            Some(i) => Some(i.spec_mips()),
            None => None,
        }
    }

    /// Bits per pixel of the low-resolution image format, when it is known.
    fn bits_per_pixel_for_format(format: u32) -> (r: Option<usize>)
        ensures
            r == (if format == FORMAT_DXT1 {
                Some(4usize)
            } else {
                None
            }),
    {
        match format {
            13 => Some(4),
            _ => None,
        }
    }

    /// The path of the texture.
    pub fn path(&self) -> (r: &VpkPath)
        ensures
            r@ == self.spec_path(),
    {
        &self.path
    }

    /// Width of the image.
    pub fn width(&self) -> (r: u32)
        ensures
            r == self.spec_width(),
    {
        self.width
    }

    /// Height of the image.
    pub fn height(&self) -> (r: u32)
        ensures
            r == self.spec_height(),
    {
        self.height
    }

    /// The mipmap chain, when the image format is supported.
    pub fn data(&self) -> (r: Option<&ImageData>)
        ensures
            match r {
                Some(i) => self.spec_image() == Some(i.spec_mips()),
                None => self.spec_image() is None,
            },
    {
        self.data.as_ref()
    }

    /// Reads the mipmap chain of a DXT1 image of `width` by `height` pixels starting at `hro`.
    fn read_dxt1_mips(data: &[u8], hro: usize, width: u16, height: u16, mipmap_count: u8) -> (r:
        Vec<Vec<u8>>)
        requires
            hro as nat + spec_mip_offset(
                width as nat,
                height as nat,
                mipmap_count as nat,
                mipmap_count as nat,
            ) <= data@.len(),
        ensures
            r@.len() == mipmap_count,
            forall|level: int|
                0 <= level < mipmap_count ==> #[trigger] r@[level]@ == ({
                    let start = hro as nat + spec_mip_offset(
                        width as nat,
                        height as nat,
                        mipmap_count as nat,
                        (mipmap_count - 1 - level) as nat,
                    );
                    data@.subrange(
                        start as int,
                        (start + spec_mip_size(width as nat, height as nat, level as nat)) as int,
                    )
                }),
    {
        let ghost w = width as nat;
        let ghost h = height as nat;
        let ghost count = mipmap_count as nat;
        let mut mips: Vec<Vec<u8>> = Vec::new();
        let mut offset: usize = hro;
        let mut index: u8 = 0;
        while index < mipmap_count
            invariant
                index <= mipmap_count,
                w == width as nat,
                h == height as nat,
                count == mipmap_count as nat,
                hro as nat + spec_mip_offset(w, h, count, count) <= data@.len(),
                offset as nat == hro as nat + spec_mip_offset(w, h, count, index as nat),
                mips@.len() == index,
                forall|k: int|
                    0 <= k < index ==> #[trigger] mips@[k]@ == ({
                        let i = (index - 1 - k) as nat;
                        let start = hro as nat + spec_mip_offset(w, h, count, i);
                        data@.subrange(
                            start as int,
                            (start + spec_mip_size(w, h, (count - 1 - i) as nat)) as int,
                        )
                    }),
            decreases mipmap_count - index,
        {
            let mip_level: u8 = mipmap_count - 1 - index;
            let mw = mip_dim(width as u32, mip_level);
            let mh = mip_dim(height as u32, mip_level);
            proof {
                lemma_mip_dim_bound(w, mip_level as nat);
                lemma_mip_dim_bound(h, mip_level as nat);
                lemma_mip_offset_monotonic(w, h, count, (index + 1) as nat, count);
                assert(mw as nat * mh as nat <= 0xffff * 0xffff) by (nonlinear_arith)
                    requires
                        mw <= 0xffff,
                        mh <= 0xffff,
                ;
            }
            let size: usize = ((mw as u64 * mh as u64) / 2) as usize;
            assert(size as nat == spec_mip_size(w, h, mip_level as nat));
            assert(spec_mip_offset(w, h, count, (index + 1) as nat) == spec_mip_offset(
                w,
                h,
                count,
                index as nat,
            ) + spec_mip_size(w, h, mip_level as nat));
            let data_len = data.len();
            assert(offset + size <= data_len);
            let chunk = slice_to_vec(slice_subrange(data, offset, offset + size));
            let ghost old_mips = mips@;
            mips.insert(0, chunk);
            assert forall|k: int| 0 <= k < index + 1 implies #[trigger] mips@[k]@ == ({
                let i = (index + 1 - 1 - k) as nat;
                let start = hro as nat + spec_mip_offset(w, h, count, i);
                data@.subrange(start as int, (start + spec_mip_size(w, h, (count - 1 - i) as nat)) as int)
            }) by {
                if k > 0 {
                    assert(mips@[k] == old_mips[k - 1]);
                }
            }
            offset = offset + size;
            index = index + 1;
        }
        assert forall|level: int| 0 <= level < mipmap_count implies #[trigger] mips@[level]@ == ({
            let start = hro as nat + spec_mip_offset(
                w,
                h,
                count,
                (mipmap_count - 1 - level) as nat,
            );
            data@.subrange(start as int, (start + spec_mip_size(w, h, level as nat)) as int)
        }) by {
            let i = (mipmap_count - 1 - level) as nat;
            assert((count - 1 - i) as nat == level as nat);
        }
        mips
    }

    /// Reads a texture from the bytes of a VTF file.
    pub fn from_data(path: &VpkPath, data: Vec<u8>) -> (r: Result<Vtf, VtfError>)
        requires
            !spec_vtf_panics(data@),
        ensures
            r is Err <==> spec_vtf_truncated(data@),
            r matches Ok(v) ==> {
                &&& v.spec_path() == path@
                &&& v.spec_width() == spec_vtf_width(data@) as u32
                &&& v.spec_height() == spec_vtf_height(data@) as u32
                &&& v.spec_image() == spec_vtf_image(data@)
            },
    {
        let d = data.as_slice();
        let len = d.len();
        if len < 28 {
            return Err(VtfError::UnexpectedEof);
        }
        let header_size = u32_le_at(d, OFFSET_HEADER_SIZE);
        let width = u16_le_at(d, OFFSET_WIDTH);
        let height = u16_le_at(d, OFFSET_HEIGHT);
        if len < 44 {
            return Err(VtfError::UnexpectedEof);
        }
        if len < 63 {
            return Err(VtfError::UnexpectedEof);
        }
        let high_res_image_format = u32_le_at(d, OFFSET_HIGH_RES_FORMAT);
        let mipmap_count = d[OFFSET_MIPMAP_COUNT];
        let low_res_image_format = u32_le_at(d, OFFSET_LOW_RES_FORMAT);
        let low_res_image_width = d[OFFSET_LOW_RES_WIDTH];
        let low_res_image_height = d[OFFSET_LOW_RES_HEIGHT];

        let image = match Self::bits_per_pixel_for_format(low_res_image_format) {
            None => None,
            Some(low_res_bpp) => {
                assert(low_res_image_width as u64 * low_res_image_height as u64 <= 255 * 255)
                    by (nonlinear_arith)
                    requires
                        low_res_image_width <= 255,
                        low_res_image_height <= 255,
                ;
                let hro64: u64 = header_size as u64 + (low_res_image_width as u64
                    * low_res_image_height as u64 * low_res_bpp as u64) / 8;
                assert(hro64 as nat == spec_high_res_offset(data@));
                let hro = hro64 as usize;
                match high_res_image_format {
                    13 => {
                        proof {
                            lemma_mip_offset_bound(
                                width as nat,
                                height as nat,
                                mipmap_count as nat,
                                mipmap_count as nat,
                            );
                        }
                        let mips = Self::read_dxt1_mips(d, hro, width, height, mipmap_count);
                        let image = ImageData { format: ImageFormat::Dxt1, mips };
                        assert(image.spec_mips() =~= spec_vtf_image(data@).unwrap());
                        Some(image)
                    },
                    _ => None,
                }
            },
        };
        Ok(Vtf { path: path.clone(), width: width as u32, height: height as u32, data: image })
    }
}


/// The total size of a DXT1 mipmap chain of `count` levels of a `width` by `height` image.
fn mip_chain_size(width: u16, height: u16, count: u8) -> (r: u64)
    ensures
        r as nat == spec_mip_offset(width as nat, height as nat, count as nat, count as nat),
{
    let ghost w = width as nat;
    let ghost h = height as nat;
    let ghost c = count as nat;
    let mut total: u64 = 0;
    let mut index: u8 = 0;
    while index < count
        invariant
            index <= count,
            w == width as nat,
            h == height as nat,
            c == count as nat,
            total as nat == spec_mip_offset(w, h, c, index as nat),
            total as nat <= index * 0x8000_0000,
        decreases count - index,
    {
        let mip_level: u8 = count - 1 - index;
        let mw = mip_dim(width as u32, mip_level);
        let mh = mip_dim(height as u32, mip_level);
        proof {
            lemma_mip_dim_bound(w, mip_level as nat);
            lemma_mip_dim_bound(h, mip_level as nat);
            lemma_mip_size_bound(w, h, mip_level as nat);
            assert(mw as nat * mh as nat <= 0xffff * 0xffff) by (nonlinear_arith)
                requires
                    mw <= 0xffff,
                    mh <= 0xffff,
            ;
        }
        let size: u64 = (mw as u64 * mh as u64) / 2;
        assert(size as nat == spec_mip_size(w, h, mip_level as nat));
        total = total + size;
        index = index + 1;
    }
    total
}

impl Vtf {
    /// Whether [`Vtf::from_data`] can read `data`: the signature matches, the header is not cut
    /// inside a skipped field, and the image data lies within the file.
    pub fn is_readable(data: &[u8]) -> (r: bool)
        ensures
            r == !spec_vtf_panics(data@),
    {
        let len = data.len();
        if len >= 4 && u32_le_at(data, 0) != VTF_SIGNATURE {
            return false;
        }
        if (28 <= len && len < 32) || (44 <= len && len < 48) {
            return false;
        }
        if len < 28 || (32 <= len && len < 44) || (48 <= len && len < 63) {
            return true;
        }
        if u32_le_at(data, OFFSET_LOW_RES_FORMAT) != FORMAT_DXT1 {
            return true;
        }
        let header_size = u32_le_at(data, OFFSET_HEADER_SIZE);
        let lw = data[OFFSET_LOW_RES_WIDTH];
        let lh = data[OFFSET_LOW_RES_HEIGHT];
        assert(lw as u64 * lh as u64 <= 255 * 255) by (nonlinear_arith)
            requires
                lw <= 255,
                lh <= 255,
        ;
        let hro: u64 = header_size as u64 + (lw as u64 * lh as u64 * 4) / 8;
        assert(hro as nat == spec_high_res_offset(data@));
        if hro > len as u64 {
            return false;
        }
        if u32_le_at(data, OFFSET_HIGH_RES_FORMAT) != FORMAT_DXT1 {
            return true;
        }
        let width = u16_le_at(data, OFFSET_WIDTH);
        let height = u16_le_at(data, OFFSET_HEIGHT);
        let count = data[OFFSET_MIPMAP_COUNT];
        proof {
            lemma_mip_offset_bound(width as nat, height as nat, count as nat, count as nat);
        }
        let chain = mip_chain_size(width, height, count);
        hro + chain <= len as u64
    }
}

/// The width and height of a texture enter a level's size alike: a `w` by `h` image and an `h`
/// by `w` image have levels of the same size.
pub proof fn lemma_mip_size_symmetric(w: nat, h: nat, level: nat)
    ensures
        spec_mip_size(w, h, level) == spec_mip_size(h, w, level),
{
    let a = spec_mip_dim(w, level);
    let b = spec_mip_dim(h, level);
    assert(a * b == b * a) by (nonlinear_arith);
}

/// The decoded chain of a readable DXT1 texture has one level per mipmap; the full-size level
/// holds `width * height / 2` bytes, and each smaller level holds its own width times its own
/// height over two, the width and the height each halved once per level and never below four.
pub proof fn lemma_image_level_sizes(d: Seq<u8>)
    requires
        !spec_vtf_panics(d),
        !spec_vtf_truncated(d),
        spec_vtf_image(d) is Some,
    ensures
        ({
            let m = spec_vtf_image(d)->0;
            let w = spec_vtf_width(d) as nat;
            let h = spec_vtf_height(d) as nat;
            &&& m.len() == spec_mip_count(d)
            &&& m.len() > 0 ==> m[0].len() == w * h / 2
            &&& forall|l: int|
                0 <= l < m.len() ==> (#[trigger] m[l]).len() == spec_mip_dim(w, l as nat)
                    * spec_mip_dim(h, l as nat) / 2
        }),
{
    let m = spec_vtf_image(d)->0;
    let w = spec_vtf_width(d) as nat;
    let h = spec_vtf_height(d) as nat;
    let count = spec_mip_count(d);
    assert forall|l: int| 0 <= l < m.len() implies (#[trigger] m[l]).len() == spec_mip_dim(w, l as nat)
        * spec_mip_dim(h, l as nat) / 2 by {
        let i = (count - 1 - l) as nat;
        assert(spec_mip_offset(w, h, count, i + 1) == spec_mip_offset(w, h, count, i) + spec_mip_size(
            w,
            h,
            l as nat,
        ));
        lemma_mip_offset_monotonic(w, h, count, i + 1, count);
    }
}

} // verus!
