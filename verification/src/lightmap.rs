//! Lightmap textures: a compressed image per cluster, assembled from patches of 4x4-luxel
//! sub-blocks, with one page of data per light style.
use vstd::prelude::*;

use crate::map_data::{LightmapClusterTableEntry, LightmapPatchTableEntry};

verus! {

/// Bytes of one compressed 4x4 sub-block.
pub const SUB_BLOCK_SIZE: usize = 8;

/// Number of light styles a lightmap can show.
pub const STYLE_COUNT: usize = 4;

/// The size of a lightmap texture in pixels for a lightmap `size` luxels wide or high: rounded
/// up to a multiple of four, at least four.
pub open spec fn spec_physical_size(size: int) -> int {
    4 * if (size + 3) / 4 >= 1 { (size + 3) / 4 } else { 1 }
}

/// The number of 8x8 blocks across a lightmap `width` luxels wide, at least one.
pub open spec fn spec_blocks_wide(width: int) -> int {
    if (width + 7) / 8 >= 1 { (width + 7) / 8 } else { 1 }
}

/// The byte offset in the image of the sub-block at `(x, y)`, in sub-blocks: blocks of 2x2
/// sub-blocks row by row, and within a block the sub-blocks row by row.
pub open spec fn spec_sub_block_offset(blocks_wide: int, x: int, y: int) -> int {
    32 * (blocks_wide * (y / 2) + x / 2) + 16 * (y % 2) + 8 * (x % 2)
}

/// The light style a patch shows for the requested style: the last one it has when it has fewer.
pub open spec fn spec_patch_style(p: LightmapPatchTableEntry, style: int) -> int {
    if style < p.style_count - 1 { style } else { p.style_count - 1 }
}

/// The bytes of one style's page of a patch.
pub open spec fn spec_page_size(p: LightmapPatchTableEntry) -> int {
    8 * p.sub_blocks_wide * p.sub_blocks_high
}

/// Where the data of sub-block `(dx, dy)` of patch `p` is, for `style`.
pub open spec fn spec_source_offset(p: LightmapPatchTableEntry, style: int, dx: int, dy: int) -> int {
    p.data_start_offset + spec_page_size(p) * spec_patch_style(p, style) + 8 * (p.sub_blocks_wide
        * dy + dx)
}

/// Where sub-block `(dx, dy)` of patch `p` goes in the image.
pub open spec fn spec_destination_offset(p: LightmapPatchTableEntry, blocks_wide: int, dx: int, dy: int) -> int {
    spec_sub_block_offset(blocks_wide, p.sub_block_x + dx, p.sub_block_y + dy)
}

/// `img` with the 8 bytes at `dst` replaced by the 8 bytes of `data` at `src`.
pub open spec fn spec_copy8(img: Seq<u8>, dst: int, data: Seq<u8>, src: int) -> Seq<u8> {
    img.subrange(0, dst) + data.subrange(src, src + 8) + img.subrange(dst + 8, img.len() as int)
}

/// Whether patch `p` can be copied for `style`: it has a style, its page lies within its data
/// and the data within `data_len` bytes, and each sub-block lands within `image_len` bytes.
pub open spec fn spec_patch_fits(
    p: LightmapPatchTableEntry,
    style: int,
    blocks_wide: int,
    data_len: int,
    image_len: int,
) -> bool {
    &&& p.style_count >= 1
    &&& p.data_start_offset <= p.data_end_offset <= data_len
    &&& spec_page_size(p) * (spec_patch_style(p, style) + 1) <= p.data_end_offset
        - p.data_start_offset
    &&& forall|dx: int, dy: int|
        0 <= dx < p.sub_blocks_wide && 0 <= dy < p.sub_blocks_high ==> #[trigger] spec_destination_offset(
            p,
            blocks_wide,
            dx,
            dy,
        ) + 8 <= image_len
}

/// The image after sub-blocks `(dx, 0..n)` of patch `p` are copied, in order.
pub open spec fn spec_copy_column(
    img: Seq<u8>,
    p: LightmapPatchTableEntry,
    style: int,
    blocks_wide: int,
    data: Seq<u8>,
    dx: int,
    n: nat,
) -> Seq<u8>
    decreases n,
{
    if n == 0 {
        img
    } else {
        let prev = spec_copy_column(img, p, style, blocks_wide, data, dx, (n - 1) as nat);
        spec_copy8(
            prev,
            spec_destination_offset(p, blocks_wide, dx, n - 1),
            data,
            spec_source_offset(p, style, dx, n - 1),
        )
    }
}

/// The image after columns `0..n` of patch `p` are copied, in order.
pub open spec fn spec_copy_patch(
    img: Seq<u8>,
    p: LightmapPatchTableEntry,
    style: int,
    blocks_wide: int,
    data: Seq<u8>,
    n: nat,
) -> Seq<u8>
    decreases n,
{
    if n == 0 {
        img
    } else {
        spec_copy_column(
            spec_copy_patch(img, p, style, blocks_wide, data, (n - 1) as nat),
            p,
            style,
            blocks_wide,
            data,
            n - 1,
            p.sub_blocks_high as nat,
        )
    }
}

/// The image after the first `n` patches of `patches` are copied, in order.
pub open spec fn spec_copy_patches(
    img: Seq<u8>,
    patches: Seq<LightmapPatchTableEntry>,
    style: int,
    blocks_wide: int,
    data: Seq<u8>,
    n: nat,
) -> Seq<u8>
    decreases n,
{
    if n == 0 {
        img
    } else {
        let prev = spec_copy_patches(img, patches, style, blocks_wide, data, (n - 1) as nat);
        let p = patches[n - 1];
        spec_copy_patch(prev, p, style, blocks_wide, data, p.sub_blocks_wide as nat)
    }
}

/// The patches of a lightmap's entry in the patch table.
pub open spec fn spec_entry_patches(
    table: Seq<LightmapPatchTableEntry>,
    entry: LightmapClusterTableEntry,
) -> Seq<LightmapPatchTableEntry> {
    table.subrange(entry.patch_table_start_index as int, entry.patch_table_end_index as int)
}

/// Whether the lightmap of `entry` can be built for `style` into an image of `image_len` bytes:
/// the entry's patches are in the table and each of them fits.
pub open spec fn spec_update_fits(
    table: Seq<LightmapPatchTableEntry>,
    data_len: int,
    entry: LightmapClusterTableEntry,
    style: int,
    image_len: int,
) -> bool {
    &&& style < STYLE_COUNT
    &&& entry.width <= 65528
    &&& entry.patch_table_start_index <= entry.patch_table_end_index <= table.len()
    &&& forall|i: int|
        0 <= i < spec_entry_patches(table, entry).len() ==> spec_patch_fits(
            #[trigger] spec_entry_patches(table, entry)[i],
            style,
            spec_blocks_wide(entry.width as int),
            data_len,
            image_len,
        )
}

/// Copying sub-blocks keeps the image's length.
pub proof fn lemma_copy_column_len(
    img: Seq<u8>,
    p: LightmapPatchTableEntry,
    style: int,
    bw: int,
    data: Seq<u8>,
    dx: int,
    n: nat,
)
    requires
        n <= p.sub_blocks_high,
        0 <= dx < p.sub_blocks_wide,
        spec_patch_fits(p, style, bw, data.len() as int, img.len() as int),
        forall|dy: int|
            0 <= dy < n ==> 0 <= spec_source_offset(p, style, dx, dy) && spec_source_offset(
                p,
                style,
                dx,
                dy,
            ) + 8 <= data.len() && 0 <= spec_destination_offset(p, bw, dx, dy),
    ensures
        spec_copy_column(img, p, style, bw, data, dx, n).len() == img.len(),
    decreases n,
{
    if n > 0 {
        lemma_copy_column_len(img, p, style, bw, data, dx, (n - 1) as nat);
        assert(spec_destination_offset(p, bw, dx, n - 1) + 8 <= img.len());
    }
}

/// A lightmap texture's image.
pub struct Lightmap {
    image_data: Vec<u8>,
    physical_width: u16,
    physical_height: u16,
}

impl Lightmap {
    /// The compressed image.
    pub closed spec fn spec_image(&self) -> Seq<u8> {
        self.image_data@
    }

    /// The texture's width in pixels.
    pub closed spec fn spec_physical_width(&self) -> int {
        self.physical_width as int
    }

    /// The texture's height in pixels.
    pub closed spec fn spec_physical_height(&self) -> int {
        self.physical_height as int
    }

    /// An all-zero lightmap for `entry`, whose size is rounded up to whole 4x4 sub-blocks; the
    /// image has room for four bytes per pixel.
    pub fn new(entry: &LightmapClusterTableEntry) -> (r: Self)
        requires
            entry.width <= 65532,
            entry.height <= 65532,
            4 * spec_physical_size(entry.width as int) * spec_physical_size(entry.height as int)
                <= usize::MAX,
        ensures
            r.spec_physical_width() == spec_physical_size(entry.width as int),
            r.spec_physical_height() == spec_physical_size(entry.height as int),
            r.spec_image().len() == 4 * r.spec_physical_width() * r.spec_physical_height(),
            forall|i: int| 0 <= i < r.spec_image().len() ==> r.spec_image()[i] == 0,
    {
        let cw = (entry.width + 3) / 4;
        let coarse_width = if cw >= 1 { cw } else { 1 };
        let ch = (entry.height + 3) / 4;
        let coarse_height = if ch >= 1 { ch } else { 1 };
        let physical_width = 4 * coarse_width;
        let physical_height = 4 * coarse_height;
        let len = 4 * physical_width as usize * physical_height as usize;
        let mut image_data: Vec<u8> = Vec::new();
        let mut i: usize = 0;
        while i < len
            invariant
                i <= len,
                image_data@.len() == i,
                forall|j: int| 0 <= j < i ==> image_data@[j] == 0,
            decreases len - i,
        {
            image_data.push(0);
            i = i + 1;
        }
        Lightmap { image_data, physical_width, physical_height }
    }

    /// The texture's width in pixels.
    pub fn physical_width(&self) -> (r: u16)
        ensures
            r == self.spec_physical_width(),
    {
        self.physical_width
    }

    /// The texture's height in pixels.
    pub fn physical_height(&self) -> (r: u16)
        ensures
            r == self.spec_physical_height(),
    {
        self.physical_height
    }

    /// The compressed image.
    pub fn image_data(&self) -> (r: &[u8])
        ensures
            r@ == self.spec_image(),
    {
        self.image_data.as_slice()
    }

    /// Whether [`Lightmap::update`] can build this lightmap for `entry` and `style` from the patch
    /// table and the lightmap data.
    pub fn patches_fit(
        &self,
        patch_table: &[LightmapPatchTableEntry],
        lightmap_data: &[u8],
        entry: &LightmapClusterTableEntry,
        style: usize,
    ) -> (r: bool)
        ensures
            r == spec_update_fits(
                patch_table@,
                lightmap_data@.len() as int,
                *entry,
                style as int,
                self.spec_image().len() as int,
            ),
    {
        if style >= STYLE_COUNT || entry.width > 65528 {
            return false;
        }
        if !(entry.patch_table_start_index <= entry.patch_table_end_index
            && entry.patch_table_end_index <= patch_table.len()) {
            return false;
        }
        let bw = blocks_wide(entry.width);
        let ghost patches = spec_entry_patches(patch_table@, *entry);
        let start = entry.patch_table_start_index;
        let end = entry.patch_table_end_index;
        let mut k = start;
        while k < end
            invariant
                start <= k <= end <= patch_table@.len(),
                patches == patch_table@.subrange(start as int, end as int),
                patches == spec_entry_patches(patch_table@, *entry),
                style < STYLE_COUNT,
                bw == spec_blocks_wide(entry.width as int),
                1 <= bw <= 8191,
                forall|i: int|
                    0 <= i < k - start ==> spec_patch_fits(
                        #[trigger] patches[i],
                        style as int,
                        bw as int,
                        lightmap_data@.len() as int,
                        self.spec_image().len() as int,
                    ),
            decreases end - k,
        {
            let p = patch_table[k];
            assert(patches[k - start] == p);
            if !patch_fits(&p, style, bw, lightmap_data.len(), self.image_data.len()) {
                return false;
            }
            k = k + 1;
        }
        true
    }

    /// Builds the image for light style `style` from the entry's patches: each sub-block of each
    /// patch, in order, is copied from the patch's page for the style (its last page when it has
    /// fewer styles) to its place in the image.
    pub fn update(
        &mut self,
        patch_table: &[LightmapPatchTableEntry],
        lightmap_data: &[u8],
        entry: &LightmapClusterTableEntry,
        style: usize,
    )
        requires
            spec_update_fits(
                patch_table@,
                lightmap_data@.len() as int,
                *entry,
                style as int,
                old(self).spec_image().len() as int,
            ),
        ensures
            final(self).spec_physical_width() == old(self).spec_physical_width(),
            final(self).spec_physical_height() == old(self).spec_physical_height(),
            final(self).spec_image() == spec_copy_patches(
                old(self).spec_image(),
                spec_entry_patches(patch_table@, *entry),
                style as int,
                spec_blocks_wide(entry.width as int),
                lightmap_data@,
                spec_entry_patches(patch_table@, *entry).len(),
            ),
    {
        let bw = blocks_wide(entry.width);
        let ghost patches = spec_entry_patches(patch_table@, *entry);
        let ghost img0 = self.image_data@;
        let start = entry.patch_table_start_index;
        let end = entry.patch_table_end_index;
        let mut k = start;
        while k < end
            invariant
                start <= k <= end <= patch_table@.len(),
                patches == patch_table@.subrange(start as int, end as int),
                bw == spec_blocks_wide(entry.width as int),
                1 <= bw <= 8191,
                style < STYLE_COUNT,
                forall|i: int|
                    0 <= i < patches.len() ==> spec_patch_fits(
                        #[trigger] patches[i],
                        style as int,
                        bw as int,
                        lightmap_data@.len() as int,
                        img0.len() as int,
                    ),
                self.image_data@.len() == img0.len(),
                self.image_data@ == spec_copy_patches(
                    img0,
                    patches,
                    style as int,
                    bw as int,
                    lightmap_data@,
                    (k - start) as nat,
                ),
                self.physical_width == old(self).physical_width,
                self.physical_height == old(self).physical_height,
            decreases end - k,
        {
            let p = patch_table[k];
            assert(patches[k - start] == p);
            copy_patch(&mut self.image_data, &p, style, bw, lightmap_data);
            k = k + 1;
        }
    }
}

/// The number of 8x8 blocks across a lightmap `width` luxels wide.
fn blocks_wide(width: u16) -> (r: usize)
    requires
        width <= 65528,
    ensures
        r == spec_blocks_wide(width as int),
        1 <= r <= 8191,
{
    let b = ((width + 7) / 8) as usize;
    if b >= 1 { b } else { 1 }
}

/// The light style the patch shows.
fn patch_style(p: &LightmapPatchTableEntry, style: usize) -> (r: usize)
    requires
        p.style_count >= 1,
    ensures
        r == spec_patch_style(*p, style as int),
        r < p.style_count,
{
    let last = p.style_count as usize - 1;
    if style < last { style } else { last }
}

/// Where sub-block `(dx, dy)` of the patch goes in the image.
fn destination_offset(p: &LightmapPatchTableEntry, bw: usize, dx: usize, dy: usize) -> (r: usize)
    requires
        1 <= bw <= 8191,
        dx < 256,
        dy < 256,
    ensures
        r == spec_destination_offset(*p, bw as int, dx as int, dy as int),
        r <= 32 * (8191 * 255 + 255) + 24,
{
    let x = p.sub_block_x as usize + dx;
    let y = p.sub_block_y as usize + dy;
    assert(bw * (y / 2) <= 8191 * 255) by (nonlinear_arith)
        requires
            bw <= 8191,
            y / 2 <= 255,
    ;
    32 * (bw * (y / 2) + x / 2) + 16 * (y % 2) + 8 * (x % 2)
}

/// Whether one patch fits, as [`spec_patch_fits`] says.
fn patch_fits(
    p: &LightmapPatchTableEntry,
    style: usize,
    bw: usize,
    data_len: usize,
    image_len: usize,
) -> (r: bool)
    requires
        1 <= bw <= 8191,
        style < STYLE_COUNT,
    ensures
        r == spec_patch_fits(*p, style as int, bw as int, data_len as int, image_len as int),
{
    if p.style_count < 1 {
        return false;
    }
    if !(p.data_start_offset <= p.data_end_offset && p.data_end_offset <= data_len) {
        return false;
    }
    let s = patch_style(p, style);
    let sw = p.sub_blocks_wide as usize;
    let sh = p.sub_blocks_high as usize;
    assert(8 * sw * sh <= 8 * 255 * 255) by (nonlinear_arith)
        requires
            sw <= 255,
            sh <= 255,
    ;
    let page_size = 8 * sw * sh;
    assert(page_size * (s + 1) <= 8 * 255 * 255 * 256) by (nonlinear_arith)
        requires
            page_size <= 8 * 255 * 255,
            s < 255,
    ;
    if page_size * (s + 1) > p.data_end_offset - p.data_start_offset {
        return false;
    }
    let mut dx: usize = 0;
    while dx < sw
        invariant
            sw == p.sub_blocks_wide,
            sh == p.sub_blocks_high,
            1 <= bw <= 8191,
            dx <= sw,
            forall|a: int, b: int|
                0 <= a < dx && 0 <= b < sh ==> #[trigger] spec_destination_offset(
                    *p,
                    bw as int,
                    a,
                    b,
                ) + 8 <= image_len,
        decreases sw - dx,
    {
        let mut dy: usize = 0;
        while dy < sh
            invariant
                sw == p.sub_blocks_wide,
                sh == p.sub_blocks_high,
                1 <= bw <= 8191,
                dx < sw,
                dy <= sh,
                forall|a: int, b: int|
                    0 <= a < dx && 0 <= b < sh ==> #[trigger] spec_destination_offset(
                        *p,
                        bw as int,
                        a,
                        b,
                    ) + 8 <= image_len,
                forall|b: int|
                    0 <= b < dy ==> #[trigger] spec_destination_offset(*p, bw as int, dx as int, b)
                        + 8 <= image_len,
            decreases sh - dy,
        {
            let d = destination_offset(p, bw, dx, dy);
            if d + 8 > image_len {
                return false;
            }
            dy = dy + 1;
        }
        dx = dx + 1;
    }
    true
}

/// Copies every sub-block of one patch, column by column.
fn copy_patch(
    img: &mut Vec<u8>,
    p: &LightmapPatchTableEntry,
    style: usize,
    bw: usize,
    data: &[u8],
)
    requires
        1 <= bw <= 8191,
        style < STYLE_COUNT,
        spec_patch_fits(*p, style as int, bw as int, data@.len() as int, old(img)@.len() as int),
    ensures
        final(img)@.len() == old(img)@.len(),
        final(img)@ == spec_copy_patch(
            old(img)@,
            *p,
            style as int,
            bw as int,
            data@,
            p.sub_blocks_wide as nat,
        ),
{
    let ghost img0 = img@;
    let s = patch_style(p, style);
    let sw = p.sub_blocks_wide as usize;
    let sh = p.sub_blocks_high as usize;
    assert(8 * sw * sh <= 8 * 255 * 255) by (nonlinear_arith)
        requires
            sw <= 255,
            sh <= 255,
    ;
    let page_size = 8 * sw * sh;
    assert(page_size * s + page_size <= p.data_end_offset - p.data_start_offset) by (nonlinear_arith)
        requires
            page_size * (s + 1) <= p.data_end_offset - p.data_start_offset,
    ;
    let page = p.data_start_offset + page_size * s;
    let mut dx: usize = 0;
    while dx < sw
        invariant
            sw == p.sub_blocks_wide,
            sh == p.sub_blocks_high,
            1 <= bw <= 8191,
            style < STYLE_COUNT,
            s == spec_patch_style(*p, style as int),
            page_size == spec_page_size(*p),
            page == p.data_start_offset + page_size * s,
            spec_patch_fits(*p, style as int, bw as int, data@.len() as int, img0.len() as int),
            dx <= sw,
            img@.len() == img0.len(),
            img@ == spec_copy_patch(img0, *p, style as int, bw as int, data@, dx as nat),
        decreases sw - dx,
    {
        let ghost before = img@;
        let mut dy: usize = 0;
        while dy < sh
            invariant
                sw == p.sub_blocks_wide,
                sh == p.sub_blocks_high,
                1 <= bw <= 8191,
                style < STYLE_COUNT,
                s == spec_patch_style(*p, style as int),
                page_size == spec_page_size(*p),
                page == p.data_start_offset + page_size * s,
                spec_patch_fits(*p, style as int, bw as int, data@.len() as int, img0.len() as int),
                dx < sw,
                dy <= sh,
                img@.len() == img0.len(),
                img@ == spec_copy_column(before, *p, style as int, bw as int, data@, dx as int, dy as nat),
            decreases sh - dy,
        {
            let dst = destination_offset(p, bw, dx, dy);
            assert(spec_destination_offset(*p, bw as int, dx as int, dy as int) + 8 <= img0.len());
            assert(8 * (sw * dy + dx) + 8 <= page_size) by (nonlinear_arith)
                requires
                    page_size == 8 * sw * sh,
                    dx < sw,
                    dy < sh,
            ;
            assert(page_size * s + page_size <= p.data_end_offset - p.data_start_offset) by (nonlinear_arith)
                requires
                    page_size * (s + 1) <= p.data_end_offset - p.data_start_offset,
            ;
            let src = page + 8 * (sw * dy + dx);
            assert(src == spec_source_offset(*p, style as int, dx as int, dy as int));
            copy8(img, dst, data, src);
            dy = dy + 1;
        }
        dx = dx + 1;
    }
}

/// Copies the 8 bytes of `data` at `src` to `img` at `dst`.
fn copy8(img: &mut Vec<u8>, dst: usize, data: &[u8], src: usize)
    requires
        dst + 8 <= old(img)@.len(),
        src + 8 <= data@.len(),
    ensures
        final(img)@ == spec_copy8(old(img)@, dst as int, data@, src as int),
{
    let ghost img0 = img@;
    let _n = img.len();
    let _m = data.len();
    let mut j: usize = 0;
    while j < 8
        invariant
            img0.len() <= usize::MAX,
            data@.len() <= usize::MAX,
            dst + 8 <= img0.len(),
            src + 8 <= data@.len(),
            j <= 8,
            img@.len() == img0.len(),
            forall|i: int|
                0 <= i < img0.len() ==> #[trigger] img@[i] == if dst <= i < dst + j {
                    data@[src + (i - dst)]
                } else {
                    img0[i]
                },
        decreases 8 - j,
    {
        img.set(dst + j, data[src + j]);
        j = j + 1;
    }
    assert(img@ =~= spec_copy8(img0, dst as int, data@, src as int));
}


/// Blocks are numbered row by row: different block coordinates within a row of `bw` blocks get
/// different numbers.
proof fn lemma_block_number_injective(bw: int, a1: int, b1: int, a2: int, b2: int)
    requires
        bw >= 1,
        a1 >= 0,
        a2 >= 0,
        0 <= b1 < bw,
        0 <= b2 < bw,
        bw * a1 + b1 == bw * a2 + b2,
    ensures
        a1 == a2,
        b1 == b2,
{
    if a1 < a2 {
        assert(bw * a1 + b1 < bw * a2) by (nonlinear_arith)
            requires
                bw >= 1,
                a1 < a2,
                b1 < bw,
        ;
    } else if a2 < a1 {
        assert(bw * a2 + b2 < bw * a1) by (nonlinear_arith)
            requires
                bw >= 1,
                a2 < a1,
                b2 < bw,
        ;
    }
}

/// The slot of a sub-block, in units of 8 bytes.
proof fn lemma_sub_block_slot(bw: int, x: int, y: int)
    requires
        bw >= 1,
        0 <= x < 2 * bw,
        y >= 0,
    ensures
        spec_sub_block_offset(bw, x, y) == 8 * (4 * (bw * (y / 2) + x / 2) + 2 * (y % 2) + x % 2),
        0 <= x / 2 < bw,
        0 <= y / 2,
        0 <= x % 2 < 2,
        0 <= y % 2 < 2,
{
}

/// Sub-blocks land in 8-byte slots, and two different sub-blocks of a lightmap `bw` blocks wide
/// land in different slots, so no copy overwrites another sub-block.
pub proof fn lemma_sub_block_slots_disjoint(bw: int, x1: int, y1: int, x2: int, y2: int)
    requires
        bw >= 1,
        0 <= x1 < 2 * bw,
        0 <= x2 < 2 * bw,
        y1 >= 0,
        y2 >= 0,
        x1 != x2 || y1 != y2,
    ensures
        spec_sub_block_offset(bw, x1, y1) % 8 == 0,
        spec_sub_block_offset(bw, x2, y2) % 8 == 0,
        spec_sub_block_offset(bw, x1, y1) + 8 <= spec_sub_block_offset(bw, x2, y2)
            || spec_sub_block_offset(bw, x2, y2) + 8 <= spec_sub_block_offset(bw, x1, y1),
{
    lemma_sub_block_slot(bw, x1, y1);
    lemma_sub_block_slot(bw, x2, y2);
    let q1 = 4 * (bw * (y1 / 2) + x1 / 2) + 2 * (y1 % 2) + x1 % 2;
    let q2 = 4 * (bw * (y2 / 2) + x2 / 2) + 2 * (y2 % 2) + x2 % 2;
    if q1 == q2 {
        let c1 = bw * (y1 / 2) + x1 / 2;
        let c2 = bw * (y2 / 2) + x2 / 2;
        assert(c1 == c2 && y1 % 2 == y2 % 2 && x1 % 2 == x2 % 2) by {
            assert(4 * c1 + 2 * (y1 % 2) + x1 % 2 == 4 * c2 + 2 * (y2 % 2) + x2 % 2);
        }
        lemma_block_number_injective(bw, y1 / 2, x1 / 2, y2 / 2, x2 / 2);
        assert(x1 == 2 * (x1 / 2) + x1 % 2);
        assert(x2 == 2 * (x2 / 2) + x2 % 2);
        assert(y1 == 2 * (y1 / 2) + y1 % 2);
        assert(y2 == 2 * (y2 / 2) + y2 % 2);
    }
    assert((8 * q1) % 8 == 0) by (nonlinear_arith);
    assert((8 * q2) % 8 == 0) by (nonlinear_arith);
}

/// Copying 8 bytes changes just those 8 bytes of the image.
proof fn lemma_copy8_bytes(img: Seq<u8>, dst: int, data: Seq<u8>, src: int, k: int)
    requires
        0 <= dst,
        dst + 8 <= img.len(),
        0 <= src,
        src + 8 <= data.len(),
        0 <= k < img.len(),
    ensures
        spec_copy8(img, dst, data, src).len() == img.len(),
        dst <= k < dst + 8 ==> spec_copy8(img, dst, data, src)[k] == data[src + k - dst],
        !(dst <= k < dst + 8) ==> spec_copy8(img, dst, data, src)[k] == img[k],
{
}

/// The patch lies across the lightmap: its sub-blocks fit and its columns are within its
/// width, so that different sub-blocks land in different places.
pub open spec fn spec_patch_placed(
    p: LightmapPatchTableEntry,
    style: int,
    blocks_wide: int,
    data_len: int,
    image_len: int,
) -> bool {
    &&& blocks_wide >= 1
    &&& style >= 0
    &&& spec_patch_fits(p, style, blocks_wide, data_len, image_len)
    &&& p.sub_block_x + p.sub_blocks_wide <= 2 * blocks_wide
}

/// The data of each sub-block lies within the patch's page for the style.
proof fn lemma_source_in_page(p: LightmapPatchTableEntry, style: int, bw: int, data_len: int, image_len: int, dx: int, dy: int)
    requires
        spec_patch_placed(p, style, bw, data_len, image_len),
        0 <= dx < p.sub_blocks_wide,
        0 <= dy < p.sub_blocks_high,
    ensures
        0 <= spec_source_offset(p, style, dx, dy),
        spec_source_offset(p, style, dx, dy) + 8 <= data_len,
        0 <= spec_destination_offset(p, bw, dx, dy),
        spec_destination_offset(p, bw, dx, dy) + 8 <= image_len,
{
    let sw = p.sub_blocks_wide as int;
    let sh = p.sub_blocks_high as int;
    let ps = spec_page_size(p);
    let st = spec_patch_style(p, style);
    assert(8 * (sw * dy + dx) + 8 <= 8 * sw * sh) by (nonlinear_arith)
        requires
            0 <= dx < sw,
            0 <= dy < sh,
    ;
    assert(0 <= ps * st) by (nonlinear_arith)
        requires
            ps == 8 * sw * sh,
            sw >= 0,
            sh >= 0,
            st >= 0,
    ;
    assert(ps * st + ps == ps * (st + 1)) by (nonlinear_arith);
    assert(0 <= sw * dy) by (nonlinear_arith)
        requires
            sw >= 0,
            dy >= 0,
    ;
    assert(spec_destination_offset(p, bw, dx, dy) + 8 <= image_len);
    lemma_sub_block_slot(bw, p.sub_block_x + dx, p.sub_block_y + dy);
    assert(0 <= bw * ((p.sub_block_y + dy) / 2)) by (nonlinear_arith)
        requires
            bw >= 1,
            (p.sub_block_y + dy) / 2 >= 0,
    ;
}

/// After sub-blocks `(col, 0..m)` are copied, each of them holds its data, and every byte outside
/// them is as it was.
proof fn lemma_copy_column_bytes(
    img: Seq<u8>,
    p: LightmapPatchTableEntry,
    style: int,
    bw: int,
    data: Seq<u8>,
    col: int,
    m: nat,
    k: int,
)
    requires
        spec_patch_placed(p, style, bw, data.len() as int, img.len() as int),
        0 <= col < p.sub_blocks_wide,
        m <= p.sub_blocks_high,
        0 <= k < img.len(),
    ensures
        spec_copy_column(img, p, style, bw, data, col, m).len() == img.len(),
        forall|dy: int|
            0 <= dy < m && #[trigger] spec_destination_offset(p, bw, col, dy) <= k < spec_destination_offset(
                p,
                bw,
                col,
                dy,
            ) + 8 ==> spec_copy_column(img, p, style, bw, data, col, m)[k] == data[spec_source_offset(
                p,
                style,
                col,
                dy,
            ) + k - spec_destination_offset(p, bw, col, dy)],
        (forall|dy: int|
            0 <= dy < m ==> !(#[trigger] spec_destination_offset(p, bw, col, dy) <= k
                < spec_destination_offset(p, bw, col, dy) + 8)) ==> spec_copy_column(
            img,
            p,
            style,
            bw,
            data,
            col,
            m,
        )[k] == img[k],
    decreases m,
{
    if m > 0 {
        let prev = spec_copy_column(img, p, style, bw, data, col, (m - 1) as nat);
        lemma_copy_column_bytes(img, p, style, bw, data, col, (m - 1) as nat, k);
        let last = m - 1;
        lemma_source_in_page(p, style, bw, data.len() as int, img.len() as int, col, last);
        let d = spec_destination_offset(p, bw, col, last);
        let sr = spec_source_offset(p, style, col, last);
        lemma_copy8_bytes(prev, d, data, sr, k);
        assert forall|dy: int|
            0 <= dy < last implies !(d <= k < d + 8) || !(#[trigger] spec_destination_offset(p, bw, col, dy) <= k
                < spec_destination_offset(p, bw, col, dy) + 8) by {
            lemma_sub_block_slots_disjoint(
                bw,
                p.sub_block_x + col,
                p.sub_block_y + last,
                p.sub_block_x + col,
                p.sub_block_y + dy,
            );
        }
    }
}

/// After columns `0..n` of a patch are copied, each of their sub-blocks holds its data, and every
/// byte outside them is as it was.
proof fn lemma_copy_patch_bytes(
    img: Seq<u8>,
    p: LightmapPatchTableEntry,
    style: int,
    bw: int,
    data: Seq<u8>,
    n: nat,
    k: int,
)
    requires
        spec_patch_placed(p, style, bw, data.len() as int, img.len() as int),
        n <= p.sub_blocks_wide,
        0 <= k < img.len(),
    ensures
        spec_copy_patch(img, p, style, bw, data, n).len() == img.len(),
        forall|dx: int, dy: int|
            0 <= dx < n && 0 <= dy < p.sub_blocks_high && #[trigger] spec_destination_offset(p, bw, dx, dy) <= k
                < spec_destination_offset(p, bw, dx, dy) + 8 ==> spec_copy_patch(
                img,
                p,
                style,
                bw,
                data,
                n,
            )[k] == data[spec_source_offset(p, style, dx, dy) + k - spec_destination_offset(
                p,
                bw,
                dx,
                dy,
            )],
        (forall|dx: int, dy: int|
            0 <= dx < n && 0 <= dy < p.sub_blocks_high ==> !(#[trigger] spec_destination_offset(p, bw, dx, dy)
                <= k < spec_destination_offset(p, bw, dx, dy) + 8)) ==> spec_copy_patch(
            img,
            p,
            style,
            bw,
            data,
            n,
        )[k] == img[k],
    decreases n,
{
    if n > 0 {
        let col = n - 1;
        let prev = spec_copy_patch(img, p, style, bw, data, (n - 1) as nat);
        lemma_copy_patch_bytes(img, p, style, bw, data, (n - 1) as nat, k);
        lemma_copy_column_bytes(prev, p, style, bw, data, col, p.sub_blocks_high as nat, k);
        assert forall|dx: int, dy: int, ey: int|
            0 <= dx < col && 0 <= dy < p.sub_blocks_high && 0 <= ey < p.sub_blocks_high implies !(
            #[trigger] spec_destination_offset(p, bw, col, ey) <= k < spec_destination_offset(p, bw, col, ey) + 8)
            || !(#[trigger] spec_destination_offset(p, bw, dx, dy) <= k < spec_destination_offset(p, bw, dx, dy)
            + 8) by {
            lemma_sub_block_slots_disjoint(
                bw,
                p.sub_block_x + col,
                p.sub_block_y + ey,
                p.sub_block_x + dx,
                p.sub_block_y + dy,
            );
        }
    }
}

/// Copying a patch for a light style puts each of its sub-blocks in place: the 8 bytes at the
/// image position of sub-block `(dx, dy)` become the 8 bytes at `8 * (sub_blocks_wide * dy + dx)`
/// in the patch's page for the style (the pages follow each other from the patch's data start,
/// each holding the patch's sub-blocks row by row), and no other byte of the image changes.
pub proof fn lemma_patch_copied(
    img: Seq<u8>,
    p: LightmapPatchTableEntry,
    style: int,
    blocks_wide: int,
    data: Seq<u8>,
)
    requires
        spec_patch_placed(p, style, blocks_wide, data.len() as int, img.len() as int),
    ensures
        ({
            let out = spec_copy_patch(img, p, style, blocks_wide, data, p.sub_blocks_wide as nat);
            &&& out.len() == img.len()
            &&& forall|dx: int, dy: int|
                #![trigger spec_destination_offset(p, blocks_wide, dx, dy)]
                0 <= dx < p.sub_blocks_wide && 0 <= dy < p.sub_blocks_high ==> {
                    let dst = spec_destination_offset(p, blocks_wide, dx, dy);
                    let src = p.data_start_offset + 8 * p.sub_blocks_wide * p.sub_blocks_high
                        * spec_patch_style(p, style) + 8 * (p.sub_blocks_wide * dy + dx);
                    out.subrange(dst, dst + 8) == data.subrange(src, src + 8)
                }
            &&& forall|k: int|
                0 <= k < img.len() && (forall|dx: int, dy: int|
                    0 <= dx < p.sub_blocks_wide && 0 <= dy < p.sub_blocks_high ==> !(
                    #[trigger] spec_destination_offset(p, blocks_wide, dx, dy) <= k
                        < spec_destination_offset(p, blocks_wide, dx, dy) + 8)) ==> #[trigger] out[k] == img[k]
        }),
{
    let n = p.sub_blocks_wide as nat;
    let out = spec_copy_patch(img, p, style, blocks_wide, data, n);
    if img.len() > 0 {
        lemma_copy_patch_bytes(img, p, style, blocks_wide, data, n, 0);
    } else {
        lemma_copy_patch_len_empty(img, p, style, blocks_wide, data, n);
    }
    assert forall|dx: int, dy: int|
        #![trigger spec_destination_offset(p, blocks_wide, dx, dy)]
        0 <= dx < p.sub_blocks_wide && 0 <= dy < p.sub_blocks_high implies {
            let dst = spec_destination_offset(p, blocks_wide, dx, dy);
            let src = p.data_start_offset + 8 * p.sub_blocks_wide * p.sub_blocks_high
                * spec_patch_style(p, style) + 8 * (p.sub_blocks_wide * dy + dx);
            out.subrange(dst, dst + 8) == data.subrange(src, src + 8)
        } by {
        let dst = spec_destination_offset(p, blocks_wide, dx, dy);
        let src = spec_source_offset(p, style, dx, dy);
        lemma_source_in_page(p, style, blocks_wide, data.len() as int, img.len() as int, dx, dy);
        assert(8 * p.sub_blocks_wide * p.sub_blocks_high * spec_patch_style(p, style) == spec_page_size(p)
            * spec_patch_style(p, style));
        assert forall|j: int| 0 <= j < 8 implies #[trigger] out.subrange(dst, dst + 8)[j] == data.subrange(
            src,
            src + 8,
        )[j] by {
            lemma_copy_patch_bytes(img, p, style, blocks_wide, data, n, dst + j);
        }
        assert(out.subrange(dst, dst + 8) =~= data.subrange(src, src + 8));
    }
    assert forall|k: int|
        0 <= k < img.len() && (forall|dx: int, dy: int|
            0 <= dx < p.sub_blocks_wide && 0 <= dy < p.sub_blocks_high ==> !(
            #[trigger] spec_destination_offset(p, blocks_wide, dx, dy) <= k
                < spec_destination_offset(p, blocks_wide, dx, dy) + 8))
        implies #[trigger] out[k] == img[k] by {
        lemma_copy_patch_bytes(img, p, style, blocks_wide, data, n, k);
    }
}

/// An empty image stays empty.
proof fn lemma_copy_patch_len_empty(
    img: Seq<u8>,
    p: LightmapPatchTableEntry,
    style: int,
    bw: int,
    data: Seq<u8>,
    n: nat,
)
    requires
        spec_patch_placed(p, style, bw, data.len() as int, img.len() as int),
        n <= p.sub_blocks_wide,
        img.len() == 0,
    ensures
        spec_copy_patch(img, p, style, bw, data, n).len() == 0,
    decreases n,
{
    if n > 0 {
        lemma_copy_patch_len_empty(img, p, style, bw, data, (n - 1) as nat);
        if p.sub_blocks_high > 0 {
            lemma_source_in_page(p, style, bw, data.len() as int, img.len() as int, 0, 0);
        }
        lemma_copy_column_len(
            spec_copy_patch(img, p, style, bw, data, (n - 1) as nat),
            p,
            style,
            bw,
            data,
            n - 1,
            p.sub_blocks_high as nat,
        );
    }
}

} // verus!
