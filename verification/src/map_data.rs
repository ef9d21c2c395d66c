//! The tables of a converted map: cluster geometry, the BSP tree, textures, lightmaps and
//! displacements, and the fix-ups applied to its display lists once it is in memory.
use vstd::prelude::*;
use vstd::slice::slice_subrange;

use crate::display_list_data::ByteCodeReader;

verus! {

/// 32 bytes that are stored 32-byte aligned, the unit of texture data and display lists.
#[derive(Clone, Copy)]
pub struct Align32Bytes(pub [u8; 32]);

/// Number of render passes that each cluster has byte code for.
pub const PASS_COUNT: usize = 18;

/// The byte code ranges that draw one cluster, one range per render pass.
#[derive(Clone, Copy)]
pub struct ClusterGeometry {
    pub byte_code_index_ranges: [[usize; 2]; 18],
}

impl ClusterGeometry {
    /// A reader over the cluster's byte code for render pass `pass` within `byte_code`.
    pub fn iter_display_lists<'a>(&self, byte_code: &'a [u32], pass: usize) -> (r: ByteCodeReader<
        'a,
    >)
        requires
            pass < PASS_COUNT,
            self.byte_code_index_ranges[pass as int][0] <= self.byte_code_index_ranges[pass as int][1]
                <= byte_code@.len(),
        ensures
            r@ == byte_code@.subrange(
                self.byte_code_index_ranges[pass as int][0] as int,
                self.byte_code_index_ranges[pass as int][1] as int,
            ),
    {
        let range = self.byte_code_index_ranges[pass];
        ByteCodeReader::new(slice_subrange(byte_code, range[0], range[1]))
    }
}

/// A node of the BSP tree: its splitting plane (as the bit patterns of four `f32`: normal and
/// distance) and its two children. A negative child `c` is the leaf `-c - 1`.
#[derive(Clone, Copy, Debug)]
pub struct BspNode {
    pub plane_bits: [u32; 4],
    pub children: [i32; 2],
}

/// A leaf of the BSP tree: its visibility cluster, negative for none.
#[derive(Clone, Copy, Debug, PartialEq, Eq, Structural)]
pub struct BspLeaf {
    pub cluster: i16,
}

/// Where one step down the BSP tree leads.
#[derive(Clone, Copy, Debug, PartialEq, Eq, Structural)]
pub enum BspStep {
    /// To the node with this index.
    Node(usize),
    /// To the leaf with this index.
    Leaf(usize),
}

/// The child of `node` on the given side of its plane: the first child in front of it, the
/// second behind.
pub open spec fn spec_bsp_step(node: BspNode, in_front: bool) -> BspStep {
    let child = node.children[if in_front { 0 } else { 1 }] as int;
    if child < 0 {
        BspStep::Leaf((-child - 1) as usize)
    } else {
        BspStep::Node(child as usize)
    }
}

impl BspNode {
    /// The child on the given side of the plane; the caller compares the position with the plane.
    pub fn step(&self, in_front: bool) -> (r: BspStep)
        ensures
            r == spec_bsp_step(*self, in_front),
    {
        let child = self.children[if in_front { 0 } else { 1 }];
        if child < 0 {
            BspStep::Leaf((-(child + 1)) as usize)
        } else {
            BspStep::Node(child as usize)
        }
    }
}

/// Clamp the texture coordinate to the edge instead of repeating in S.
pub const TEXTURE_FLAG_CLAMP_S: u8 = 0x01;

/// Clamp the texture coordinate to the edge instead of repeating in T.
pub const TEXTURE_FLAG_CLAMP_T: u8 = 0x02;

/// A texture of the map.
#[derive(Clone, Copy, Debug, PartialEq, Eq, Structural)]
pub struct TextureTableEntry {
    pub width: u16,
    pub height: u16,
    pub mip_count: u8,
    pub flags: u8,
    /// One of the hardware texture formats.
    pub format: u8,
    pub _padding: u8,
    pub start_index: usize,
    pub end_index: usize,
}

/// Texture coordinate wrap modes and filters of the hardware.
pub const GX_CLAMP: u8 = 0;
pub const GX_REPEAT: u8 = 1;
pub const GX_LINEAR: u8 = 1;
pub const GX_LIN_MIP_LIN: u8 = 5;

/// How a texture is sampled.
#[derive(Clone, Copy, Debug, PartialEq, Eq, Structural)]
pub struct TextureSampling {
    pub wrap_s: u8,
    pub wrap_t: u8,
    pub mipmap: bool,
    pub min_filter: u8,
    pub mag_filter: u8,
    /// The coarsest mipmap level used.
    pub max_lod: u8,
}

impl TextureTableEntry {
    /// How the texture is sampled: clamped in a direction whose flag is set and repeated
    /// otherwise, and filtered trilinearly when it has mipmaps.
    pub fn sampling(&self) -> (r: TextureSampling)
        requires
            self.mip_count >= 1,
        ensures
            r.wrap_s == if self.flags & TEXTURE_FLAG_CLAMP_S != 0 { GX_CLAMP } else { GX_REPEAT },
            r.wrap_t == if self.flags & TEXTURE_FLAG_CLAMP_T != 0 { GX_CLAMP } else { GX_REPEAT },
            r.mipmap == (self.mip_count > 1),
            r.min_filter == if self.mip_count > 1 { GX_LIN_MIP_LIN } else { GX_LINEAR },
            r.mag_filter == GX_LINEAR,
            r.max_lod == self.mip_count - 1,
    {
        TextureSampling {
            wrap_s: if self.flags & TEXTURE_FLAG_CLAMP_S != 0 { GX_CLAMP } else { GX_REPEAT },
            wrap_t: if self.flags & TEXTURE_FLAG_CLAMP_T != 0 { GX_CLAMP } else { GX_REPEAT },
            mipmap: self.mip_count > 1,
            min_filter: if self.mip_count > 1 { GX_LIN_MIP_LIN } else { GX_LINEAR },
            mag_filter: GX_LINEAR,
            max_lod: self.mip_count - 1,
        }
    }
}

/// The lightmap of a cluster: its size in luxels and its patches in the patch table.
#[derive(Clone, Copy, Debug, PartialEq, Eq, Structural)]
pub struct LightmapClusterTableEntry {
    pub width: u16,
    pub height: u16,
    pub patch_table_start_index: usize,
    pub patch_table_end_index: usize,
}

/// A rectangle of 4x4-luxel sub-blocks of a lightmap, with one page of compressed data per
/// light style.
#[derive(Clone, Copy, Debug, PartialEq, Eq, Structural)]
pub struct LightmapPatchTableEntry {
    pub sub_block_x: u8,
    pub sub_block_y: u8,
    pub sub_blocks_wide: u8,
    pub sub_blocks_high: u8,
    pub style_count: u8,
    pub _padding1: u8,
    pub _padding2: u16,
    pub data_start_offset: usize,
    pub data_end_offset: usize,
}

/// The byte code range that draws one displacement.
#[derive(Clone, Copy, Debug, PartialEq, Eq, Structural)]
pub struct DisplacementTableEntry {
    pub byte_code_start_index: usize,
    pub byte_code_end_index: usize,
}

/// A place in a display list that names a texture by its image address: the byte offset of the
/// command word and the texture it names.
#[derive(Clone, Copy, Debug, PartialEq, Eq, Structural)]
pub struct TextureReference {
    pub display_list_offset: u32,
    pub texture_id: u16,
}

/// The big-endian word at `off` in `s`.
pub open spec fn spec_word(s: Seq<u8>, off: int) -> u32 {
    crate::bytes::spec_u32_be(s, off)
}

/// `s` with the big-endian word `w` at `off`.
pub open spec fn spec_with_word(s: Seq<u8>, off: int, w: u32) -> Seq<u8> {
    s.update(off, (w / 0x100_0000) as u8).update(off + 1, ((w / 0x1_0000) % 0x100) as u8).update(
        off + 2,
        ((w / 0x100) % 0x100) as u8,
    ).update(off + 3, (w % 0x100) as u8)
}

/// The image address field of a texture command: the address of the image in 32-byte units,
/// in the low 24 bits, below the command's register byte.
pub open spec fn spec_relocated_word(old: u32, image_address: u32) -> u32 {
    (old & 0xff00_0000) | ((image_address >> 5) & 0x00ff_ffff)
}

/// The address of texture `id`'s image, with the texture data at `base`.
pub open spec fn spec_image_address(base: u32, starts: Seq<u32>, id: u16) -> u32 {
    ((base as int + starts[id as int] as int) % 0x1_0000_0000) as u32
}

/// Whether every reference names a whole word of the display lists and a texture of the table.
pub open spec fn spec_references_valid(len: nat, refs: Seq<TextureReference>, texture_count: nat) -> bool {
    forall|i: int|
        0 <= i < refs.len() ==> #[trigger] refs[i].display_list_offset + 4 <= len
            && refs[i].texture_id < texture_count
}

/// The display lists after the first `n` references are fixed up, in order.
pub open spec fn spec_relocate(
    dl: Seq<u8>,
    refs: Seq<TextureReference>,
    starts: Seq<u32>,
    base: u32,
    n: nat,
) -> Seq<u8>
    decreases n,
{
    if n == 0 {
        dl
    } else {
        let prev = spec_relocate(dl, refs, starts, base, (n - 1) as nat);
        let r = refs[n - 1];
        let off = r.display_list_offset as int;
        spec_with_word(
            prev,
            off,
            spec_relocated_word(spec_word(prev, off), spec_image_address(base, starts, r.texture_id)),
        )
    }
}

/// Fixing up a reference changes only its four bytes.
pub proof fn lemma_relocate_len(
    dl: Seq<u8>,
    refs: Seq<TextureReference>,
    starts: Seq<u32>,
    base: u32,
    n: nat,
)
    requires
        n <= refs.len(),
        spec_references_valid(dl.len(), refs, starts.len()),
    ensures
        spec_relocate(dl, refs, starts, base, n).len() == dl.len(),
    decreases n,
{
    if n > 0 {
        lemma_relocate_len(dl, refs, starts, base, (n - 1) as nat);
    }
}

/// Writes the big-endian word `w` at `off`.
fn write_word_be(s: &mut Vec<u8>, off: usize, w: u32)
    requires
        off + 4 <= old(s)@.len(),
    ensures
        final(s)@ == spec_with_word(old(s)@, off as int, w),
{
    let _n = s.len();
    s.set(off, (w / 0x100_0000) as u8);
    s.set(off + 1, ((w / 0x1_0000) % 0x100) as u8);
    s.set(off + 2, ((w / 0x100) % 0x100) as u8);
    s.set(off + 3, (w % 0x100) as u8);
}

/// Points each reference's texture command at its image: the texture data is at address
/// `texture_base` and texture `i`'s image starts `starts[i]` bytes into it. The command's top
/// byte is kept and the rest becomes the image address in 32-byte units.
pub fn relocate_references(
    display_lists: &mut Vec<u8>,
    references: &[TextureReference],
    starts: &[u32],
    texture_base: u32,
)
    requires
        spec_references_valid(old(display_lists)@.len(), references@, starts@.len()),
    ensures
        final(display_lists)@ == spec_relocate(
            old(display_lists)@,
            references@,
            starts@,
            texture_base,
            references@.len(),
        ),
{
    let ghost dl0 = display_lists@;
    let n = references.len();
    let mut i: usize = 0;
    while i < n
        invariant
            n == references@.len(),
            i <= n,
            spec_references_valid(dl0.len(), references@, starts@.len()),
            display_lists@ == spec_relocate(dl0, references@, starts@, texture_base, i as nat),
            display_lists@.len() == dl0.len(),
        decreases n - i,
    {
        let r = references[i];
        let off = r.display_list_offset as usize;
        assert(references@[i as int] == r);
        let old_word = crate::bytes::u32_be_at(display_lists.as_slice(), off);
        let image = texture_base.wrapping_add(starts[r.texture_id as usize]);
        let new_word = (old_word & 0xff00_0000) | ((image >> 5u32) & 0x00ff_ffff);
        write_word_be(display_lists, off, new_word);
        i = i + 1;
    }
}

/// Byte `k` (1 to 3) of the image address field that a reference to the image at `image_address`
/// writes into its command word, counted from the word's top byte.
pub open spec fn spec_image_byte(image_address: u32, k: int) -> u8 {
    let a = (image_address >> 5) & 0x00ff_ffff;
    if k == 1 {
        ((a / 0x1_0000) % 0x100) as u8
    } else if k == 2 {
        ((a / 0x100) % 0x100) as u8
    } else {
        (a % 0x100) as u8
    }
}

/// The last of the first `n` references whose image address field covers byte `b`.
pub open spec fn spec_last_writer(refs: Seq<TextureReference>, n: nat, b: int) -> Option<int>
    decreases n,
{
    if n == 0 {
        None
    } else {
        let off = refs[n - 1].display_list_offset as int;
        if off < b < off + 4 {
            Some(n - 1)
        } else {
            spec_last_writer(refs, (n - 1) as nat, b)
        }
    }
}

/// Byte `b` after the first `n` references are fixed up: the image address byte of the last
/// reference covering it, or the byte as it was. A command's top byte is never changed.
pub open spec fn spec_relocated_byte(
    dl: Seq<u8>,
    refs: Seq<TextureReference>,
    starts: Seq<u32>,
    base: u32,
    n: nat,
    b: int,
) -> u8 {
    match spec_last_writer(refs, n, b) {
        Some(i) => spec_image_byte(
            spec_image_address(base, starts, refs[i].texture_id),
            b - refs[i].display_list_offset as int,
        ),
        None => dl[b],
    }
}

/// Rewriting a command word keeps its top byte and sets its other bytes from the image address.
proof fn lemma_rewrite_bytes(s: Seq<u8>, off: int, image_address: u32)
    requires
        0 <= off,
        off + 4 <= s.len(),
    ensures
        ({
            let w = spec_relocated_word(spec_word(s, off), image_address);
            &&& (w / 0x100_0000) as u8 == s[off]
            &&& ((w / 0x1_0000) % 0x100) as u8 == spec_image_byte(image_address, 1)
            &&& ((w / 0x100) % 0x100) as u8 == spec_image_byte(image_address, 2)
            &&& (w % 0x100) as u8 == spec_image_byte(image_address, 3)
        }),
{
    let s0 = s[off] as int;
    let rest = 0x1_0000 * (s[off + 1] as int) + 0x100 * (s[off + 2] as int) + s[off + 3] as int;
    let old = spec_word(s, off);
    assert(old == 0x100_0000 * s0 + rest);
    assert(old / 0x100_0000 == s0) by (nonlinear_arith)
        requires
            old == 0x100_0000 * s0 + rest,
            0 <= rest < 0x100_0000,
    ;
    let a = (image_address >> 5) & 0x00ff_ffff;
    let w = spec_relocated_word(old, image_address);
    assert(w == (old & 0xff00_0000) | a);
    assert(((old & 0xff00_0000) | a) / 0x100_0000 == old / 0x100_0000) by (bit_vector)
        requires
            a == (image_address >> 5) & 0x00ff_ffff,
    ;
    assert((((old & 0xff00_0000) | a) / 0x1_0000) % 0x100 == (a / 0x1_0000) % 0x100) by (bit_vector)
        requires
            a == (image_address >> 5) & 0x00ff_ffff,
    ;
    assert((((old & 0xff00_0000) | a) / 0x100) % 0x100 == (a / 0x100) % 0x100) by (bit_vector)
        requires
            a == (image_address >> 5) & 0x00ff_ffff,
    ;
    assert(((old & 0xff00_0000) | a) % 0x100 == a % 0x100) by (bit_vector)
        requires
            a == (image_address >> 5) & 0x00ff_ffff,
    ;
}

/// Each byte after relocation is the image address byte of the last reference covering it, or
/// the byte as it was.
proof fn lemma_relocate_bytes(
    dl: Seq<u8>,
    refs: Seq<TextureReference>,
    starts: Seq<u32>,
    base: u32,
    n: nat,
    b: int,
)
    requires
        n <= refs.len(),
        spec_references_valid(dl.len(), refs, starts.len()),
        0 <= b < dl.len(),
    ensures
        spec_relocate(dl, refs, starts, base, n)[b] == spec_relocated_byte(dl, refs, starts, base, n, b),
    decreases n,
{
    if n > 0 {
        lemma_relocate_bytes(dl, refs, starts, base, (n - 1) as nat, b);
        lemma_relocate_len(dl, refs, starts, base, (n - 1) as nat);
        let prev = spec_relocate(dl, refs, starts, base, (n - 1) as nat);
        let r = refs[n - 1];
        let off = r.display_list_offset as int;
        assert(off + 4 <= dl.len());
        lemma_rewrite_bytes(prev, off, spec_image_address(base, starts, r.texture_id));
    }
}

/// Fixing up the references is idempotent: fixing up display lists that were already fixed up,
/// with the same references and texture addresses, changes nothing.
pub proof fn lemma_relocate_idempotent(
    dl: Seq<u8>,
    refs: Seq<TextureReference>,
    starts: Seq<u32>,
    base: u32,
)
    requires
        spec_references_valid(dl.len(), refs, starts.len()),
    ensures
        spec_relocate(spec_relocate(dl, refs, starts, base, refs.len()), refs, starts, base, refs.len())
            == spec_relocate(dl, refs, starts, base, refs.len()),
{
    let once = spec_relocate(dl, refs, starts, base, refs.len());
    let twice = spec_relocate(once, refs, starts, base, refs.len());
    lemma_relocate_len(dl, refs, starts, base, refs.len());
    lemma_relocate_len(once, refs, starts, base, refs.len());
    assert forall|b: int| 0 <= b < once.len() implies twice[b] == once[b] by {
        lemma_relocate_bytes(dl, refs, starts, base, refs.len(), b);
        lemma_relocate_bytes(once, refs, starts, base, refs.len(), b);
    }
    assert(twice =~= once);
}

} // verus!
