//! Per-cluster geometry: a table of byte code ranges and the byte code that draws display lists
//! and sets render state.
use vstd::prelude::*;
use vstd::slice::slice_subrange;

use crate::bytes::{spec_u32_be, u32_be_at};

verus! {

/// The range of byte code words that draws one cluster.
#[derive(Clone, Copy, Debug, PartialEq, Eq, Structural)]
pub struct ClusterGeometry {
    byte_code_start_index: usize,
    byte_code_end_index: usize,
}

impl ClusterGeometry {
    /// The first word of the cluster's byte code.
    pub closed spec fn spec_start(&self) -> nat {
        self.byte_code_start_index as nat
    }

    /// The word after the last one of the cluster's byte code.
    pub closed spec fn spec_end(&self) -> nat {
        self.byte_code_end_index as nat
    }

    /// Creates an entry for the words `start..end`.
    pub fn new(start: usize, end: usize) -> (r: Self)
        ensures
            r.spec_start() == start,
            r.spec_end() == end,
    {
        ClusterGeometry { byte_code_start_index: start, byte_code_end_index: end }
    }

    /// A reader over the cluster's byte code within `byte_code`.
    pub fn iter_display_lists<'a>(&self, byte_code: &'a [u32]) -> (r: ByteCodeReader<'a>)
        requires
            self.spec_start() <= self.spec_end() <= byte_code@.len(),
        ensures
            r@ == byte_code@.subrange(self.spec_start() as int, self.spec_end() as int),
    {
        ByteCodeReader(
            slice_subrange(byte_code, self.byte_code_start_index, self.byte_code_end_index),
        )
    }
}

/// Reads the cluster geometry table: pairs of big-endian 32-bit word indices.
pub fn cluster_geometry_table(data: &[u8]) -> (r: Vec<ClusterGeometry>)
    requires
        data@.len() % 8 == 0,
    ensures
        r@.len() == data@.len() / 8,
        forall|i: int|
            0 <= i < r@.len() ==> #[trigger] r@[i].spec_start() == spec_u32_be(data@, 8 * i)
                && r@[i].spec_end() == spec_u32_be(data@, 8 * i + 4),
{
    let n = data.len() / 8;
    let mut out: Vec<ClusterGeometry> = Vec::new();
    let mut i: usize = 0;
    while i < n
        invariant
            n == data@.len() / 8,
            data@.len() % 8 == 0,
            i <= n,
            out@.len() == i,
            forall|j: int|
                0 <= j < i ==> #[trigger] out@[j].spec_start() == spec_u32_be(data@, 8 * j)
                    && out@[j].spec_end() == spec_u32_be(data@, 8 * j + 4),
        decreases n - i,
    {
        let len = data.len();
        assert(8 * i + 8 <= len) by (nonlinear_arith)
            requires
                i < n,
                n == len / 8,
                len % 8 == 0,
        ;
        let start = u32_be_at(data, 8 * i) as usize;
        let end = u32_be_at(data, 8 * i + 4) as usize;
        out.push(ClusterGeometry::new(start, end));
        i = i + 1;
    }
    out
}

/// Reads the byte code: big-endian 32-bit words.
pub fn cluster_geometry_byte_code(data: &[u8]) -> (r: Vec<u32>)
    requires
        data@.len() % 4 == 0,
    ensures
        r@.len() == data@.len() / 4,
        forall|i: int| 0 <= i < r@.len() ==> #[trigger] r@[i] == spec_u32_be(data@, 4 * i),
{
    let n = data.len() / 4;
    let mut out: Vec<u32> = Vec::new();
    let mut i: usize = 0;
    while i < n
        invariant
            n == data@.len() / 4,
            data@.len() % 4 == 0,
            i <= n,
            out@.len() == i,
            forall|j: int| 0 <= j < i ==> #[trigger] out@[j] == spec_u32_be(data@, 4 * j),
        decreases n - i,
    {
        let len = data.len();
        assert(4 * i + 4 <= len) by (nonlinear_arith)
            requires
                i < n,
                n == len / 4,
                len % 4 == 0,
        ;
        out.push(u32_be_at(data, 4 * i));
        i = i + 1;
    }
    out
}

/// The geometry of cluster `cluster`.
pub fn get_cluster_geometry(table: &[ClusterGeometry], cluster: u16) -> (r: &ClusterGeometry)
    requires
        (cluster as nat) < table@.len(),
    ensures
        *r == table@[cluster as int],
{
    &table[cluster as usize]
}

/// One instruction of the cluster byte code.
#[derive(Clone, Copy, Debug)]
pub enum ByteCodeEntry {
    /// Draw the display list at these byte offsets of the display list data.
    Draw { start_offset: usize, end_offset: usize },
    /// Load a 3x4 texture matrix, given as the bit patterns of its twelve `f32` elements in row
    /// order.
    SetPlane { texture_matrix: [u32; 12] },
    /// Bind a base texture.
    SetBaseTexture { base_texture_index: u16 },
    /// Bind an environment map texture.
    SetEnvMapTexture { env_map_texture_index: u16 },
    /// Set the environment map tint.
    SetEnvMapTint { r: u8, g: u8, b: u8 },
    /// Set the drawing mode.
    SetMode { mode: u8 },
}

/// The opcode of an instruction: the top byte of its first word.
pub open spec fn spec_op(w: u32) -> u32 {
    w >> 24
}

/// Whether decoding the next instruction of `words` fails: an unknown opcode, or an instruction
/// cut short by the end of the byte code.
pub open spec fn spec_next_fails(words: Seq<u32>) -> bool {
    words.len() > 0 && {
        let op = spec_op(words[0]);
        ||| !(op == 0 || op == 1 || op == 2 || op == 3 || op == 4 || op == 0xff)
        ||| (op == 0 && words.len() < 2)
        ||| (op == 1 && words.len() < 13)
    }
}

/// The number of words the next instruction takes.
pub open spec fn spec_entry_len(words: Seq<u32>) -> nat {
    let op = spec_op(words[0]);
    if op == 0 {
        2
    } else if op == 1 {
        13
    } else {
        1
    }
}

/// The next instruction of `words`, if there is one.
pub open spec fn spec_next_entry(words: Seq<u32>) -> Option<ByteCodeEntry> {
    if words.len() == 0 {
        None
    } else {
        let w = words[0];
        let op = spec_op(w);
        Some(
            if op == 0 {
                ByteCodeEntry::Draw {
                    start_offset: (w & 0x00ff_ffff) as usize,
                    end_offset: words[1] as usize,
                }
            } else if op == 1 {
                ByteCodeEntry::SetPlane {
                    texture_matrix: [
                        words[1],
                        words[2],
                        words[3],
                        words[4],
                        words[5],
                        words[6],
                        words[7],
                        words[8],
                        words[9],
                        words[10],
                        words[11],
                        words[12],
                    ],
                }
            } else if op == 2 {
                ByteCodeEntry::SetBaseTexture { base_texture_index: w as u16 }
            } else if op == 3 {
                ByteCodeEntry::SetEnvMapTexture { env_map_texture_index: w as u16 }
            } else if op == 4 {
                ByteCodeEntry::SetEnvMapTint { r: (w >> 16) as u8, g: (w >> 8) as u8, b: w as u8 }
            } else {
                ByteCodeEntry::SetMode { mode: w as u8 }
            },
        )
    }
}

/// A reader over cluster byte code.
pub struct ByteCodeReader<'a>(&'a [u32]);

impl<'a> View for ByteCodeReader<'a> {
    type V = Seq<u32>;

    closed spec fn view(&self) -> Seq<u32> {
        self.0@
    }
}

impl<'a> ByteCodeReader<'a> {
    /// A reader over `words`.
    pub fn new(words: &'a [u32]) -> (r: Self)
        ensures
            r@ == words@,
    {
        ByteCodeReader(words)
    }

    /// Whether the next instruction can be decoded.
    pub fn next_is_valid(&self) -> (r: bool)
        ensures
            r == !spec_next_fails(self@),
    {
        let words = self.0;
        if words.len() == 0 {
            return true;
        }
        let op = words[0] >> 24;
        if op == 0 {
            words.len() >= 2
        } else if op == 1 {
            words.len() >= 13
        } else {
            op == 2 || op == 3 || op == 4 || op == 0xff
        }
    }

    /// Decodes the next instruction and moves past it.
    pub fn next(&mut self) -> (r: Option<ByteCodeEntry>)
        requires
            !spec_next_fails(old(self)@),
        ensures
            r == spec_next_entry(old(self)@),
            r is None ==> final(self)@ == old(self)@,
            r is Some ==> final(self)@ == old(self)@.subrange(
                spec_entry_len(old(self)@) as int,
                old(self)@.len() as int,
            ),
    {
        let words = self.0;
        if words.len() == 0 {
            return None;
        }
        let w = words[0];
        let op = w >> 24;
        let n = words.len();
        if op == 0 {
            let start_offset = (w & 0x00ff_ffff) as usize;
            let end_offset = words[1] as usize;
            self.0 = slice_subrange(words, 2, n);
            Some(ByteCodeEntry::Draw { start_offset, end_offset })
        } else if op == 1 {
            let texture_matrix: [u32; 12] = [
                words[1],
                words[2],
                words[3],
                words[4],
                words[5],
                words[6],
                words[7],
                words[8],
                words[9],
                words[10],
                words[11],
                words[12],
            ];
            self.0 = slice_subrange(words, 13, n);
            Some(ByteCodeEntry::SetPlane { texture_matrix })
        } else if op == 2 {
            self.0 = slice_subrange(words, 1, n);
            Some(ByteCodeEntry::SetBaseTexture { base_texture_index: w as u16 })
        } else if op == 3 {
            self.0 = slice_subrange(words, 1, n);
            Some(ByteCodeEntry::SetEnvMapTexture { env_map_texture_index: w as u16 })
        } else if op == 4 {
            let r = (w >> 16) as u8;
            let g = (w >> 8) as u8;
            let b = w as u8;
            self.0 = slice_subrange(words, 1, n);
            Some(ByteCodeEntry::SetEnvMapTint { r, g, b })
        } else {
            self.0 = slice_subrange(words, 1, n);
            Some(ByteCodeEntry::SetMode { mode: w as u8 })
        }
    }
}

} // verus!
