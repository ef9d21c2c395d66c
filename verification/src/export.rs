//! The files that the map converter writes for the console viewer: the index of the per-cluster
//! display lists, the visibility index, and the triangles of each face.
use byteorder::{BigEndian, WriteBytesExt};
use vstd::prelude::*;

verus! {

/// The big-endian bytes of `n`.
pub open spec fn spec_be_bytes(n: u32) -> Seq<u8> {
    seq![
        (n / 0x100_0000) as u8,
        ((n / 0x1_0000) % 0x100) as u8,
        ((n / 0x100) % 0x100) as u8,
        (n % 0x100) as u8,
    ]
}

/// `byteorder::WriteBytesExt::write_u32::<BigEndian>` on a `Vec<u8>`: appends the four
/// big-endian bytes of `n`. Writing to a vector only appends and does not fail.
#[verifier::external_body]
fn push_u32_be(v: &mut Vec<u8>, n: u32)
    ensures
        final(v)@ == old(v)@ + spec_be_bytes(n),
{
    v.write_u32::<BigEndian>(n).unwrap()
}

/// Size in bytes of one entry of the display list index: offset and length.
pub const DISPLAY_LIST_INDEX_ENTRY_SIZE: usize = 8;

/// The first display list's offset: just past the index, rounded up to 32 bytes.
pub open spec fn spec_first_display_list_offset(count: nat) -> nat {
    ((8 * count + 31) / 32 * 32) as nat
}

/// The sum of the first `n` lengths.
pub open spec fn spec_sum(lens: Seq<u32>, n: int) -> int
    decreases n,
{
    if n <= 0 {
        0
    } else {
        spec_sum(lens, n - 1) + lens[n - 1]
    }
}

/// The entries of the display list index for the first `n` lists: each list's offset, or 0
/// when it is empty, then its length; the lists follow each other from `first`.
pub open spec fn spec_display_list_entries(lens: Seq<u32>, first: nat, n: int) -> Seq<u8>
    decreases n,
{
    if n <= 0 {
        Seq::empty()
    } else {
        let len = lens[n - 1];
        let offset = (first + spec_sum(lens, n - 1)) as u32;
        spec_display_list_entries(lens, first, n - 1) + spec_be_bytes(
            if len > 0 { offset } else { 0 },
        ) + spec_be_bytes(len)
    }
}

/// The display list index for lists of lengths `lens`, padded with zeros to a multiple of 32
/// bytes.
pub open spec fn spec_display_list_index(lens: Seq<u32>) -> Seq<u8> {
    let entries = spec_display_list_entries(
        lens,
        spec_first_display_list_offset(lens.len()),
        lens.len() as int,
    );
    entries + Seq::new(((32 - entries.len() % 32) % 32) as nat, |i: int| 0u8)
}

/// The sums of lengths grow with the number of lengths.
pub proof fn lemma_sum_monotone(lens: Seq<u32>, i: int, j: int)
    requires
        0 <= i <= j <= lens.len(),
    ensures
        spec_sum(lens, i) <= spec_sum(lens, j),
    decreases j - i,
{
    if i < j {
        lemma_sum_monotone(lens, i, j - 1);
    }
}

/// The index has one 8-byte entry per list.
pub proof fn lemma_display_list_entries_len(lens: Seq<u32>, first: nat, n: int)
    requires
        0 <= n <= lens.len(),
    ensures
        spec_display_list_entries(lens, first, n).len() == 8 * n,
    decreases n,
{
    if n > 0 {
        lemma_display_list_entries_len(lens, first, n - 1);
    }
}

/// Builds the index of the display lists of lengths `lens`, which the lists follow.
pub fn display_list_index(lens: &[u32]) -> (r: Vec<u8>)
    requires
        spec_first_display_list_offset(lens@.len()) + spec_sum(lens@, lens@.len() as int)
            <= u32::MAX,
    ensures
        r@ == spec_display_list_index(lens@),
        r@.len() % 32 == 0,
{
    let n = lens.len();
    proof {
        lemma_sum_monotone(lens@, 0, n as int);
    }
    let first = (8 * n as u64 + 31) / 32 * 32;
    let first = first as u32;
    let mut offset: u32 = first;
    let mut index: Vec<u8> = Vec::new();
    let mut i: usize = 0;
    while i < n
        invariant
            n == lens@.len(),
            i <= n,
            first == spec_first_display_list_offset(n as nat),
            first + spec_sum(lens@, n as int) <= u32::MAX,
            offset == first + spec_sum(lens@, i as int),
            index@ == spec_display_list_entries(lens@, first as nat, i as int),
        decreases n - i,
    {
        proof {
            lemma_sum_monotone(lens@, i + 1, n as int);
        }
        let len = lens[i];
        push_u32_be(&mut index, if len > 0 { offset } else { 0 });
        push_u32_be(&mut index, len);
        offset = offset + len;
        i = i + 1;
    }
    proof {
        lemma_display_list_entries_len(lens@, first as nat, n as int);
    }
    let ghost entries = index@;
    while index.len() % 32 != 0
        invariant
            entries.len() == 8 * n,
            index@.len() >= entries.len(),
            index@.len() <= entries.len() + 32,
            index@.subrange(0, entries.len() as int) == entries,
            forall|k: int| entries.len() <= k < index@.len() ==> index@[k] == 0,
            index@.len() - entries.len() <= (32 - entries.len() % 32) % 32,
        decreases 32 - (index@.len() - entries.len()),
    {
        index.push(0);
    }
    assert(index@ =~= spec_display_list_index(lens@));
    index
}

/// The visibility index for chunks of lengths `lens`: the count, then each chunk's offset,
/// the chunks following the index.
pub open spec fn spec_vis_offsets(lens: Seq<u32>, n: int) -> Seq<u8>
    decreases n,
{
    if n <= 0 {
        Seq::empty()
    } else {
        spec_vis_offsets(lens, n - 1) + spec_be_bytes(
            (4 * lens.len() + 4 + spec_sum(lens, n - 1)) as u32,
        )
    }
}

/// The visibility index: the chunk count, then the offsets.
pub open spec fn spec_vis_index(lens: Seq<u32>) -> Seq<u8> {
    spec_be_bytes(lens.len() as u32) + spec_vis_offsets(lens, lens.len() as int)
}

/// Builds the visibility index for chunks of lengths `lens`.
pub fn vis_index(lens: &[u32]) -> (r: Vec<u8>)
    requires
        4 * lens@.len() + 4 + spec_sum(lens@, lens@.len() as int) <= u32::MAX,
    ensures
        r@ == spec_vis_index(lens@),
{
    let n = lens.len();
    proof {
        lemma_sum_monotone(lens@, 0, n as int);
    }
    let mut index: Vec<u8> = Vec::new();
    push_u32_be(&mut index, n as u32);
    let ghost head = index@;
    let mut offset: u32 = 4 * n as u32 + 4;
    let mut i: usize = 0;
    while i < n
        invariant
            n == lens@.len(),
            i <= n,
            4 * n + 4 + spec_sum(lens@, n as int) <= u32::MAX,
            offset == 4 * n + 4 + spec_sum(lens@, i as int),
            index@ == head + spec_vis_offsets(lens@, i as int),
        decreases n - i,
    {
        proof {
            lemma_sum_monotone(lens@, i + 1, n as int);
        }
        push_u32_be(&mut index, offset);
        offset = offset + lens[i];
        i = i + 1;
    }
    index
}

/// The triangles of a face whose vertices are `v` in order: for each vertex after the first,
/// the first vertex, the one before it and itself. The first triangle repeats the first vertex.
pub open spec fn spec_fan(v: Seq<u16>) -> Seq<u16>
    decreases v.len(),
{
    if v.len() <= 1 {
        Seq::empty()
    } else {
        let k = v.len() - 1;
        spec_fan(v.drop_last()) + seq![v[0], v[k - 1], v[k]]
    }
}

/// Lists the triangles of a face whose vertices are `v` in order.
pub fn fan_triangles(v: &[u16]) -> (r: Vec<u16>)
    ensures
        r@ == spec_fan(v@),
{
    let n = v.len();
    let mut out: Vec<u16> = Vec::new();
    let mut i: usize = 1;
    if n <= 1 {
        assert(v@.len() <= 1);
        return out;
    }
    assert(spec_fan(v@.subrange(0, 1)) == Seq::<u16>::empty());
    while i < n
        invariant
            n == v@.len(),
            1 <= i <= n,
            out@ == spec_fan(v@.subrange(0, i as int)),
        decreases n - i,
    {
        out.push(v[0]);
        out.push(v[i - 1]);
        out.push(v[i]);
        assert(v@.subrange(0, i + 1).drop_last() =~= v@.subrange(0, i as int));
        i = i + 1;
    }
    assert(v@.subrange(0, n as int) =~= v@);
    out
}

/// A face of `n` vertices has `3 * (n - 1)` triangle indices, and every index is one of its
/// vertices.
pub proof fn lemma_fan_shape(v: Seq<u16>)
    ensures
        spec_fan(v).len() == if v.len() <= 1 { 0 } else { 3 * (v.len() - 1) },
        forall|j: int| 0 <= j < spec_fan(v).len() ==> v.contains(#[trigger] spec_fan(v)[j]),
    decreases v.len(),
{
    if v.len() > 1 {
        let w = v.drop_last();
        lemma_fan_shape(w);
        let k = v.len() - 1;
        assert forall|j: int| 0 <= j < spec_fan(v).len() implies v.contains(#[trigger] spec_fan(v)[j]) by {
            if j < spec_fan(w).len() {
                assert(spec_fan(v)[j] == spec_fan(w)[j]);
                let x = spec_fan(w)[j];
                assert(w.contains(x));
                let m = choose|m: int| 0 <= m < w.len() && w[m] == x;
                assert(v[m] == x);
            } else if j == spec_fan(w).len() {
                assert(v[0] == spec_fan(v)[j]);
            } else if j == spec_fan(w).len() + 1 {
                assert(v[k - 1] == spec_fan(v)[j]);
            } else {
                assert(v[k] == spec_fan(v)[j]);
            }
        }
    }
}

} // verus!
