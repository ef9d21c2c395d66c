//! ISO 9660 disc images with Rock Ridge names: volume descriptors, path table entries, directory
//! records, and the walk through directory sectors that lists a directory or finds a file.
//!
//! Reading sectors is left to the caller: a [`DirectoryWalk`] says which sector it needs next and
//! is handed the sector's bytes.
use vstd::prelude::*;
use vstd::slice::slice_subrange;
#[allow(unused_imports)]
use vstd::string::*;

use crate::bytes::{
    eq_ignore_ascii_case, spec_eq_ignore_ascii_case, spec_u16_be, spec_u32_be, str_from_utf8,
    u16_be_at, u32_be_at,
};

verus! {

/// Size of a sector.
pub const SECTOR_SIZE: usize = 2048;

/// Size of the fixed part of a directory record.
pub const DIRECTORY_ENTRY_SIZE: usize = 34;

/// Offset of the name in a directory record.
pub const NAME_OFFSET: usize = 33;

/// Size of the fixed part of a path table entry.
pub const PATH_TABLE_ENTRY_SIZE: usize = 8;

/// Largest size of a path table entry.
pub const PATH_TABLE_ENTRY_MAX_SIZE: usize = 256 + 8;

/// The first sector holding a volume descriptor.
pub const FIRST_VOLUME_DESCRIPTOR_SECTOR: usize = 16;

// ---------------------------------------------------------------------------------------------
// Path table entries.
// ---------------------------------------------------------------------------------------------

/// Length of the NUL-terminated string at the start of `s`, when `s` holds a NUL.
pub open spec fn spec_strlen(s: Seq<u8>) -> Option<nat>
    decreases s.len(),
{
    if s.len() == 0 {
        None
    } else if s[0] == 0 {
        Some(0)
    } else {
        match spec_strlen(s.drop_first()) {
            Some(n) => Some(n + 1),
            None => None,
        }
    }
}

/// A big-endian path table entry, read from the bytes that start at the entry.
pub struct BePathTableEntry<'a> {
    bytes: &'a [u8],
}

impl<'a> BePathTableEntry<'a> {
    #[verifier::type_invariant]
    closed spec fn inv(self) -> bool {
        self.bytes@.len() >= PATH_TABLE_ENTRY_SIZE
    }

    /// The bytes from the start of the entry to the end of the buffer it was read from.
    pub closed spec fn spec_data(self) -> Seq<u8> {
        self.bytes@
    }

    /// Reads the entry that starts at the beginning of `bytes`.
    pub fn new(bytes: &'a [u8]) -> (r: Self)
        requires
            bytes@.len() >= PATH_TABLE_ENTRY_SIZE,
        ensures
            r.spec_data() == bytes@,
    {
        BePathTableEntry { bytes }
    }

    /// The number of bytes the entry takes in the table: the eight-byte header and the name,
    /// padded to an even length.
    pub fn size(&self) -> (r: usize)
        ensures
            r == ((self.spec_data()[0] as nat + 1) / 2) * 2 + 8,
    {
        proof {
            use_type_invariant(self);
        }
        let name_len = self.bytes[0] as usize;
        ((name_len + 1) / 2) * 2 + 8
    }

    /// The first sector of the directory.
    pub fn extent(&self) -> (r: u32)
        ensures
            r == spec_u16_be(self.spec_data(), 2) as nat * 0x1_0000 + spec_u16_be(
                self.spec_data(),
                4,
            ) as nat,
    {
        proof {
            use_type_invariant(self);
        }
        let hi = u16_be_at(self.bytes, 2);
        let lo = u16_be_at(self.bytes, 4);
        (hi as u32) * 0x1_0000 + lo as u32
    }

    /// The index of the parent directory in the table.
    pub fn parent_index(&self) -> (r: u16)
        ensures
            r == spec_u16_be(self.spec_data(), 6),
    {
        proof {
            use_type_invariant(self);
        }
        u16_be_at(self.bytes, 6)
    }

    /// The name: the bytes after the header up to the first NUL byte.
    pub fn name_bytes(&self) -> (r: &'a [u8])
        requires
            spec_strlen(self.spec_data().subrange(8, self.spec_data().len() as int)) is Some,
        ensures
            r@ == self.spec_data().subrange(
                8,
                (8 + spec_strlen(self.spec_data().subrange(8, self.spec_data().len() as int))->0) as int,
            ),
    {
        proof {
            use_type_invariant(self);
        }
        let ghost tail = self.bytes@.subrange(8, self.bytes@.len() as int);
        let n = self.bytes.len();
        let mut i: usize = 8;
        while self.bytes[i] != 0
            invariant
                8 <= i < n,
                n == self.bytes@.len(),
                tail == self.bytes@.subrange(8, n as int),
                spec_strlen(tail) is Some,
                spec_strlen(tail)->0 + 8 >= i,
                spec_strlen(self.bytes@.subrange(i as int, n as int)) is Some,
                spec_strlen(tail)->0 == (i - 8) + spec_strlen(
                    self.bytes@.subrange(i as int, n as int),
                )->0,
            decreases n - i,
        {
            let ghost rest = self.bytes@.subrange(i as int, n as int);
            assert(rest.drop_first() =~= self.bytes@.subrange(i + 1, n as int));
            i = i + 1;
        }
        slice_subrange(self.bytes, 8, i)
    }

    /// The name as a string slice.
    pub fn name(&self) -> (r: &'a str)
        requires
            spec_strlen(self.spec_data().subrange(8, self.spec_data().len() as int)) is Some,
            vstd::utf8::valid_utf8(
                self.spec_data().subrange(
                    8,
                    (8 + spec_strlen(
                        self.spec_data().subrange(8, self.spec_data().len() as int),
                    )->0) as int,
                ),
            ),
        ensures
            r.spec_bytes() == self.spec_data().subrange(
                8,
                (8 + spec_strlen(self.spec_data().subrange(8, self.spec_data().len() as int))->0) as int,
            ),
    {
        let b = self.name_bytes();
        match str_from_utf8(b) {
            Some(s) => s,
            None => {
                assert(false);
                ""
            },
        }
    }
}

// ---------------------------------------------------------------------------------------------
// Directory records.
// ---------------------------------------------------------------------------------------------

/// Length of the record.
pub open spec fn spec_record_len(e: Seq<u8>) -> u8 {
    e[0]
}

/// File flags of the record; bit 1 marks a directory.
pub open spec fn spec_flags(e: Seq<u8>) -> u8 {
    e[25]
}

/// Length of the ISO 9660 name.
pub open spec fn spec_name_len(e: Seq<u8>) -> u8 {
    e[32]
}

/// Byte offset of the extent on the disc. The sector number is stored big-endian in two halves,
/// and is computed in 32 bits, as on the console.
pub open spec fn spec_extent_start(e: Seq<u8>) -> u32 {
    ((spec_u16_be(e, 6) as u32) << 27u32) | ((spec_u16_be(e, 8) as u32) << 11u32)
}

/// Byte size of the extent, stored big-endian in two halves.
pub open spec fn spec_extent_size(e: Seq<u8>) -> u32 {
    ((spec_u16_be(e, 14) as u32) << 16u32) | (spec_u16_be(e, 16) as u32)
}

/// The name length padded to an odd number, so that the name and its padding end on an even
/// offset.
pub open spec fn spec_padded_name_len(e: Seq<u8>) -> nat {
    spec_name_len(e) as nat + (if spec_name_len(e) % 2 == 0 {
        1nat
    } else {
        0nat
    })
}

/// The ISO 9660 name of the record.
pub open spec fn spec_iso_name(e: Seq<u8>) -> Seq<u8> {
    e.subrange(NAME_OFFSET as int, NAME_OFFSET + spec_name_len(e))
}

/// The outcome of looking for a Rock Ridge `NM` entry in a system use area.
pub enum RockRidgeScan {
    /// There is an `NM` entry with this name.
    Found(Seq<u8>),
    /// There is no `NM` entry.
    Absent,
    /// An entry has length zero (the scan would never end) or runs past the area.
    Malformed,
}

/// Looks through the system use entries in `data` for an `NM` entry. Each entry starts with a
/// two-byte signature, a length byte and a version byte; the name of an `NM` entry follows its
/// flags byte and fills the rest of the entry.
pub open spec fn spec_rock_ridge_scan(data: Seq<u8>) -> RockRidgeScan
    decreases data.len(),
{
    if data.len() < 4 {
        RockRidgeScan::Absent
    } else if data[0] == 0x4e && data[1] == 0x4d {
        if data.len() < 5 || data[2] < 5 || data[2] as nat > data.len() {
            RockRidgeScan::Malformed
        } else {
            RockRidgeScan::Found(data.subrange(5, data[2] as int))
        }
    } else if data[2] == 0 || data[2] as nat > data.len() {
        RockRidgeScan::Malformed
    } else {
        spec_rock_ridge_scan(data.subrange(data[2] as int, data.len() as int))
    }
}

/// The system use area of a record: after the name and its padding, up to the record length.
/// `None` when the name runs past the record.
pub open spec fn spec_system_use(e: Seq<u8>) -> Option<Seq<u8>> {
    let start = NAME_OFFSET + spec_padded_name_len(e);
    if spec_record_len(e) as nat > e.len() || start > spec_record_len(e) as nat {
        None
    } else {
        Some(e.subrange(start as int, spec_record_len(e) as int))
    }
}

/// The Rock Ridge name of the record. `None` when there is none, and also when the record is
/// malformed.
pub open spec fn spec_rock_ridge_name(e: Seq<u8>) -> Option<Seq<u8>> {
    match spec_system_use(e) {
        Some(su) => match spec_rock_ridge_scan(su) {
            RockRidgeScan::Found(n) => Some(n),
            _ => None,
        },
        None => None,
    }
}

/// Whether looking for the Rock Ridge name of the record reads past the record or never ends.
pub open spec fn spec_rock_ridge_malformed(e: Seq<u8>) -> bool {
    match spec_system_use(e) {
        Some(su) => spec_rock_ridge_scan(su) is Malformed,
        None => true,
    }
}

/// The name under which a directory listing shows the record: its Rock Ridge name, or else its
/// ISO 9660 name.
pub open spec fn spec_display_name(e: Seq<u8>) -> Seq<u8> {
    match spec_rock_ridge_name(e) {
        Some(n) => n,
        None => spec_iso_name(e),
    }
}

/// A directory record, read from the bytes that start at the record.
pub struct DirectoryEntry<'a> {
    bytes: &'a [u8],
}

impl<'a> DirectoryEntry<'a> {
    #[verifier::type_invariant]
    closed spec fn inv(self) -> bool {
        self.bytes@.len() >= DIRECTORY_ENTRY_SIZE
    }

    /// The bytes from the start of the record to the end of the buffer it was read from.
    pub closed spec fn spec_data(self) -> Seq<u8> {
        self.bytes@
    }

    /// Reads the record that starts at the beginning of `bytes`.
    pub fn new(bytes: &'a [u8]) -> (r: Self)
        requires
            bytes@.len() >= DIRECTORY_ENTRY_SIZE,
        ensures
            r.spec_data() == bytes@,
    {
        DirectoryEntry { bytes }
    }

    /// Length of the record.
    pub fn record_len(&self) -> (r: u8)
        ensures
            r == spec_record_len(self.spec_data()),
    {
        proof {
            use_type_invariant(self);
        }
        self.bytes[0]
    }

    /// File flags of the record.
    pub fn flags(&self) -> (r: u8)
        ensures
            r == spec_flags(self.spec_data()),
    {
        proof {
            use_type_invariant(self);
        }
        self.bytes[25]
    }

    /// Whether the record is a directory.
    pub fn is_directory(&self) -> (r: bool)
        ensures
            r == (spec_flags(self.spec_data()) & 2 == 2),
    {
        self.flags() & 2 == 2
    }

    /// Byte offset of the extent on the disc.
    pub fn extent_start(&self) -> (r: usize)
        ensures
            r == spec_extent_start(self.spec_data()),
    {
        proof {
            use_type_invariant(self);
        }
        let hi = u16_be_at(self.bytes, 6) as u32;
        let lo = u16_be_at(self.bytes, 8) as u32;
        ((hi << 27u32) | (lo << 11u32)) as usize
    }

    /// Byte size of the extent.
    pub fn extent_size(&self) -> (r: usize)
        ensures
            r == spec_extent_size(self.spec_data()),
    {
        proof {
            use_type_invariant(self);
        }
        let hi = u16_be_at(self.bytes, 14) as u32;
        let lo = u16_be_at(self.bytes, 16) as u32;
        ((hi << 16u32) | lo) as usize
    }

    /// The byte range of the extent on the disc.
    pub fn extent(&self) -> (r: core::ops::Range<usize>)
        requires
            spec_extent_start(self.spec_data()) + spec_extent_size(self.spec_data()) <= usize::MAX,
        ensures
            r.start == spec_extent_start(self.spec_data()),
            r.end == spec_extent_start(self.spec_data()) + spec_extent_size(self.spec_data()),
    {
        let start = self.extent_start();
        start..start + self.extent_size()
    }

    /// Length of the ISO 9660 name.
    pub fn name_len(&self) -> (r: u8)
        ensures
            r == spec_name_len(self.spec_data()),
    {
        proof {
            use_type_invariant(self);
        }
        self.bytes[32]
    }

    /// The name length padded to an odd number.
    pub fn padded_name_len(&self) -> (r: usize)
        ensures
            r == spec_padded_name_len(self.spec_data()),
    {
        let n = self.name_len();
        assert(((n & 1) ^ 1) == (if n % 2 == 0 {
            1u8
        } else {
            0u8
        })) by (bit_vector);
        n as usize + ((n & 1) ^ 1) as usize
    }

    /// The ISO 9660 name as bytes.
    pub fn name_bytes(&self) -> (r: &'a [u8])
        requires
            NAME_OFFSET + spec_name_len(self.spec_data()) <= self.spec_data().len(),
        ensures
            r@ == spec_iso_name(self.spec_data()),
    {
        let n = self.name_len() as usize;
        slice_subrange(self.bytes, NAME_OFFSET, NAME_OFFSET + n)
    }

    /// The ISO 9660 name.
    pub fn name(&self) -> (r: &'a str)
        requires
            NAME_OFFSET + spec_name_len(self.spec_data()) <= self.spec_data().len(),
            vstd::utf8::valid_utf8(spec_iso_name(self.spec_data())),
        ensures
            r.spec_bytes() == spec_iso_name(self.spec_data()),
    {
        match str_from_utf8(self.name_bytes()) {
            Some(s) => s,
            None => {
                assert(false);
                ""
            },
        }
    }

    /// The Rock Ridge name as bytes, if the record has one.
    pub fn rock_ridge_name_bytes(&self) -> (r: Option<&'a [u8]>)
        requires
            !spec_rock_ridge_malformed(self.spec_data()),
        ensures
            r matches Some(n) ==> spec_rock_ridge_name(self.spec_data()) == Some(n@),
            r is None ==> spec_rock_ridge_name(self.spec_data()) is None,
    {
        proof {
            use_type_invariant(self);
        }
        let record_len = self.record_len() as usize;
        let start = NAME_OFFSET + self.padded_name_len();
        let ghost e = self.bytes@;
        let mut data = slice_subrange(self.bytes, start, record_len);
        assert(spec_system_use(e) == Some(data@));
        while data.len() >= 4
            invariant
                e == self.bytes@,
                !(spec_rock_ridge_scan(data@) is Malformed),
                spec_rock_ridge_name(e) == match spec_rock_ridge_scan(data@) {
                    RockRidgeScan::Found(n) => Some(n),
                    _ => None,
                },
            decreases data@.len(),
        {
            if data[0] == 0x4e && data[1] == 0x4d {
                let len = data[2] as usize;
                let name = slice_subrange(data, 5, len);
                assert(spec_rock_ridge_scan(data@) == RockRidgeScan::Found(name@));
                return Some(name);
            }
            let len = data[2] as usize;
            data = slice_subrange(data, len, data.len());
        }
        None
    }

    /// The Rock Ridge name, if the record has one.
    pub fn rock_ridge_name(&self) -> (r: Option<&'a str>)
        requires
            !spec_rock_ridge_malformed(self.spec_data()),
            spec_rock_ridge_name(self.spec_data()) matches Some(n) ==> vstd::utf8::valid_utf8(n),
        ensures
            r matches Some(s) ==> spec_rock_ridge_name(self.spec_data()) == Some(s.spec_bytes()),
            r is None ==> spec_rock_ridge_name(self.spec_data()) is None,
    {
        match self.rock_ridge_name_bytes() {
            Some(b) => match str_from_utf8(b) {
                Some(s) => Some(s),
                None => {
                    assert(false);
                    None
                },
            },
            None => None,
        }
    }
}

// ---------------------------------------------------------------------------------------------
// Directory sectors.
// ---------------------------------------------------------------------------------------------

/// Offsets of the records in `sector`, starting at `off`: each record is followed by the next
/// one, and the records end at a record of length zero or where no complete fixed part fits
/// before `end`.
pub open spec fn spec_record_offsets(sector: Seq<u8>, off: nat, end: nat) -> Seq<nat>
    decreases (if off <= end {
        end - off
    } else {
        0
    }),
{
    if off + DIRECTORY_ENTRY_SIZE > end || off >= sector.len() || sector[off as int] == 0 {
        Seq::empty()
    } else {
        seq![off] + spec_record_offsets(sector, off + sector[off as int] as nat, end)
    }
}

/// Where the records of an extent that starts at `extent_start` begin within the sector at
/// `sector_start`.
pub open spec fn spec_scan_start(sector_start: nat, extent_start: nat) -> nat {
    if extent_start >= sector_start {
        (extent_start - sector_start) as nat
    } else {
        0
    }
}

/// Where the records of an extent that ends at `extent_end` stop within the sector at
/// `sector_start`.
pub open spec fn spec_scan_end(sector_start: nat, extent_end: nat) -> nat {
    if extent_end <= sector_start {
        0
    } else if extent_end - sector_start < SECTOR_SIZE {
        (extent_end - sector_start) as nat
    } else {
        SECTOR_SIZE as nat
    }
}

/// Every record offset leaves room for the fixed part of a record before `end`.
pub proof fn lemma_record_offsets_bounds(sector: Seq<u8>, off: nat, end: nat)
    ensures
        forall|k: int|
            0 <= k < spec_record_offsets(sector, off, end).len() ==> #[trigger] spec_record_offsets(
                sector,
                off,
                end,
            )[k] + DIRECTORY_ENTRY_SIZE <= end,
    decreases (if off <= end {
        end - off
    } else {
        0
    }),
{
    if !(off + DIRECTORY_ENTRY_SIZE > end || off >= sector.len() || sector[off as int] == 0) {
        lemma_record_offsets_bounds(sector, off + sector[off as int] as nat, end);
        let rest = spec_record_offsets(sector, off + sector[off as int] as nat, end);
        assert forall|k: int|
            0 <= k < spec_record_offsets(sector, off, end).len() implies #[trigger] spec_record_offsets(
            sector,
            off,
            end,
        )[k] + DIRECTORY_ENTRY_SIZE <= end by {
            if k > 0 {
                assert(spec_record_offsets(sector, off, end)[k] == rest[k - 1]);
            }
        }
    }
}

/// Returns the offsets of the records in `sector` between `start` and `end`.
pub fn record_offsets(sector: &[u8], start: usize, end: usize) -> (r: Vec<usize>)
    requires
        end <= sector@.len(),
        sector@.len() <= SECTOR_SIZE,
    ensures
        r@.map_values(|o: usize| o as nat) == spec_record_offsets(sector@, start as nat, end as nat),
{
    let mut out: Vec<usize> = Vec::new();
    let mut off = start;
    while off < sector.len() && end >= DIRECTORY_ENTRY_SIZE && off <= end - DIRECTORY_ENTRY_SIZE
        && sector[off] != 0
        invariant
            end <= sector@.len(),
            sector@.len() <= SECTOR_SIZE,
            off == start || off <= SECTOR_SIZE + 256,
            out@.map_values(|o: usize| o as nat) + spec_record_offsets(sector@, off as nat, end as nat)
                == spec_record_offsets(sector@, start as nat, end as nat),
        decreases (if off <= end {
            end - off
        } else {
            0
        }),
    {
        let ghost before = out@;
        out.push(off);
        assert(out@.map_values(|o: usize| o as nat) =~= before.map_values(|o: usize| o as nat).push(
            off as nat,
        ));
        off = off + sector[off] as usize;
    }
    assert(spec_record_offsets(sector@, off as nat, end as nat) =~= Seq::<nat>::empty());
    assert(out@.map_values(|o: usize| o as nat) =~= out@.map_values(|o: usize| o as nat) + Seq::<
        nat,
    >::empty());
    out
}

} // verus!

verus! {

// ---------------------------------------------------------------------------------------------
// Volume descriptors.
// ---------------------------------------------------------------------------------------------

/// Size of the part of the primary volume descriptor that is read.
pub const PRIMARY_VOLUME_DESCRIPTOR_SIZE: usize = 192;

/// Offset of the root directory record in the primary volume descriptor.
pub const ROOT_DIRECTORY_ENTRY_OFFSET: usize = 156;

/// What a volume descriptor sector holds.
pub enum VolumeDescriptor {
    /// The primary volume descriptor: where the path table is and where the root directory is.
    Primary { path_table_offset: usize, path_table_size: usize, root_directory_extent: core::ops::Range<usize> },
    /// The set terminator: no primary volume descriptor came before it.
    Terminator,
    /// Some other volume descriptor; the next sector holds the next one.
    Other,
    /// A primary volume descriptor with an unexpected version or block size, or with extents
    /// beyond the address space.
    Invalid,
}

/// The root directory record of a primary volume descriptor.
pub open spec fn spec_root_entry(d: Seq<u8>) -> Seq<u8> {
    d.subrange(ROOT_DIRECTORY_ENTRY_OFFSET as int, d.len() as int)
}

/// Whether a primary volume descriptor has version 1 and 2048-byte logical blocks.
pub open spec fn spec_primary_supported(d: Seq<u8>) -> bool {
    d[6] == 1 && spec_u16_be(d, 130) == 2048
}

/// Reads the volume descriptor in `sector`.
pub fn read_volume_descriptor(sector: &[u8]) -> (r: VolumeDescriptor)
    requires
        sector@.len() >= PRIMARY_VOLUME_DESCRIPTOR_SIZE,
    ensures
        sector@[0] == 255 <==> r is Terminator,
        (sector@[0] != 1 && sector@[0] != 255) <==> r is Other,
        sector@[0] == 1 ==> match r {
            VolumeDescriptor::Primary {
                path_table_offset,
                path_table_size,
                root_directory_extent,
            } => {
                &&& spec_primary_supported(sector@)
                &&& path_table_offset == 2048 * spec_u32_be(sector@, 148)
                &&& path_table_size == spec_u32_be(sector@, 136)
                &&& root_directory_extent.start == spec_extent_start(spec_root_entry(sector@))
                &&& root_directory_extent.end == spec_extent_start(spec_root_entry(sector@))
                    + spec_extent_size(spec_root_entry(sector@))
            },
            VolumeDescriptor::Invalid => !spec_primary_supported(sector@) || 2048 * spec_u32_be(
                sector@,
                148,
            ) > usize::MAX || spec_extent_start(spec_root_entry(sector@)) + spec_extent_size(
                spec_root_entry(sector@),
            ) > usize::MAX,
            _ => false,
        },
{
    match sector[0] {
        1 => {
            if sector[6] != 1 || u16_be_at(sector, 130) != 2048 {
                return VolumeDescriptor::Invalid;
            }
            let lba = u32_be_at(sector, 148) as u64;
            let offset64 = 2048u64 * lba;
            if offset64 > usize::MAX as u64 {
                return VolumeDescriptor::Invalid;
            }
            let path_table_size = u32_be_at(sector, 136) as usize;
            let root = DirectoryEntry::new(
                slice_subrange(sector, ROOT_DIRECTORY_ENTRY_OFFSET, sector.len()),
            );
            let start = root.extent_start();
            let size = root.extent_size();
            if start > usize::MAX - size {
                return VolumeDescriptor::Invalid;
            }
            VolumeDescriptor::Primary {
                path_table_offset: offset64 as usize,
                path_table_size,
                root_directory_extent: start..start + size,
            }
        },
        255 => VolumeDescriptor::Terminator,
        _ => VolumeDescriptor::Other,
    }
}

// ---------------------------------------------------------------------------------------------
// Walking directories.
// ---------------------------------------------------------------------------------------------

/// The first component of a path and the rest after the first slash (empty when there is none).
pub open spec fn spec_split_path(p: Seq<u8>) -> (Seq<u8>, Seq<u8>) {
    if exists|k: int| 0 <= k < p.len() && p[k] == 0x2f {
        let k = choose|k: int|
            0 <= k < p.len() && p[k] == 0x2f && forall|j: int| 0 <= j < k ==> p[j] != 0x2f;
        (p.subrange(0, k), p.subrange(k + 1, p.len() as int))
    } else {
        (p, Seq::empty())
    }
}

/// Splits a path at its first slash.
pub fn split_path(p: &[u8]) -> (r: (Vec<u8>, Vec<u8>))
    ensures
        r.0@ == spec_split_path(p@).0,
        r.1@ == spec_split_path(p@).1,
{
    let n = p.len();
    let mut i: usize = 0;
    while i < n
        invariant
            n == p@.len(),
            i <= n,
            forall|j: int| 0 <= j < i ==> p@[j] != 0x2f,
        decreases n - i,
    {
        if p[i] == 0x2f {
            proof {
                let k = choose|k: int|
                    0 <= k < p@.len() && p@[k] == 0x2f && forall|j: int| 0 <= j < k ==> p@[j] != 0x2f;
                assert(k == i as int) by {
                    if k < i {
                    } else if k > i {
                        assert(p@[i as int] != 0x2f);
                    }
                }
            }
            return (
                vstd::slice::slice_to_vec(slice_subrange(p, 0, i)),
                vstd::slice::slice_to_vec(slice_subrange(p, i + 1, n)),
            );
        }
        i = i + 1;
    }
    (vstd::slice::slice_to_vec(p), Vec::new())
}

/// What a walk through a directory tree is for.
#[derive(Clone, Copy, Debug, PartialEq, Eq, Structural)]
pub enum WalkMode {
    /// Collect the names in the directory at the path.
    List,
    /// Find the file at the path.
    Read,
}

/// How a walk through a directory tree ended.
#[derive(Clone, Copy, Debug, PartialEq, Eq, Structural)]
pub enum WalkOutcome {
    /// The listing is complete.
    Listed,
    /// The file is at this byte offset on the disc and has this size.
    Found { offset: usize, size: usize },
    /// No record in the directory has the name.
    NotFound,
    /// A record that the path passes through is not a directory.
    NotADirectory,
    /// The file does not start on a 32-byte boundary.
    Misaligned,
    /// A record's system use area is malformed, or an extent runs beyond the address space.
    Malformed,
}

/// What a walk needs next.
#[derive(Clone, Copy, Debug, PartialEq, Eq, Structural)]
pub enum WalkAction {
    /// The sector at this byte offset.
    ReadSector(usize),
    /// Nothing: the walk has ended.
    Finished,
}

/// The state of a walk, as mathematical values.
pub struct WalkView {
    pub mode: WalkMode,
    pub path: Seq<u8>,
    pub extent_start: nat,
    pub extent_end: nat,
    pub sector: nat,
    pub skip: nat,
    pub names: Seq<Seq<u8>>,
    pub outcome: Option<WalkOutcome>,
}

/// The start of the sector that holds byte `x`.
pub open spec fn spec_sector_of(x: nat) -> nat {
    (x - x % (SECTOR_SIZE as nat)) as nat
}

/// Whether the walk is listing the directory it is in, rather than looking for a path component.
pub open spec fn spec_listing_here(v: WalkView) -> bool {
    v.mode == WalkMode::List && v.path.len() == 0
}

/// Enters the directory whose records are at `start..end`, with `path` left to walk. The walk
/// ends at once when the directory has no sector.
pub open spec fn spec_enter(v: WalkView, path: Seq<u8>, start: nat, end: nat) -> WalkView {
    let w = WalkView {
        path,
        extent_start: start,
        extent_end: end,
        sector: spec_sector_of(start),
        skip: 2,
        ..v
    };
    if w.sector >= end {
        WalkView { outcome: Some(spec_exhausted_outcome(w)), ..w }
    } else {
        w
    }
}

/// Visits one record (`e` holds the bytes from the start of the record to the end of its
/// sector). Returns the new state and whether the scan of the sector stops here.
pub open spec fn spec_visit(v: WalkView, e: Seq<u8>) -> (WalkView, bool) {
    if v.skip > 0 {
        (WalkView { skip: (v.skip - 1) as nat, ..v }, false)
    } else if spec_rock_ridge_malformed(e) {
        (WalkView { outcome: Some(WalkOutcome::Malformed), ..v }, true)
    } else if spec_listing_here(v) {
        (WalkView { names: v.names.push(spec_display_name(e)), ..v }, false)
    } else {
        let (name, rest) = spec_split_path(v.path);
        match spec_rock_ridge_name(e) {
            Some(n) => if spec_eq_ignore_ascii_case(n, name) {
                let start = spec_extent_start(e) as nat;
                let size = spec_extent_size(e) as nat;
                if v.mode == WalkMode::Read && rest.len() == 0 {
                    if start % 32 != 0 {
                        (WalkView { outcome: Some(WalkOutcome::Misaligned), ..v }, true)
                    } else {
                        (
                            WalkView {
                                outcome: Some(
                                    WalkOutcome::Found { offset: start as usize, size: size as usize },
                                ),
                                ..v
                            },
                            true,
                        )
                    }
                } else if spec_flags(e) & 2 != 2 {
                    (WalkView { outcome: Some(WalkOutcome::NotADirectory), ..v }, true)
                } else if start + size > usize::MAX {
                    (WalkView { outcome: Some(WalkOutcome::Malformed), ..v }, true)
                } else {
                    (spec_enter(v, rest, start, start + size), true)
                }
            } else {
                (v, false)
            },
            None => (v, false),
        }
    }
}

/// Visits the records at `offs` in `data` in order, until one stops the scan.
pub open spec fn spec_visit_all(v: WalkView, data: Seq<u8>, offs: Seq<nat>) -> (WalkView, bool)
    decreases offs.len(),
{
    if offs.len() == 0 {
        (v, false)
    } else {
        let (v2, stop) = spec_visit(v, data.subrange(offs[0] as int, data.len() as int));
        if stop {
            (v2, true)
        } else {
            spec_visit_all(v2, data, offs.drop_first())
        }
    }
}

/// The outcome of a walk whose current directory has no more sectors.
pub open spec fn spec_exhausted_outcome(v: WalkView) -> WalkOutcome {
    if v.mode == WalkMode::List {
        WalkOutcome::Listed
    } else {
        WalkOutcome::NotFound
    }
}

/// Moves on to the next sector of the current directory, ending the walk after the last one.
pub open spec fn spec_advance(v: WalkView) -> WalkView {
    let next = (v.sector + SECTOR_SIZE) as nat;
    if next > usize::MAX {
        WalkView { outcome: Some(spec_exhausted_outcome(v)), ..v }
    } else if next >= v.extent_end {
        WalkView { sector: next, outcome: Some(spec_exhausted_outcome(v)), ..v }
    } else {
        WalkView { sector: next, ..v }
    }
}

/// The state after the sector at `v.sector`, whose bytes are `data`, is scanned.
pub open spec fn spec_on_sector(v: WalkView, data: Seq<u8>) -> WalkView {
    let offs = spec_record_offsets(
        data,
        spec_scan_start(v.sector, v.extent_start),
        spec_scan_end(v.sector, v.extent_end),
    );
    let (v2, stop) = spec_visit_all(v, data, offs);
    if stop {
        v2
    } else {
        spec_advance(v2)
    }
}

/// The state at the start of a walk from the directory at `extent`.
pub open spec fn spec_walk_start(mode: WalkMode, path: Seq<u8>, start: nat, end: nat) -> WalkView {
    let v = WalkView {
        mode,
        path: Seq::empty(),
        extent_start: 0,
        extent_end: 0,
        sector: 0,
        skip: 0,
        names: Seq::empty(),
        outcome: None,
    };
    spec_enter(v, path, start, end)
}

/// A walk through a directory tree, one sector at a time: it lists the directory at a path or
/// finds the file at a path. Each directory starts with its `.` and `..` records, which are
/// skipped, and names are matched against Rock Ridge names without regard to ASCII case.
pub struct DirectoryWalk {
    mode: WalkMode,
    path: Vec<u8>,
    extent_start: usize,
    extent_end: usize,
    sector: usize,
    skip: usize,
    names: Vec<Vec<u8>>,
    outcome: Option<WalkOutcome>,
}

impl View for DirectoryWalk {
    type V = WalkView;

    closed spec fn view(&self) -> WalkView {
        WalkView {
            mode: self.mode,
            path: self.path@,
            extent_start: self.extent_start as nat,
            extent_end: self.extent_end as nat,
            sector: self.sector as nat,
            skip: self.skip as nat,
            names: self.names@.map_values(|n: Vec<u8>| n@),
            outcome: self.outcome,
        }
    }
}

/// Returns the start of the sector that holds byte `x`.
fn sector_of(x: usize) -> (r: usize)
    ensures
        r == spec_sector_of(x as nat),
{
    assert((x & !2047usize) == x - x % 2048) by (bit_vector);
    x & !2047usize
}

impl DirectoryWalk {
    /// Starts a walk from the directory whose records are at `extent`.
    pub fn new(mode: WalkMode, path: &str, extent: core::ops::Range<usize>) -> (r: Self)
        ensures
            r@ == spec_walk_start(mode, path.spec_bytes(), extent.start as nat, extent.end as nat),
    {
        let sector = sector_of(extent.start);
        let ghost p = path.spec_bytes();
        let mut w = DirectoryWalk {
            mode,
            path: vstd::slice::slice_to_vec(path.as_bytes()),
            extent_start: extent.start,
            extent_end: extent.end,
            sector,
            skip: 2,
            names: Vec::new(),
            outcome: None,
        };
        proof {
            assert(w@.names =~= Seq::<Seq<u8>>::empty());
        }
        if sector >= extent.end {
            w.outcome = Some(Self::exhausted_outcome(mode));
        }
        w
    }

    fn exhausted_outcome(mode: WalkMode) -> (r: WalkOutcome)
        ensures
            r == (if mode == WalkMode::List {
                WalkOutcome::Listed
            } else {
                WalkOutcome::NotFound
            }),
    {
        match mode {
            WalkMode::List => WalkOutcome::Listed,
            WalkMode::Read => WalkOutcome::NotFound,
        }
    }

    /// What the walk needs next.
    pub fn next_action(&self) -> (r: WalkAction)
        ensures
            r == (match self@.outcome {
                Some(_) => WalkAction::Finished,
                None => WalkAction::ReadSector(self@.sector as usize),
            }),
    {
        match self.outcome {
            Some(_) => WalkAction::Finished,
            None => WalkAction::ReadSector(self.sector),
        }
    }

    /// How the walk ended, once it has.
    pub fn outcome(&self) -> (r: Option<WalkOutcome>)
        ensures
            r == self@.outcome,
    {
        self.outcome
    }

    /// The names listed so far.
    pub fn names(&self) -> (r: &Vec<Vec<u8>>)
        ensures
            r@.map_values(|n: Vec<u8>| n@) == self@.names,
    {
        &self.names
    }

    /// Visits one record.
    fn visit(&mut self, e: DirectoryEntry) -> (stop: bool)
        ensures
            (final(self)@, stop) == spec_visit(old(self)@, e.spec_data()),
    {
        let ghost v = self@;
        if self.skip > 0 {
            self.skip = self.skip - 1;
            return false;
        }
        if !Self::rock_ridge_well_formed(&e) {
            self.outcome = Some(WalkOutcome::Malformed);
            return true;
        }
        if self.mode == WalkMode::List && self.path.len() == 0 {
            let name: Vec<u8> = match e.rock_ridge_name_bytes() {
                Some(n) => vstd::slice::slice_to_vec(n),
                None => {
                    proof {
                        use_type_invariant(&e);
                        Self::lemma_iso_name_fits(e.spec_data());
                    }
                    vstd::slice::slice_to_vec(e.name_bytes())
                },
            };
            let ghost before = self.names@;
            self.names.push(name);
            proof {
                assert(self.names@.map_values(|n: Vec<u8>| n@) =~= before.map_values(
                    |n: Vec<u8>| n@,
                ).push(spec_display_name(e.spec_data())));
            }
            return false;
        }
        let (name, rest) = split_path(self.path.as_slice());
        match e.rock_ridge_name_bytes() {
            Some(n) => {
                if eq_ignore_ascii_case(n, name.as_slice()) {
                    let start = e.extent_start();
                    let size = e.extent_size();
                    if self.mode == WalkMode::Read && rest.len() == 0 {
                        if start % 32 != 0 {
                            self.outcome = Some(WalkOutcome::Misaligned);
                        } else {
                            self.outcome = Some(WalkOutcome::Found { offset: start, size });
                        }
                        return true;
                    }
                    if !e.is_directory() {
                        self.outcome = Some(WalkOutcome::NotADirectory);
                        return true;
                    }
                    if start > usize::MAX - size {
                        self.outcome = Some(WalkOutcome::Malformed);
                        return true;
                    }
                    self.path = rest;
                    self.extent_start = start;
                    self.extent_end = start + size;
                    self.sector = sector_of(start);
                    self.skip = 2;
                    if self.sector >= self.extent_end {
                        self.outcome = Some(Self::exhausted_outcome(self.mode));
                    }
                    return true;
                }
                false
            },
            None => false,
        }
    }

    /// Whether looking for the record's Rock Ridge name stays inside the record and ends.
    fn rock_ridge_well_formed(e: &DirectoryEntry) -> (r: bool)
        ensures
            r == !spec_rock_ridge_malformed(e.spec_data()),
    {
        proof {
            use_type_invariant(e);
        }
        let record_len = e.record_len() as usize;
        let start = NAME_OFFSET + e.padded_name_len();
        if record_len > e.bytes.len() || start > record_len {
            return false;
        }
        let mut data = slice_subrange(e.bytes, start, record_len);
        while data.len() >= 4
            invariant
                spec_rock_ridge_malformed(e.spec_data()) == (spec_rock_ridge_scan(data@) is Malformed),
            decreases data@.len(),
        {
            if data[0] == 0x4e && data[1] == 0x4d {
                let len = data[2] as usize;
                return !(data.len() < 5 || len < 5 || len > data.len());
            }
            let len = data[2] as usize;
            if len == 0 || len > data.len() {
                return false;
            }
            data = slice_subrange(data, len, data.len());
        }
        true
    }

    proof fn lemma_iso_name_fits(e: Seq<u8>)
        requires
            e.len() >= DIRECTORY_ENTRY_SIZE,
            !spec_rock_ridge_malformed(e),
        ensures
            NAME_OFFSET + spec_name_len(e) <= e.len(),
    {
    }

    /// Scans the sector at the walk's current position; `data` holds its bytes.
    pub fn on_sector(&mut self, data: &[u8])
        requires
            old(self)@.outcome is None,
            data@.len() == SECTOR_SIZE,
        ensures
            final(self)@ == spec_on_sector(old(self)@, data@),
    {
        let ghost v0 = self@;
        let start: usize = if self.extent_start >= self.sector {
            self.extent_start - self.sector
        } else {
            0
        };
        let end: usize = if self.extent_end <= self.sector {
            0
        } else if self.extent_end - self.sector < SECTOR_SIZE {
            self.extent_end - self.sector
        } else {
            SECTOR_SIZE
        };
        let offs = record_offsets(data, start, end);
        let ghost soffs = offs@.map_values(|o: usize| o as nat);
        proof {
            lemma_record_offsets_bounds(data@, start as nat, end as nat);
        }
        let n = offs.len();
        let mut i: usize = 0;
        assert(soffs.subrange(0, n as int) =~= soffs);
        while i < n
            invariant
                n == offs@.len(),
                i <= n,
                data@.len() == SECTOR_SIZE,
                end <= SECTOR_SIZE,
                soffs == offs@.map_values(|o: usize| o as nat),
                soffs == spec_record_offsets(data@, start as nat, end as nat),
                start as nat == spec_scan_start(v0.sector, v0.extent_start),
                end as nat == spec_scan_end(v0.sector, v0.extent_end),
                v0.outcome is None,
                v0 == old(self)@,
                forall|k: int| 0 <= k < soffs.len() ==> #[trigger] soffs[k] + DIRECTORY_ENTRY_SIZE <= end,
                spec_visit_all(v0, data@, soffs) == spec_visit_all(
                    self@,
                    data@,
                    soffs.subrange(i as int, n as int),
                ),
            decreases n - i,
        {
            let off = offs[i];
            assert(soffs[i as int] == off as nat);
            let e = DirectoryEntry::new(slice_subrange(data, off, data.len()));
            let ghost cur = self@;
            let stop = self.visit(e);
            assert(soffs.subrange(i as int, n as int).drop_first() =~= soffs.subrange(
                i + 1,
                n as int,
            ));
            assert(soffs.subrange(i as int, n as int)[0] == off as nat);
            assert(data@.subrange(off as int, data@.len() as int) == e.spec_data());
            assert(spec_visit_all(cur, data@, soffs.subrange(i as int, n as int)) == (if stop {
                (self@, true)
            } else {
                spec_visit_all(self@, data@, soffs.subrange(i + 1, n as int))
            }));
            if stop {
                assert(spec_on_sector(v0, data@) == self@);
                return;
            }
            i = i + 1;
        }
        self.advance();
    }

    /// Moves on to the next sector of the current directory.
    fn advance(&mut self)
        ensures
            final(self)@ == spec_advance(old(self)@),
    {
        match self.sector.checked_add(SECTOR_SIZE) {
            None => {
                self.outcome = Some(Self::exhausted_outcome(self.mode));
            },
            Some(next) => {
                self.sector = next;
                if next >= self.extent_end {
                    self.outcome = Some(Self::exhausted_outcome(self.mode));
                }
            },
        }
    }
}

/// A reader of an ISO 9660 disc: where its path table and its root directory are.
pub struct DiscReader {
    path_table_offset: usize,
    path_table_size: usize,
    root_directory_extent: core::ops::Range<usize>,
}

impl DiscReader {
    /// The byte offset of the first volume descriptor; the next ones follow sector by sector.
    pub fn first_volume_descriptor_offset() -> (r: usize)
        ensures
            r == FIRST_VOLUME_DESCRIPTOR_SECTOR * SECTOR_SIZE,
    {
        FIRST_VOLUME_DESCRIPTOR_SECTOR * SECTOR_SIZE
    }

    /// The reader for the disc whose primary volume descriptor is `descriptor`; `None` for any
    /// other kind of descriptor.
    pub fn new(descriptor: VolumeDescriptor) -> (r: Option<Self>)
        ensures
            descriptor is Primary <==> r is Some,
            r matches Some(d) ==> match descriptor {
                VolumeDescriptor::Primary { path_table_offset, path_table_size, root_directory_extent } => {
                    &&& d.spec_path_table_offset() == path_table_offset
                    &&& d.spec_path_table_size() == path_table_size
                    &&& d.spec_root_directory_extent() == root_directory_extent
                },
                _ => false,
            },
    {
        match descriptor {
            VolumeDescriptor::Primary { path_table_offset, path_table_size, root_directory_extent } => {
                Some(DiscReader { path_table_offset, path_table_size, root_directory_extent })
            },
            _ => None,
        }
    }

    /// Byte offset of the big-endian path table.
    pub closed spec fn spec_path_table_offset(&self) -> usize {
        self.path_table_offset
    }

    /// Size in bytes of the path table.
    pub closed spec fn spec_path_table_size(&self) -> usize {
        self.path_table_size
    }

    /// The bytes of the root directory's records.
    pub closed spec fn spec_root_directory_extent(&self) -> core::ops::Range<usize> {
        self.root_directory_extent
    }

    /// Byte offset of the big-endian path table.
    pub fn path_table_offset(&self) -> (r: usize)
        ensures
            r == self.spec_path_table_offset(),
    {
        self.path_table_offset
    }

    /// Size in bytes of the path table.
    pub fn path_table_size(&self) -> (r: usize)
        ensures
            r == self.spec_path_table_size(),
    {
        self.path_table_size
    }

    /// Starts listing the directory at `path`, relative to the root, as a walk that the caller
    /// feeds with the sectors it asks for.
    pub fn list_directory(&self, path: &str) -> (r: DirectoryWalk)
        ensures
            r@ == spec_walk_start(
                WalkMode::List,
                path.spec_bytes(),
                self.spec_root_directory_extent().start as nat,
                self.spec_root_directory_extent().end as nat,
            ),
    {
        DirectoryWalk::new(WalkMode::List, path, self.root_directory_extent.start..self.root_directory_extent.end)
    }

    /// Starts looking up the file at `path`, relative to the root, as a walk that the caller feeds
    /// with the sectors it asks for.
    pub fn read_file(&self, path: &str) -> (r: DirectoryWalk)
        ensures
            r@ == spec_walk_start(
                WalkMode::Read,
                path.spec_bytes(),
                self.spec_root_directory_extent().start as nat,
                self.spec_root_directory_extent().end as nat,
            ),
    {
        DirectoryWalk::new(WalkMode::Read, path, self.root_directory_extent.start..self.root_directory_extent.end)
    }
}

/// The names a listing shows for the records at `offs` in `data`, in order.
pub open spec fn spec_listed_names(data: Seq<u8>, offs: Seq<nat>) -> Seq<Seq<u8>> {
    Seq::new(offs.len(), |i: int| spec_display_name(data.subrange(offs[i] as int, data.len() as int)))
}

/// Listing the directory at the path, once its `.` and `..` records are skipped: visiting the
/// records of a sector reports each record once, in the order they lie on the disc, under its
/// Rock Ridge name (or else its ISO 9660 name), as long as no record is malformed; the walk
/// goes on to the next sector.
pub proof fn lemma_listing_reports_each_record(v: WalkView, data: Seq<u8>, offs: Seq<nat>)
    requires
        spec_listing_here(v),
        v.skip == 0,
        forall|i: int|
            0 <= i < offs.len() ==> !spec_rock_ridge_malformed(
                #[trigger] data.subrange(offs[i] as int, data.len() as int),
            ),
    ensures
        ({
            let (w, stop) = spec_visit_all(v, data, offs);
            &&& !stop
            &&& w == WalkView { names: v.names + spec_listed_names(data, offs), ..v }
        }),
    decreases offs.len(),
{
    if offs.len() == 0 {
        assert(v.names + spec_listed_names(data, offs) =~= v.names);
    } else {
        let e = data.subrange(offs[0] as int, data.len() as int);
        let v2 = WalkView { names: v.names.push(spec_display_name(e)), ..v };
        assert(spec_visit(v, e) == (v2, false));
        let rest = offs.drop_first();
        assert forall|i: int| 0 <= i < rest.len() implies !spec_rock_ridge_malformed(
            #[trigger] data.subrange(rest[i] as int, data.len() as int),
        ) by {
            assert(rest[i] == offs[i + 1]);
            assert(!spec_rock_ridge_malformed(data.subrange(offs[i + 1] as int, data.len() as int)));
        }
        lemma_listing_reports_each_record(v2, data, rest);
        assert(v2.names + spec_listed_names(data, rest) =~= v.names + spec_listed_names(data, offs));
    }
}

/// Visiting records without stopping keeps the walk where it is: the same mode, directory,
/// sector and outcome.
proof fn lemma_visit_all_keeps_position(v: WalkView, data: Seq<u8>, offs: Seq<nat>)
    ensures
        !spec_visit_all(v, data, offs).1 ==> {
            let w = spec_visit_all(v, data, offs).0;
            &&& w.mode == v.mode
            &&& w.extent_start == v.extent_start
            &&& w.extent_end == v.extent_end
            &&& w.sector == v.sector
            &&& w.outcome == v.outcome
        },
    decreases offs.len(),
{
    if offs.len() > 0 {
        let (v2, stop) = spec_visit(v, data.subrange(offs[0] as int, data.len() as int));
        if !stop {
            lemma_visit_all_keeps_position(v2, data, offs.drop_first());
        }
    }
}

/// A walk reads every sector of a directory: when the scan of a sector finds nothing that ends
/// the walk, the walk goes on to the next sector while that sector still holds part of the
/// directory, and ends, listed or not found, only after the sector holding the directory's last
/// byte.
pub proof fn lemma_walk_reads_every_sector(v: WalkView, data: Seq<u8>)
    requires
        v.outcome is None,
        v.extent_end <= usize::MAX,
        !spec_visit_all(
            v,
            data,
            spec_record_offsets(
                data,
                spec_scan_start(v.sector, v.extent_start),
                spec_scan_end(v.sector, v.extent_end),
            ),
        ).1,
    ensures
        ({
            let w = spec_on_sector(v, data);
            &&& w.mode == v.mode
            &&& w.extent_end == v.extent_end
            &&& v.sector + SECTOR_SIZE < v.extent_end ==> w.outcome is None && w.sector == v.sector
                + SECTOR_SIZE
            &&& v.sector + SECTOR_SIZE >= v.extent_end ==> w.outcome == Some(
                if v.mode == WalkMode::List {
                    WalkOutcome::Listed
                } else {
                    WalkOutcome::NotFound
                },
            )
        }),
{
    lemma_visit_all_keeps_position(
        v,
        data,
        spec_record_offsets(
            data,
            spec_scan_start(v.sector, v.extent_start),
            spec_scan_end(v.sector, v.extent_end),
        ),
    );
}

} // verus!
