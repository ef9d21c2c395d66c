//! GameCube disc images: the disc header and the file system table (FST), looked up by path.
use vstd::prelude::*;
use vstd::slice::slice_subrange;
#[allow(unused_imports)]
use vstd::string::*;

use crate::bytes::{eq_ignore_ascii_case, spec_ascii_lower, spec_eq_ignore_ascii_case, spec_u32_be, str_from_utf8, u32_be_at};
use crate::iso9660::spec_strlen;

verus! {

/// Size of a file system table entry.
pub const FILE_TABLE_ENTRY_SIZE: usize = 12;

/// Disc offset of the part of the disc header that locates the file system table.
pub const DISC_HEADER_OFFSET: usize = 0x420;

/// Size of that part of the disc header.
pub const DISC_HEADER_SIZE: usize = 32;

/// Whether a disc ID names the expected disc: game code `GGME`, maker code `MV`, then two zero
/// bytes.
pub open spec fn spec_is_expected_disc(id: Seq<u8>) -> bool {
    id.len() >= 8 && id.subrange(0, 8) == seq![0x47u8, 0x47, 0x4d, 0x45, 0x4d, 0x56, 0x00, 0x00]
}

/// Returns whether the disc ID read from the drive names the expected disc.
pub fn is_expected_disc(id: &[u8]) -> (r: bool)
    ensures
        r == spec_is_expected_disc(id@),
{
    if id.len() < 8 {
        return false;
    }
    let expected: [u8; 8] = [0x47, 0x47, 0x4d, 0x45, 0x4d, 0x56, 0x00, 0x00];
    let mut i: usize = 0;
    while i < 8
        invariant
            i <= 8,
            id@.len() >= 8,
            expected@ == seq![0x47u8, 0x47, 0x4d, 0x45, 0x4d, 0x56, 0x00, 0x00],
            forall|j: int| 0 <= j < i ==> id@[j] == expected@[j],
        decreases 8 - i,
    {
        if id[i] != expected[i] {
            assert(id@.subrange(0, 8)[i as int] != expected@[i as int]);
            return false;
        }
        i = i + 1;
    }
    assert(id@.subrange(0, 8) =~= expected@);
    true
}

/// Where the file system table is on the disc and how big it is, from the disc header part at
/// `DISC_HEADER_OFFSET`.
pub fn fst_location(header: &[u8]) -> (r: (usize, usize))
    requires
        header@.len() >= DISC_HEADER_SIZE,
    ensures
        r.0 == spec_u32_be(header@, 4),
        r.1 == spec_u32_be(header@, 8),
{
    (u32_be_at(header, 4) as usize, u32_be_at(header, 8) as usize)
}

/// The first word of the entry at `off`: flags in the top byte, name offset below.
pub open spec fn spec_flags_and_name_offset(t: Seq<u8>, off: int) -> u32 {
    spec_u32_be(t, off)
}

/// The second word: the data offset of a file, or the parent index of a directory.
pub open spec fn spec_data_or_parent_index(t: Seq<u8>, off: int) -> u32 {
    spec_u32_be(t, off + 4)
}

/// The third word: the length of a file, or the index after the last entry of a directory.
pub open spec fn spec_file_length_or_next_index(t: Seq<u8>, off: int) -> u32 {
    spec_u32_be(t, off + 8)
}

/// An entry of the file system table.
pub struct FileTableEntry {
    /// Flags in the top byte, name offset below.
    pub flags_and_name_offset: u32,
    /// The data offset of a file, or the parent index of a directory.
    pub data_or_parent_index: u32,
    /// The length of a file, or the index after the last entry of a directory.
    pub file_length_or_next_index: u32,
}

impl FileTableEntry {
    /// Reads the entry at `off` in `table`.
    pub fn read(table: &[u8], off: usize) -> (r: Self)
        requires
            off + FILE_TABLE_ENTRY_SIZE <= table@.len(),
        ensures
            r.flags_and_name_offset == spec_flags_and_name_offset(table@, off as int),
            r.data_or_parent_index == spec_data_or_parent_index(table@, off as int),
            r.file_length_or_next_index == spec_file_length_or_next_index(table@, off as int),
    {
        let len = table.len();
        assert(off + 12 <= len);
        FileTableEntry {
            flags_and_name_offset: u32_be_at(table, off),
            data_or_parent_index: u32_be_at(table, off + 4),
            file_length_or_next_index: u32_be_at(table, off + 8),
        }
    }

    /// Whether the entry is a file (rather than a directory).
    pub fn is_file(&self) -> (r: bool)
        ensures
            r == (self.flags_and_name_offset & 0xff00_0000 == 0),
    {
        self.flags_and_name_offset & 0xff00_0000 == 0
    }

    /// The offset of the entry's name in the string table.
    pub fn name_offset(&self) -> (r: usize)
        ensures
            r == self.flags_and_name_offset & 0x00ff_ffff,
    {
        (self.flags_and_name_offset & 0x00ff_ffff) as usize
    }
}

/// Why a file could not be found in the file system table.
#[derive(Clone, Copy, Debug, PartialEq, Eq, Structural)]
pub enum FstError {
    /// No entry has the path.
    NotFound,
    /// The path names a directory where a file was expected.
    DirectoryPath,
    /// An entry or a name lies outside the table, a name is not NUL-terminated UTF-8, or a
    /// directory's end lies beyond the address space.
    Malformed,
    /// A directory entry's next index does not lie after the entry.
    BackwardSkip,
}

/// The name at `name_offset` in the string table that starts at `sts`: the bytes up to the first
/// NUL. `None` when it does not start inside the table, has no NUL or is not UTF-8.
pub open spec fn spec_fst_name(t: Seq<u8>, sts: nat, name_offset: nat) -> Option<Seq<u8>> {
    let start = sts + name_offset;
    if start > t.len() {
        None
    } else {
        match spec_strlen(t.subrange(start as int, t.len() as int)) {
            Some(n) => {
                let name = t.subrange(start as int, (start + n) as int);
                if vstd::utf8::valid_utf8(name) {
                    Some(name)
                } else {
                    None
                }
            },
            None => None,
        }
    }
}

/// The first component of a path and the rest after the first slash, if there is a slash.
pub open spec fn spec_split_once(p: Seq<u8>) -> (Seq<u8>, Option<Seq<u8>>) {
    if exists|k: int| 0 <= k < p.len() && p[k] == 0x2f {
        let k = choose|k: int|
            0 <= k < p.len() && p[k] == 0x2f && forall|j: int| 0 <= j < k ==> p[j] != 0x2f;
        (p.subrange(0, k), Some(p.subrange(k + 1, p.len() as int)))
    } else {
        (p, None)
    }
}

/// Looks up `path` from the entry at `dir` onwards, stopping at `end`. Files in the current
/// directory are compared with the whole remaining path; a directory whose name is the first
/// component is entered (its entries follow it, up to its next index), and any other directory is
/// skipped.
pub open spec fn spec_fst_walk(t: Seq<u8>, sts: nat, dir: nat, end: nat, path: Seq<u8>) -> Result<
    (u32, u32),
    FstError,
>
    decreases (if dir <= t.len() {
        t.len() - dir + 1
    } else {
        0
    }),
{
    if dir >= end {
        Err(FstError::NotFound)
    } else if dir + FILE_TABLE_ENTRY_SIZE > t.len() {
        Err(FstError::Malformed)
    } else {
        let word = spec_flags_and_name_offset(t, dir as int);
        let length_or_next = spec_file_length_or_next_index(t, dir as int);
        match spec_fst_name(t, sts, (word & 0x00ff_ffff) as nat) {
            None => Err(FstError::Malformed),
            Some(name) => if word & 0xff00_0000 == 0 {
                if spec_eq_ignore_ascii_case(name, path) {
                    Ok((spec_data_or_parent_index(t, dir as int), length_or_next))
                } else {
                    spec_fst_walk(t, sts, (dir + FILE_TABLE_ENTRY_SIZE) as nat, end, path)
                }
            } else {
                let next: nat = FILE_TABLE_ENTRY_SIZE as nat * (length_or_next as nat);
                let (dir_name, rest) = spec_split_once(path);
                if next > usize::MAX {
                    Err(FstError::Malformed)
                } else if spec_eq_ignore_ascii_case(name, dir_name) {
                    match rest {
                        Some(sub_path) => spec_fst_walk(
                            t,
                            sts,
                            (dir + FILE_TABLE_ENTRY_SIZE) as nat,
                            next as nat,
                            sub_path,
                        ),
                        None => Err(FstError::DirectoryPath),
                    }
                } else if next <= dir {
                    Err(FstError::BackwardSkip)
                } else {
                    spec_fst_walk(t, sts, next as nat, end, path)
                }
            },
        }
    }
}

/// The location and size of the file at `path`, searched from the entry after the root.
pub open spec fn spec_fst_lookup(t: Seq<u8>, sts: nat, path: Seq<u8>) -> Result<(u32, u32), FstError> {
    spec_fst_walk(t, sts, FILE_TABLE_ENTRY_SIZE as nat, sts, path)
}

/// The file system table of a GameCube disc, with the disc offset and size of each file.
pub struct DvdGcmLoader {
    table_data: Vec<u8>,
    string_table_start: usize,
}

/// Splits a path at its first slash, when it has one.
fn split_once(p: &[u8]) -> (r: (&[u8], Option<&[u8]>))
    ensures
        r.0@ == spec_split_once(p@).0,
        match r.1 {
            Some(s) => spec_split_once(p@).1 == Some(s@),
            None => spec_split_once(p@).1 is None,
        },
{
    let n = p.len();
    let mut i: usize = 0;
    while i < n
        invariant
            n == p@.len(),
            i <= n,
            forall|j: int| 0 <= j < i ==> p@[j] != 0x2f,
        decreases n - i,
    {
        if p[i] == 0x2f {
            proof {
                let k = choose|k: int|
                    0 <= k < p@.len() && p@[k] == 0x2f && forall|j: int| 0 <= j < k ==> p@[j] != 0x2f;
                assert(k == i as int) by {
                    if k > i {
                        assert(p@[i as int] != 0x2f);
                    }
                }
            }
            return (slice_subrange(p, 0, i), Some(slice_subrange(p, i + 1, n)));
        }
        i = i + 1;
    }
    (p, None)
}

impl DvdGcmLoader {
    /// The bytes of the file system table.
    pub closed spec fn spec_table(&self) -> Seq<u8> {
        self.table_data@
    }

    /// Where the string table starts in the file system table.
    pub closed spec fn spec_string_table_start(&self) -> nat {
        self.string_table_start as nat
    }

    /// Wraps the bytes of a file system table. The string table follows the last entry, whose
    /// count is the root entry's next index.
    pub fn from_table(table_data: Vec<u8>) -> (r: Self)
        requires
            table_data@.len() >= FILE_TABLE_ENTRY_SIZE,
            FILE_TABLE_ENTRY_SIZE * spec_file_length_or_next_index(table_data@, 0) <= usize::MAX,
        ensures
            r.spec_table() == table_data@,
            r.spec_string_table_start() == FILE_TABLE_ENTRY_SIZE * spec_file_length_or_next_index(
                table_data@,
                0,
            ),
    {
        let root = FileTableEntry::read(table_data.as_slice(), 0);
        let string_table_start = FILE_TABLE_ENTRY_SIZE * root.file_length_or_next_index as usize;
        DvdGcmLoader { table_data, string_table_start }
    }

    /// The bytes of the name at `offset` in the string table, up to the first NUL.
    fn string_bytes(&self, offset: usize) -> (r: Option<&[u8]>)
        ensures
            match r {
                Some(b) => {
                    let start = self.spec_string_table_start() + offset;
                    &&& start <= self.spec_table().len()
                    &&& spec_strlen(
                        self.spec_table().subrange(start as int, self.spec_table().len() as int),
                    ) == Some(b@.len())
                    &&& b@ == self.spec_table().subrange(start as int, start + b@.len())
                },
                None => {
                    let start = self.spec_string_table_start() + offset;
                    start > self.spec_table().len() || spec_strlen(
                        self.spec_table().subrange(start as int, self.spec_table().len() as int),
                    ) is None
                },
            },
    {
        let t = self.table_data.as_slice();
        let n = t.len();
        if offset > n || self.string_table_start > n - offset {
            return None;
        }
        let start = self.string_table_start + offset;
        let ghost tail = t@.subrange(start as int, n as int);
        let mut i: usize = start;
        while i < n
            invariant
                start <= i <= n,
                n == t@.len(),
                t@ == self.table_data@,
                start == self.string_table_start + offset,
                tail == t@.subrange(start as int, n as int),
                forall|j: int| start <= j < i ==> t@[j] != 0,
                spec_strlen(tail) == match spec_strlen(t@.subrange(i as int, n as int)) {
                    Some(m) => Some(((i - start) + m) as nat),
                    None => None,
                },
            decreases n - i,
        {
            if t[i] == 0 {
                assert(t@.subrange(i as int, n as int)[0] == 0);
                return Some(slice_subrange(t, start, i));
            }
            let ghost rest = t@.subrange(i as int, n as int);
            assert(rest.drop_first() =~= t@.subrange(i + 1, n as int));
            i = i + 1;
        }
        assert(t@.subrange(n as int, n as int).len() == 0);
        None
    }

    /// The name at `offset` in the string table.
    pub fn string(&self, offset: usize) -> (r: Option<&str>)
        ensures
            match r {
                Some(s) => spec_fst_name(
                    self.spec_table(),
                    self.spec_string_table_start(),
                    offset as nat,
                ) == Some(s.spec_bytes()),
                None => spec_fst_name(
                    self.spec_table(),
                    self.spec_string_table_start(),
                    offset as nat,
                ) is None,
            },
    {
        match self.string_bytes(offset) {
            Some(b) => str_from_utf8(b),
            None => None,
        }
    }

    /// Finds the disc offset and size of the file at `path`.
    pub fn find_file(&self, path: &str) -> (r: Result<(usize, usize), FstError>)
        ensures
            r matches Ok((o, s)) ==> spec_fst_lookup(
                self.spec_table(),
                self.spec_string_table_start(),
                path.spec_bytes(),
            ) == Ok::<(u32, u32), FstError>((o as u32, s as u32)),
            r matches Err(e) ==> spec_fst_lookup(
                self.spec_table(),
                self.spec_string_table_start(),
                path.spec_bytes(),
            ) == Err::<(u32, u32), FstError>(e),
    {
        let t = self.table_data.as_slice();
        let n = t.len();
        let mut rem: &[u8] = path.as_bytes();
        let mut dir_offset: usize = FILE_TABLE_ENTRY_SIZE;
        let mut end_offset: usize = self.string_table_start;
        let ghost target = spec_fst_lookup(t@, self.string_table_start as nat, rem@);
        loop
            invariant
                n == t@.len(),
                t@ == self.spec_table(),
                target == spec_fst_lookup(
                    self.spec_table(),
                    self.spec_string_table_start(),
                    path.spec_bytes(),
                ),
                target == spec_fst_walk(
                    t@,
                    self.string_table_start as nat,
                    dir_offset as nat,
                    end_offset as nat,
                    rem@,
                ),
            decreases (if dir_offset <= n {
                n - dir_offset + 1
            } else {
                0
            }),
        {
            if dir_offset >= end_offset {
                return Err(FstError::NotFound);
            }
            if dir_offset > n || n - dir_offset < FILE_TABLE_ENTRY_SIZE {
                return Err(FstError::Malformed);
            }
            let entry = FileTableEntry::read(t, dir_offset);
            let name = match self.string(entry.name_offset()) {
                Some(s) => s.as_bytes(),
                None => {
                    return Err(FstError::Malformed);
                },
            };
            if entry.is_file() {
                if eq_ignore_ascii_case(name, rem) {
                    return Ok(
                        (entry.data_or_parent_index as usize, entry.file_length_or_next_index as usize),
                    );
                }
                dir_offset = dir_offset + FILE_TABLE_ENTRY_SIZE;
            } else {
                let next64: u64 = FILE_TABLE_ENTRY_SIZE as u64 * entry.file_length_or_next_index as u64;
                let (dir_name, rest) = split_once(rem);
                if next64 > usize::MAX as u64 {
                    return Err(FstError::Malformed);
                }
                if eq_ignore_ascii_case(name, dir_name) {
                    match rest {
                        Some(sub_path) => {
                            end_offset = next64 as usize;
                            rem = sub_path;
                            dir_offset = dir_offset + FILE_TABLE_ENTRY_SIZE;
                        },
                        None => {
                            return Err(FstError::DirectoryPath);
                        },
                    }
                } else if next64 <= dir_offset as u64 {
                    return Err(FstError::BackwardSkip);
                } else {
                    dir_offset = next64 as usize;
                }
            }
        }
    }
}

/// Equality ignoring ASCII case is transitive and symmetric, so a name matches one of two
/// case-equal paths exactly when it matches the other.
proof fn lemma_eq_ignore_case_same_matches(name: Seq<u8>, p: Seq<u8>, q: Seq<u8>)
    requires
        spec_eq_ignore_ascii_case(p, q),
    ensures
        spec_eq_ignore_ascii_case(name, p) == spec_eq_ignore_ascii_case(name, q),
{
    if spec_eq_ignore_ascii_case(name, p) {
        assert forall|i: int| 0 <= i < name.len() implies spec_ascii_lower(#[trigger] name[i])
            == spec_ascii_lower(q[i]) by {
            assert(spec_ascii_lower(name[i]) == spec_ascii_lower(p[i]));
            assert(spec_ascii_lower(p[i]) == spec_ascii_lower(q[i]));
        }
    }
    if spec_eq_ignore_ascii_case(name, q) {
        assert forall|i: int| 0 <= i < name.len() implies spec_ascii_lower(#[trigger] name[i])
            == spec_ascii_lower(p[i]) by {
            assert(spec_ascii_lower(name[i]) == spec_ascii_lower(q[i]));
            assert(spec_ascii_lower(p[i]) == spec_ascii_lower(q[i]));
        }
    }
}

/// Paths equal ignoring ASCII case split at the same slash into parts equal ignoring case.
proof fn lemma_split_once_ignores_case(p: Seq<u8>, q: Seq<u8>)
    requires
        spec_eq_ignore_ascii_case(p, q),
    ensures
        spec_eq_ignore_ascii_case(spec_split_once(p).0, spec_split_once(q).0),
        spec_split_once(p).1 is Some <==> spec_split_once(q).1 is Some,
        spec_split_once(p).1 matches Some(a) ==> spec_eq_ignore_ascii_case(
            a,
            spec_split_once(q).1->0,
        ),
{
    assert forall|k: int| 0 <= k < p.len() implies (p[k] == 0x2f <==> q[k] == 0x2f) by {
        assert(spec_ascii_lower(p[k]) == spec_ascii_lower(q[k]));
    }
    if exists|k: int| 0 <= k < p.len() && p[k] == 0x2f {
        let kp = choose|k: int|
            0 <= k < p.len() && p[k] == 0x2f && forall|j: int| 0 <= j < k ==> p[j] != 0x2f;
        let w = choose|k: int| 0 <= k < p.len() && p[k] == 0x2f;
        assert(q[w] == 0x2f);
        let kq = choose|k: int|
            0 <= k < q.len() && q[k] == 0x2f && forall|j: int| 0 <= j < k ==> q[j] != 0x2f;
        lemma_first_slash_exists(p, w);
        lemma_first_slash_exists(q, w);
        if kp < kq {
            assert(q[kp] == 0x2f);
        } else if kq < kp {
            assert(p[kq] == 0x2f);
        }
        assert(kp == kq);
        let a = p.subrange(0, kp);
        let b = q.subrange(0, kp);
        assert forall|i: int| 0 <= i < a.len() implies spec_ascii_lower(#[trigger] a[i])
            == spec_ascii_lower(b[i]) by {
            assert(a[i] == p[i] && b[i] == q[i]);
        }
        let c = p.subrange(kp + 1, p.len() as int);
        let d = q.subrange(kp + 1, q.len() as int);
        assert forall|i: int| 0 <= i < c.len() implies spec_ascii_lower(#[trigger] c[i])
            == spec_ascii_lower(d[i]) by {
            assert(c[i] == p[kp + 1 + i] && d[i] == q[kp + 1 + i]);
        }
    } else {
        assert(!exists|k: int| 0 <= k < q.len() && q[k] == 0x2f) by {
            if exists|k: int| 0 <= k < q.len() && q[k] == 0x2f {
                let w = choose|k: int| 0 <= k < q.len() && q[k] == 0x2f;
                assert(p[w] == 0x2f);
            }
        }
    }
}

/// Where a path has a slash, it has a first one.
proof fn lemma_first_slash_exists(p: Seq<u8>, w: int)
    requires
        0 <= w < p.len(),
        p[w] == 0x2f,
    ensures
        exists|k: int| 0 <= k < p.len() && p[k] == 0x2f && forall|j: int| 0 <= j < k ==> p[j] != 0x2f,
    decreases w,
{
    if exists|j: int| 0 <= j < w && p[j] == 0x2f {
        let j = choose|j: int| 0 <= j < w && p[j] == 0x2f;
        lemma_first_slash_exists(p, j);
    } else {
        assert(forall|j: int| 0 <= j < w ==> p[j] != 0x2f);
    }
}

/// The walk over the table gives the same answer for two paths equal ignoring ASCII case.
proof fn lemma_fst_walk_ignores_case(t: Seq<u8>, sts: nat, dir: nat, end: nat, p: Seq<u8>, q: Seq<u8>)
    requires
        spec_eq_ignore_ascii_case(p, q),
    ensures
        spec_fst_walk(t, sts, dir, end, p) == spec_fst_walk(t, sts, dir, end, q),
    decreases (if dir <= t.len() {
        t.len() - dir + 1
    } else {
        0
    }),
{
    if dir >= end || dir + FILE_TABLE_ENTRY_SIZE > t.len() {
    } else {
        let word = spec_flags_and_name_offset(t, dir as int);
        let length_or_next = spec_file_length_or_next_index(t, dir as int);
        match spec_fst_name(t, sts, (word & 0x00ff_ffff) as nat) {
            None => {},
            Some(name) => {
                if word & 0xff00_0000 == 0 {
                    lemma_eq_ignore_case_same_matches(name, p, q);
                    lemma_fst_walk_ignores_case(t, sts, (dir + FILE_TABLE_ENTRY_SIZE) as nat, end, p, q);
                } else {
                    let next: nat = FILE_TABLE_ENTRY_SIZE as nat * (length_or_next as nat);
                    lemma_split_once_ignores_case(p, q);
                    let (dp, rp) = spec_split_once(p);
                    let (dq, rq) = spec_split_once(q);
                    lemma_eq_ignore_case_same_matches(name, dp, dq);
                    if next > usize::MAX {
                    } else if spec_eq_ignore_ascii_case(name, dp) {
                        if rp is Some {
                            lemma_fst_walk_ignores_case(
                                t,
                                sts,
                                (dir + FILE_TABLE_ENTRY_SIZE) as nat,
                                next,
                                rp->0,
                                rq->0,
                            );
                        }
                    } else if next <= dir {
                    } else {
                        lemma_fst_walk_ignores_case(t, sts, next, end, p, q);
                    }
                }
            },
        }
    }
}

/// Looking a file up ignores ASCII case: two paths equal but for the case of ASCII letters find
/// the same file, or fail in the same way.
pub proof fn lemma_fst_lookup_ignores_case(t: Seq<u8>, sts: nat, p: Seq<u8>, q: Seq<u8>)
    requires
        spec_eq_ignore_ascii_case(p, q),
    ensures
        spec_fst_lookup(t, sts, p) == spec_fst_lookup(t, sts, q),
{
    lemma_fst_walk_ignores_case(t, sts, FILE_TABLE_ENTRY_SIZE as nat, sts, p, q);
}

} // verus!
