//! The directory of a VPK archive set: a tree of extensions, parent directories and file stems
//! in the `_dir.vpk` index file, each file with its preloaded bytes and its place in one of the
//! numbered archive files.
use vstd::prelude::*;
use vstd::slice::slice_subrange;
#[allow(unused_imports)]
use vstd::string::*;

use crate::bytes::{spec_u16_le, spec_u32_le, str_from_utf8, u16_le_at, u32_le_at};
use crate::canonical_path::{all_canonical, spec_all_canonical, CanonicalPathBuf};
use crate::vpk_path::VpkPath;

verus! {

/// Size of the version 2 index header.
pub const HEADER_V2_SIZE: usize = 28;

/// Offset of the version field in the index header.
pub const HEADER_VERSION_OFFSET: usize = 4;

/// Offset of the tree size field in the index header.
pub const HEADER_TREE_SIZE_OFFSET: usize = 8;

/// The only index version that is read.
pub const SUPPORTED_VERSION: u32 = 2;

/// Size of a file's fixed record in the tree, after its stem.
pub const ENTRY_RECORD_SIZE: usize = 18;

/// The value that ends every file record.
pub const ENTRY_TERMINATOR: u16 = 0xffff;

/// The archive index of files stored in the index file itself, which is not read.
pub const ARCHIVE_INDEX_IN_DIRECTORY: u16 = 0x7fff;

/// Where a file's bytes are: preloaded in the index file, then in an archive file.
#[derive(Clone, Copy, Debug, PartialEq, Eq, Structural)]
pub struct DirectoryEntry {
    pub crc: u32,
    /// Offset of the preloaded bytes in the index file.
    pub preload_offset: usize,
    pub preload_bytes: u16,
    pub archive_index: u16,
    pub entry_offset: u32,
    pub entry_length: u32,
}

/// Why an index file could not be read.
#[derive(Clone, Copy, Debug, PartialEq, Eq, Structural)]
pub enum VpkError {
    /// The file is shorter than its header.
    TruncatedHeader,
    /// The header has a version other than 2.
    UnsupportedVersion(u32),
    /// The tree runs past the end of the file.
    TruncatedTree,
    /// A name in the tree has no terminating NUL.
    UnterminatedName,
    /// A name is not UTF-8, or not in canonical form.
    InvalidName,
    /// A file record runs past the end of the tree.
    TruncatedEntry,
    /// A file record does not end with 0xffff.
    BadTerminator,
    /// A file's preloaded bytes run past the end of the tree.
    TruncatedPreload,
}

/// A file of the tree, by extension, parent directory and stem.
pub struct EntryView {
    pub extension: Seq<char>,
    pub parent: Seq<char>,
    pub file_stem: Seq<char>,
    pub entry: DirectoryEntry,
}

/// A file of the tree, by extension, parent directory and stem.
pub struct VpkEntry {
    pub extension: CanonicalPathBuf,
    pub parent: CanonicalPathBuf,
    pub file_stem: CanonicalPathBuf,
    pub entry: DirectoryEntry,
}

impl View for VpkEntry {
    type V = EntryView;

    open spec fn view(&self) -> EntryView {
        EntryView {
            extension: self.extension@,
            parent: self.parent@,
            file_stem: self.file_stem@,
            entry: self.entry,
        }
    }
}

/// Where the tree parser stands: the offset in the tree, how deep it is (0: reading
/// extensions, 1: parents, 2: file stems), the current extension and parent, and the files read.
pub struct TreeState {
    pub pos: int,
    pub level: int,
    pub extension: Seq<char>,
    pub parent: Seq<char>,
    pub entries: Seq<EntryView>,
}

/// The first NUL in `t` at or after `k`.
pub open spec fn spec_find_nul(t: Seq<u8>, k: int) -> Option<int>
    decreases t.len() - k,
{
    if k < 0 || k >= t.len() {
        None
    } else if t[k] == 0 {
        Some(k)
    } else {
        spec_find_nul(t, k + 1)
    }
}

/// What `spec_find_nul` finds is a NUL at or after `k`, with none between.
pub proof fn lemma_find_nul(t: Seq<u8>, k: int)
    ensures
        spec_find_nul(t, k) matches Some(j) ==> {
            &&& 0 <= k <= j < t.len()
            &&& t[j] == 0
            &&& forall|i: int| k <= i < j ==> t[i] != 0
        },
        spec_find_nul(t, k) is None ==> forall|i: int| 0 <= k <= i < t.len() ==> t[i] != 0,
    decreases t.len() - k,
{
    if k >= 0 && k < t.len() && t[k] != 0 {
        lemma_find_nul(t, k + 1);
    }
}

/// Whether a name in the tree is UTF-8 text in canonical form.
pub open spec fn spec_name_ok(b: Seq<u8>) -> bool {
    vstd::utf8::valid_utf8(b) && spec_all_canonical(vstd::utf8::decode_utf8(b))
}

/// The file record whose fixed part starts at `p` in the tree, after the stem `stem`.
pub open spec fn spec_entry_at(t: Seq<u8>, p: int) -> DirectoryEntry {
    DirectoryEntry {
        crc: spec_u32_le(t, p),
        preload_offset: (HEADER_V2_SIZE + p + ENTRY_RECORD_SIZE) as usize,
        preload_bytes: spec_u16_le(t, p + 4),
        archive_index: spec_u16_le(t, p + 6),
        entry_offset: spec_u32_le(t, p + 8),
        entry_length: spec_u32_le(t, p + 12),
    }
}

/// Parses the rest of the tree `t` from `st`: names end with a NUL, an empty name closes the
/// current level, and each file stem is followed by its 18-byte record and its preloaded bytes.
pub open spec fn spec_parse_tree(t: Seq<u8>, st: TreeState) -> Result<Seq<EntryView>, VpkError>
    decreases t.len() - st.pos,
{
    proof {
        lemma_find_nul(t, st.pos);
    }
    match spec_find_nul(t, st.pos) {
        None => Err(VpkError::UnterminatedName),
        Some(k) => {
            let s = t.subrange(st.pos, k);
            if !vstd::utf8::valid_utf8(s) {
                Err(VpkError::InvalidName)
            } else if s.len() == 0 {
                if st.level <= 0 {
                    Ok(st.entries)
                } else {
                    spec_parse_tree(t, TreeState { pos: k + 1, level: st.level - 1, ..st })
                }
            } else if !spec_name_ok(s) {
                Err(VpkError::InvalidName)
            } else if st.level <= 0 {
                spec_parse_tree(
                    t,
                    TreeState { pos: k + 1, level: 1, extension: vstd::utf8::decode_utf8(s), ..st },
                )
            } else if st.level == 1 {
                spec_parse_tree(
                    t,
                    TreeState { pos: k + 1, level: 2, parent: vstd::utf8::decode_utf8(s), ..st },
                )
            } else {
                let p = k + 1;
                if p + ENTRY_RECORD_SIZE > t.len() {
                    Err(VpkError::TruncatedEntry)
                } else if spec_u16_le(t, p + 16) != ENTRY_TERMINATOR {
                    Err(VpkError::BadTerminator)
                } else {
                    let e = spec_entry_at(t, p);
                    let next = p + ENTRY_RECORD_SIZE + e.preload_bytes;
                    if next > t.len() {
                        Err(VpkError::TruncatedPreload)
                    } else {
                        spec_parse_tree(
                            t,
                            TreeState {
                                pos: next,
                                entries: st.entries.push(
                                    EntryView {
                                        extension: st.extension,
                                        parent: st.parent,
                                        file_stem: vstd::utf8::decode_utf8(s),
                                        entry: e,
                                    },
                                ),
                                ..st
                            },
                        )
                    }
                }
            }
        },
    }
}

/// The parser's state at the start of a tree.
pub open spec fn spec_tree_start() -> TreeState {
    TreeState {
        pos: 0,
        level: 0,
        extension: Seq::empty(),
        parent: Seq::empty(),
        entries: Seq::empty(),
    }
}

/// The tree of an index file `d`, or why it cannot be read.
pub open spec fn spec_index_tree(d: Seq<u8>) -> Result<Seq<u8>, VpkError> {
    if d.len() < HEADER_V2_SIZE {
        Err(VpkError::TruncatedHeader)
    } else if spec_u32_le(d, HEADER_VERSION_OFFSET as int) != SUPPORTED_VERSION {
        Err(VpkError::UnsupportedVersion(spec_u32_le(d, HEADER_VERSION_OFFSET as int)))
    } else if HEADER_V2_SIZE + spec_u32_le(d, HEADER_TREE_SIZE_OFFSET as int) > d.len() {
        Err(VpkError::TruncatedTree)
    } else {
        Ok(
            d.subrange(
                HEADER_V2_SIZE as int,
                HEADER_V2_SIZE + spec_u32_le(d, HEADER_TREE_SIZE_OFFSET as int),
            ),
        )
    }
}

/// The files of an index file `d`, in the order of the tree, or why it cannot be read.
pub open spec fn spec_parse_index(d: Seq<u8>) -> Result<Seq<EntryView>, VpkError> {
    match spec_index_tree(d) {
        Err(e) => Err(e),
        Ok(t) => spec_parse_tree(t, spec_tree_start()),
    }
}

/// The index of the last file of `entries` with the given extension, parent and stem: the file
/// a lookup finds, since a later record of the same file replaces an earlier one.
pub open spec fn spec_last_match(
    entries: Seq<EntryView>,
    extension: Seq<char>,
    parent: Seq<char>,
    file_stem: Seq<char>,
) -> Option<int>
    decreases entries.len(),
{
    if entries.len() == 0 {
        None
    } else {
        let e = entries.last();
        if e.extension == extension && e.parent == parent && e.file_stem == file_stem {
            Some(entries.len() - 1)
        } else {
            spec_last_match(entries.drop_last(), extension, parent, file_stem)
        }
    }
}

/// A lookup finds the last file of the tree whose extension, parent directory and stem all equal
/// the ones asked for: the index it gives names such a file and no later file is one, and when it
/// gives none, no file of the tree is one.
pub proof fn lemma_last_match_is_last_full_match(
    entries: Seq<EntryView>,
    extension: Seq<char>,
    parent: Seq<char>,
    file_stem: Seq<char>,
)
    ensures
        match spec_last_match(entries, extension, parent, file_stem) {
            Some(i) => {
                &&& 0 <= i < entries.len()
                &&& entries[i].extension == extension
                &&& entries[i].parent == parent
                &&& entries[i].file_stem == file_stem
                &&& forall|j: int|
                    i < j < entries.len() ==> !(#[trigger] entries[j].extension == extension
                        && entries[j].parent == parent && entries[j].file_stem == file_stem)
            },
            None => forall|j: int|
                0 <= j < entries.len() ==> !(#[trigger] entries[j].extension == extension
                    && entries[j].parent == parent && entries[j].file_stem == file_stem),
        },
    decreases entries.len(),
{
    if entries.len() > 0 {
        let rest = entries.drop_last();
        lemma_last_match_is_last_full_match(rest, extension, parent, file_stem);
        assert forall|j: int| 0 <= j < rest.len() implies rest[j] == entries[j] by {}
    }
}

/// The decimal digits of `n`, most significant first, padded with zeros to at least `width`.
pub open spec fn spec_decimal(n: nat, width: nat) -> Seq<char>
    decreases width, n,
{
    if n < 10 && width <= 1 {
        seq![(('0' as u32) + n) as char]
    } else {
        spec_decimal(n / 10, if width > 0 { (width - 1) as nat } else { 0 }).push(
            (('0' as u32) + n % 10) as char,
        )
    }
}

/// Returns the decimal digits of `n`, padded with zeros to at least `width`.
pub fn decimal(n: u32, width: u32) -> (r: String)
    ensures
        r@ == spec_decimal(n as nat, width as nat),
    decreases width, n,
{
    if n < 10 && width <= 1 {
        let mut s = String::new();
        crate::canonical_path::string_push(&mut s, char_digit(n));
        assert(s@ =~= seq![(('0' as u32) + n) as char]);
        s
    } else {
        let mut s = decimal(n / 10, if width > 0 { width - 1 } else { 0 });
        crate::canonical_path::string_push(&mut s, char_digit(n % 10));
        s
    }
}

/// The character of the decimal digit `d`.
fn char_digit(d: u32) -> (r: char)
    requires
        d < 10,
    ensures
        r == (('0' as u32) + d) as char,
{
    match d {
        0 => '0',
        1 => '1',
        2 => '2',
        3 => '3',
        4 => '4',
        5 => '5',
        6 => '6',
        7 => '7',
        8 => '8',
        _ => '9',
    }
}

/// Appends the characters of `s` to `out`.
fn push_str(out: &mut String, s: &str)
    ensures
        final(out)@ == old(out)@ + s@,
{
    let n = s.unicode_len();
    let mut i: usize = 0;
    while i < n
        invariant
            n == s@.len(),
            i <= n,
            out@ == old(out)@ + s@.subrange(0, i as int),
        decreases n - i,
    {
        crate::canonical_path::string_push(out, s.get_char(i));
        assert(s@.subrange(0, i + 1) =~= s@.subrange(0, i as int).push(s@[i as int]));
        i = i + 1;
    }
    assert(s@.subrange(0, n as int) =~= s@);
}

/// The name of the index file of the archive set `base_name`: `{base_name}_dir.vpk`.
pub fn index_file_name(base_name: &str) -> (r: String)
    ensures
        r@ == base_name@ + "_dir.vpk"@,
{
    let mut s = String::new();
    push_str(&mut s, base_name);
    push_str(&mut s, "_dir.vpk");
    assert(s@ =~= base_name@ + "_dir.vpk"@);
    s
}

/// The name of archive file `index` of the archive set `base_name`: `{base_name}_{index}.vpk`,
/// with the index written in at least three digits.
pub fn archive_file_name(base_name: &str, index: u16) -> (r: String)
    ensures
        r@ == base_name@ + "_"@ + spec_decimal(index as nat, 3) + ".vpk"@,
{
    let mut s = String::new();
    push_str(&mut s, base_name);
    push_str(&mut s, "_");
    let digits = decimal(index as u32, 3);
    push_str(&mut s, digits.as_str());
    push_str(&mut s, ".vpk");
    assert(s@ =~= base_name@ + "_"@ + spec_decimal(index as nat, 3) + ".vpk"@);
    s
}

/// Whether two strings have the same characters.
fn same_chars(a: &str, b: &str) -> (r: bool)
    ensures
        r == (a@ == b@),
{
    let x = a.as_bytes();
    let y = b.as_bytes();
    proof {
        vstd::utf8::encode_utf8_decode_utf8(a@);
        vstd::utf8::encode_utf8_decode_utf8(b@);
    }
    if x.len() != y.len() {
        return false;
    }
    let n = x.len();
    let mut i: usize = 0;
    while i < n
        invariant
            n == x@.len(),
            n == y@.len(),
            i <= n,
            x@ == a.spec_bytes(),
            y@ == b.spec_bytes(),
            forall|j: int| 0 <= j < i ==> x@[j] == y@[j],
        decreases n - i,
    {
        if x[i] != y[i] {
            return false;
        }
        i = i + 1;
    }
    assert(x@ =~= y@);
    proof {
        vstd::utf8::encode_utf8_decode_utf8(a@);
        vstd::utf8::encode_utf8_decode_utf8(b@);
    }
    true
}

/// The set of files of an archive set, read from its index file.
pub struct Vpk {
    base_name: String,
    index_data: Vec<u8>,
    entries: Vec<VpkEntry>,
}

impl Vpk {
    /// The files, in the order of the tree.
    pub closed spec fn spec_entries(&self) -> Seq<EntryView> {
        self.entries@.map_values(|e: VpkEntry| e@)
    }

    /// The bytes of the index file.
    pub closed spec fn spec_index_data(&self) -> Seq<u8> {
        self.index_data@
    }

    /// The name of the archive set.
    pub closed spec fn spec_base_name(&self) -> Seq<char> {
        self.base_name@
    }

    /// Reads the index file `index_data` of the archive set `base_name`.
    pub fn new(base_name: String, index_data: Vec<u8>) -> (r: Result<Vpk, VpkError>)
        ensures
            match spec_parse_index(index_data@) {
                Ok(entries) => r matches Ok(v) && v.spec_entries() == entries
                    && v.spec_index_data() == index_data@ && v.spec_base_name() == base_name@,
                Err(e) => r == Err::<Vpk, VpkError>(e),
            },
    {
        let d = index_data.as_slice();
        if d.len() < HEADER_V2_SIZE {
            return Err(VpkError::TruncatedHeader);
        }
        let version = u32_le_at(d, HEADER_VERSION_OFFSET);
        if version != SUPPORTED_VERSION {
            return Err(VpkError::UnsupportedVersion(version));
        }
        let tree_size = u32_le_at(d, HEADER_TREE_SIZE_OFFSET) as usize;
        if tree_size > d.len() - HEADER_V2_SIZE {
            return Err(VpkError::TruncatedTree);
        }
        let t = slice_subrange(d, HEADER_V2_SIZE, HEADER_V2_SIZE + tree_size);
        match parse_tree(t) {
            Ok(entries) => Ok(Vpk { base_name, index_data, entries }),
            Err(e) => Err(e),
        }
    }

    /// The file at `path`, if the archive set has it.
    pub fn lookup(&self, path: &VpkPath) -> (r: Option<DirectoryEntry>)
        ensures
            r == (match spec_last_match(
                self.spec_entries(),
                path.spec_extension(),
                path.spec_parent(),
                path.spec_file_stem(),
            ) {
                Some(i) => Some(self.spec_entries()[i].entry),
                None => None,
            }),
            r matches Some(d) ==> exists|i: int|
                0 <= i < self.spec_entries().len() && #[trigger] self.spec_entries()[i].entry == d
                    && self.spec_entries()[i].extension == path.spec_extension()
                    && self.spec_entries()[i].parent == path.spec_parent()
                    && self.spec_entries()[i].file_stem == path.spec_file_stem(),
            r is None ==> forall|i: int|
                0 <= i < self.spec_entries().len() ==> !(#[trigger] self.spec_entries()[i].extension
                    == path.spec_extension() && self.spec_entries()[i].parent == path.spec_parent()
                    && self.spec_entries()[i].file_stem == path.spec_file_stem()),
    {
        proof {
            lemma_last_match_is_last_full_match(
                self.spec_entries(),
                path.spec_extension(),
                path.spec_parent(),
                path.spec_file_stem(),
            );
        }
        let extension = path.extension();
        let parent = path.parent();
        let file_stem = path.file_stem();
        let ghost all = self.spec_entries();
        let mut i = self.entries.len();
        assert(all.subrange(0, i as int) =~= all);
        while i > 0
            invariant
                i <= self.entries@.len(),
                all == self.spec_entries(),
                extension@ == path.spec_extension(),
                parent@ == path.spec_parent(),
                file_stem@ == path.spec_file_stem(),
                spec_last_match(all, extension@, parent@, file_stem@) == spec_last_match(
                    all.subrange(0, i as int),
                    extension@,
                    parent@,
                    file_stem@,
                ),
            decreases i,
        {
            let e = &self.entries[i - 1];
            proof {
                assert(all.subrange(0, i as int).last() == e@);
                assert(all.subrange(0, i as int).drop_last() =~= all.subrange(0, i - 1));
            }
            if same_chars(e.extension.as_str(), extension.as_str()) && same_chars(
                e.parent.as_str(),
                parent.as_str(),
            ) && same_chars(e.file_stem.as_str(), file_stem.as_str()) {
                return Some(e.entry);
            }
            i = i - 1;
        }
        None
    }

    /// The size of the index file.
    pub fn index_len(&self) -> (r: usize)
        ensures
            r == self.spec_index_data().len(),
    {
        self.index_data.len()
    }

    /// The preloaded bytes of `entry` in the index file.
    pub fn preload(&self, entry: &DirectoryEntry) -> (r: &[u8])
        requires
            entry.preload_offset + entry.preload_bytes <= self.spec_index_data().len(),
        ensures
            r@ == self.spec_index_data().subrange(
                entry.preload_offset as int,
                entry.preload_offset + entry.preload_bytes,
            ),
    {
        let _n = self.index_data.len();
        slice_subrange(
            self.index_data.as_slice(),
            entry.preload_offset,
            entry.preload_offset + entry.preload_bytes as usize,
        )
    }

    /// The name of the archive file that holds the rest of `entry`.
    pub fn archive_name(&self, entry: &DirectoryEntry) -> (r: String)
        ensures
            r@ == self.spec_base_name() + "_"@ + spec_decimal(entry.archive_index as nat, 3)
                + ".vpk"@,
    {
        archive_file_name(self.base_name.as_str(), entry.archive_index)
    }

    /// The file's contents: its preloaded bytes, then its bytes in `archive`, the archive file
    /// that [`Vpk::archive_name`] names.
    pub fn assemble(&self, entry: &DirectoryEntry, archive: &[u8]) -> (r: Vec<u8>)
        requires
            entry.preload_offset + entry.preload_bytes <= self.spec_index_data().len(),
            entry.archive_index != ARCHIVE_INDEX_IN_DIRECTORY,
            entry.entry_offset + entry.entry_length <= archive@.len(),
        ensures
            r@ == self.spec_index_data().subrange(
                entry.preload_offset as int,
                entry.preload_offset + entry.preload_bytes,
            ) + archive@.subrange(
                entry.entry_offset as int,
                entry.entry_offset + entry.entry_length,
            ),
    {
        let mut data = vstd::slice::slice_to_vec(self.preload(entry));
        let _n = archive.len();
        let start = entry.entry_offset as usize;
        let end = start + entry.entry_length as usize;
        let mut tail = vstd::slice::slice_to_vec(slice_subrange(archive, start, end));
        data.append(&mut tail);
        data
    }
}

/// Checks a name of the tree: UTF-8 text in canonical form.
fn name_from_bytes(b: &[u8]) -> (r: Option<CanonicalPathBuf>)
    ensures
        r is Some <==> spec_name_ok(b@),
        r matches Some(p) ==> p@ == vstd::utf8::decode_utf8(b@),
{
    match str_from_utf8(b) {
        None => None,
        Some(s) => {
            proof {
                vstd::utf8::encode_utf8_decode_utf8(s@);
            }
            if all_canonical(s) {
                CanonicalPathBuf::from_string(s.to_string())
            } else {
                None
            }
        },
    }
}

/// The first NUL in `t` at or after `k`.
fn find_nul(t: &[u8], k: usize) -> (r: Option<usize>)
    ensures
        r matches Some(j) ==> spec_find_nul(t@, k as int) == Some(j as int),
        r is None ==> spec_find_nul(t@, k as int) is None,
{
    proof {
        lemma_find_nul(t@, k as int);
    }
    let mut i = k;
    while i < t.len()
        invariant
            k <= i,
            spec_find_nul(t@, k as int) == spec_find_nul(t@, i as int),
        decreases t.len() - i,
    {
        if t[i] == 0 {
            return Some(i);
        }
        i = i + 1;
    }
    None
}

/// Parses a whole tree.
fn parse_tree(t: &[u8]) -> (r: Result<Vec<VpkEntry>, VpkError>)
    requires
        HEADER_V2_SIZE + t@.len() <= usize::MAX,
    ensures
        match spec_parse_tree(t@, spec_tree_start()) {
            Ok(entries) => r matches Ok(v) && v@.map_values(|e: VpkEntry| e@) == entries,
            Err(e) => r == Err::<Vec<VpkEntry>, VpkError>(e),
        },
{
    let ghost start = spec_tree_start();
    let mut pos: usize = 0;
    let mut level: u8 = 0;
    let mut extension = CanonicalPathBuf::new();
    let mut parent = CanonicalPathBuf::new();
    let mut entries: Vec<VpkEntry> = Vec::new();
    assert(entries@.map_values(|e: VpkEntry| e@) =~= Seq::<EntryView>::empty());
    loop
        invariant
            start == spec_tree_start(),
            HEADER_V2_SIZE + t@.len() <= usize::MAX,
            pos <= t@.len(),
            level <= 2,
            spec_parse_tree(t@, start) == spec_parse_tree(
                t@,
                TreeState {
                    pos: pos as int,
                    level: level as int,
                    extension: extension@,
                    parent: parent@,
                    entries: entries@.map_values(|e: VpkEntry| e@),
                },
            ),
        decreases t@.len() - pos,
    {
        let ghost st = TreeState {
            pos: pos as int,
            level: level as int,
            extension: extension@,
            parent: parent@,
            entries: entries@.map_values(|e: VpkEntry| e@),
        };
        proof {
            lemma_find_nul(t@, pos as int);
        }
        let k = match find_nul(t, pos) {
            None => {
                assert(spec_parse_tree(t@, st) == Err::<Seq<EntryView>, VpkError>(
                    VpkError::UnterminatedName,
                ));

                return Err(VpkError::UnterminatedName);
            },
            Some(k) => k,
        };
        assert(spec_find_nul(t@, pos as int) == Some(k as int));
        assert(pos <= k < t@.len());
        let s = slice_subrange(t, pos, k);
        assert(s@ == t@.subrange(pos as int, k as int));
        if str_from_utf8(s).is_none() {
            assert(spec_parse_tree(t@, st) == Err::<Seq<EntryView>, VpkError>(VpkError::InvalidName));
            return Err(VpkError::InvalidName);
        }
        if k == pos {
            assert(s@.len() == 0);
            if level == 0 {
                return Ok(entries);
            }
            level = level - 1;
            pos = k + 1;
        } else {
            let name = match name_from_bytes(s) {
                None => {
                    return Err(VpkError::InvalidName);
                },
                Some(n) => n,
            };
            if level == 0 {
                extension = name;
                level = 1;
                pos = k + 1;
            } else if level == 1 {
                parent = name;
                level = 2;
                pos = k + 1;
            } else {
                let p = k + 1;
                if ENTRY_RECORD_SIZE > t.len() - p {
                    return Err(VpkError::TruncatedEntry);
                }
                if u16_le_at(t, p + 16) != ENTRY_TERMINATOR {
                    return Err(VpkError::BadTerminator);
                }
                let preload_bytes = u16_le_at(t, p + 4);
                let entry = DirectoryEntry {
                    crc: u32_le_at(t, p),
                    preload_offset: HEADER_V2_SIZE + p + ENTRY_RECORD_SIZE,
                    preload_bytes,
                    archive_index: u16_le_at(t, p + 6),
                    entry_offset: u32_le_at(t, p + 8),
                    entry_length: u32_le_at(t, p + 12),
                };
                assert(entry == spec_entry_at(t@, p as int));
                if preload_bytes as usize > t.len() - p - ENTRY_RECORD_SIZE {
                    return Err(VpkError::TruncatedPreload);
                }
                let ghost old_entries = entries@.map_values(|e: VpkEntry| e@);
                entries.push(
                    VpkEntry {
                        extension: extension.clone(),
                        parent: parent.clone(),
                        file_stem: name,
                        entry,
                    },
                );
                assert(entries@.map_values(|e: VpkEntry| e@) =~= old_entries.push(
                    EntryView {
                        extension: extension@,
                        parent: parent@,
                        file_stem: vstd::utf8::decode_utf8(s@),
                        entry: entry,
                    },
                ));
                pos = p + ENTRY_RECORD_SIZE + preload_bytes as usize;
            }
        }
    }
}

} // verus!
