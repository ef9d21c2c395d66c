//! Where maps come from: the map list file and the paths of map files for each kind of loader.
use vstd::prelude::*;
use vstd::string::*;

use crate::iso9660::{spec_walk_start, DirectoryWalk, DiscReader, WalkMode};

verus! {

/// The newline byte.
pub const NEWLINE: u8 = 0x0a;

/// The pieces of `s` between newlines, as `[u8]::split` gives them: one more piece than there are
/// newlines, some of them possibly empty.
pub open spec fn spec_segments(s: Seq<u8>) -> Seq<Seq<u8>>
    decreases s.len(),
{
    if s.len() == 0 {
        seq![Seq::<u8>::empty()]
    } else if s.last() == NEWLINE {
        spec_segments(s.drop_last()).push(Seq::<u8>::empty())
    } else {
        let segs = spec_segments(s.drop_last());
        segs.update(segs.len() - 1, segs.last().push(s.last()))
    }
}

/// Whether a line has at least one byte.
pub open spec fn spec_nonempty(l: Seq<u8>) -> bool {
    l.len() > 0
}

/// The non-empty lines of a map list file, in order.
pub open spec fn spec_map_list(s: Seq<u8>) -> Seq<Seq<u8>> {
    spec_segments(s).filter(|l: Seq<u8>| spec_nonempty(l))
}

proof fn lemma_segments_nonempty(s: Seq<u8>)
    ensures
        spec_segments(s).len() >= 1,
    decreases s.len(),
{
    if s.len() > 0 {
        lemma_segments_nonempty(s.drop_last());
    }
}

/// Returns the non-empty lines of a map list file, in order.
pub fn map_list(data: &[u8]) -> (r: Vec<Vec<u8>>)
    ensures
        r@.map_values(|l: Vec<u8>| l@) == spec_map_list(data@),
{
    let ghost pred = |l: Seq<u8>| spec_nonempty(l);
    let mut done: Vec<Vec<u8>> = Vec::new();
    let mut cur: Vec<u8> = Vec::new();
    let n = data.len();
    let mut i: usize = 0;
    while i < n
        invariant
            n == data@.len(),
            i <= n,
            pred == (|l: Seq<u8>| spec_nonempty(l)),
            spec_segments(data@.subrange(0, i as int)).len() >= 1,
            spec_segments(data@.subrange(0, i as int)).last() == cur@,
            spec_segments(data@.subrange(0, i as int)).drop_last().filter(pred) == done@.map_values(
                |l: Vec<u8>| l@,
            ),
        decreases n - i,
    {
        let ghost prefix = data@.subrange(0, i as int);
        let ghost next = data@.subrange(0, i + 1);
        assert(next.drop_last() =~= prefix);
        assert(next.last() == data@[i as int]);
        proof {
            lemma_segments_nonempty(prefix);
        }
        if data[i] == NEWLINE {
            let ghost before = done@.map_values(|l: Vec<u8>| l@);
            let ghost segs = spec_segments(prefix);
            assert(spec_segments(next).drop_last() =~= segs);
            assert(segs =~= segs.drop_last().push(segs.last()));
            proof {
                reveal_with_fuel(Seq::<_>::filter, 1);
            }
            if cur.len() > 0 {
                let line = cur;
                done.push(line);
                assert(done@.map_values(|l: Vec<u8>| l@) =~= before.push(segs.last()));
            } else {
                assert(!pred(segs.last()));
            }
            cur = Vec::new();
            assert(spec_segments(next).last() =~= cur@);
        } else {
            let ghost segs = spec_segments(prefix);
            cur.push(data[i]);
            assert(spec_segments(next).drop_last() =~= segs.drop_last());
        }
        i = i + 1;
    }
    assert(data@.subrange(0, n as int) =~= data@);
    let ghost segs = spec_segments(data@);
    let ghost before = done@.map_values(|l: Vec<u8>| l@);
    assert(segs =~= segs.drop_last().push(segs.last()));
    proof {
        reveal_with_fuel(Seq::<_>::filter, 1);
    }
    if cur.len() > 0 {
        done.push(cur);
        assert(done@.map_values(|l: Vec<u8>| l@) =~= before.push(segs.last()));
    }
    done
}

/// The path of a map's data file on a GameCube disc image: `maps/<map>.dat`.
pub fn gcm_map_path(map: &str) -> (r: String)
    ensures
        r@ == "maps/"@ + map@ + ".dat"@,
{
    let mut s = String::from_str("maps/");
    s.append(map);
    s.append(".dat");
    s
}

/// The path of a map's data file on an ISO 9660 disc image: `maps/<map>`.
pub fn iso_map_path(map: &str) -> (r: String)
    ensures
        r@ == "maps/"@ + map@,
{
    let mut s = String::from_str("maps/");
    s.append(map);
    s
}

/// The path of a map's data file on the FTP server: `<map>.dat`.
pub fn ftp_map_path(map: &str) -> (r: String)
    ensures
        r@ == map@ + ".dat"@,
{
    let mut s = String::from_str(map);
    s.append(".dat");
    s
}

/// A loader for the single map built into the program.
pub struct EmbeddedLoader;

impl EmbeddedLoader {
    /// The name of the built-in map.
    pub open spec fn spec_map_name() -> Seq<char> {
        "embedded"@
    }

    /// Creates the loader.
    pub fn new() -> (r: Self) {
        EmbeddedLoader
    }

    /// The maps this loader offers: only the built-in one.
    pub fn maps(&mut self) -> (r: Vec<String>)
        ensures
            r@.len() == 1,
            r@[0]@ == Self::spec_map_name(),
    {
        let mut v: Vec<String> = Vec::new();
        v.push(String::from_str("embedded"));
        v
    }
}


/// A loader that reads maps from the `maps` directory of an ISO 9660 disc.
pub struct DvdIsoLoader {
    disc_reader: DiscReader,
}

impl DvdIsoLoader {
    /// A loader over the disc that `disc_reader` reads.
    pub fn new(disc_reader: DiscReader) -> (r: Self)
        ensures
            r.spec_disc_reader() == disc_reader,
    {
        DvdIsoLoader { disc_reader }
    }

    /// The disc reader.
    pub closed spec fn spec_disc_reader(&self) -> DiscReader {
        self.disc_reader
    }

    /// Starts listing the maps: the names in the `maps` directory.
    pub fn maps(&self) -> (r: DirectoryWalk)
        ensures
            r@ == spec_walk_start(
                WalkMode::List,
                vstd::utf8::encode_utf8("maps"@),
                self.spec_disc_reader().spec_root_directory_extent().start as nat,
                self.spec_disc_reader().spec_root_directory_extent().end as nat,
            ),
    {
        self.disc_reader.list_directory("maps")
    }

    /// Starts reading map `map`: the file `maps/<map>`.
    pub fn load_map(&self, map: &str) -> (r: DirectoryWalk)
        ensures
            r@ == spec_walk_start(
                WalkMode::Read,
                vstd::utf8::encode_utf8("maps/"@ + map@),
                self.spec_disc_reader().spec_root_directory_extent().start as nat,
                self.spec_disc_reader().spec_root_directory_extent().end as nat,
            ),
    {
        let path = iso_map_path(map);
        self.disc_reader.read_file(path.as_str())
    }
}

} // verus!
