//! Loading files by VPK path from a chain of sources.
use vstd::prelude::*;

use std::rc::Rc;

use crate::vpk_path::VpkPath;

verus! {

/// Why a file could not be loaded.
#[derive(Clone, Debug, PartialEq, Eq)]
pub enum FileError {
    /// None of the sources has the file; the path is given.
    NotFound(String),
    /// A source failed; its message is given.
    Source(String),
}

/// A source of files.
pub trait FileLoader {
    /// Whether `r` is an answer this source may give for the file at `path`. A source that
    /// states nothing of its answers may give any.
    open spec fn spec_answers(&self, path: Seq<char>, r: Result<Option<Vec<u8>>, FileError>) -> bool {
        true
    }

    /// The file's contents, `None` when this source does not have it.
    fn load_file(&self, path: &VpkPath) -> (r: Result<Option<Vec<u8>>, FileError>)
        ensures
            self.spec_answers(path@, r),
    ;
}

/// What the fallback does with one source's answer.
#[derive(Debug)]
pub enum FallbackStep {
    /// The source does not have the file: ask the next one.
    Next,
    /// The answer is final: the file found, or the source's failure.
    Return(Result<Option<Vec<u8>>, FileError>),
}

/// Decides on one source's answer: a missing file moves on to the next source; a file found or a
/// failure is returned as it came.
pub fn fallback_step(r: Result<Option<Vec<u8>>, FileError>) -> (s: FallbackStep)
    ensures
        (r matches Ok(None)) <==> s is Next,
        !(r matches Ok(None)) ==> s == FallbackStep::Return(r),
{
    match r {
        Ok(None) => FallbackStep::Next,
        other => FallbackStep::Return(other),
    }
}

/// Whether `r` is an answer of the chain of sources `loaders` for the file at `path`: the first
/// answer of a source that is not "not here", asking the sources in order, or `NotFound` with the
/// path when every source says it does not have the file.
pub open spec fn spec_chain_answers<'a>(
    loaders: Seq<Box<Rc<dyn FileLoader + 'a>>>,
    path: Seq<char>,
    r: Result<Option<Vec<u8>>, FileError>,
) -> bool
    decreases loaders.len(),
{
    if loaders.len() == 0 {
        r matches Err(FileError::NotFound(p)) && p@ == path
    } else {
        ||| loaders[0].spec_answers(path, Ok(None)) && spec_chain_answers(loaders.drop_first(), path, r)
        ||| !(r matches Ok(None)) && loaders[0].spec_answers(path, r)
    }
}

/// Tries each of its sources in turn and returns the first file found.
pub struct FallbackFileLoader<'a> {
    loaders: Vec<Box<Rc<dyn FileLoader + 'a>>>,
}

impl<'a> FallbackFileLoader<'a> {
    /// The number of sources.
    pub closed spec fn spec_len(&self) -> nat {
        self.loaders@.len()
    }

    /// The sources, in the order they are asked.
    pub closed spec fn spec_loaders(&self) -> Seq<Box<Rc<dyn FileLoader + 'a>>> {
        self.loaders@
    }

    /// A loader over the given sources, tried in order.
    pub fn new(loaders: Vec<Box<Rc<dyn FileLoader + 'a>>>) -> (r: Self)
        ensures
            r.spec_len() == loaders@.len(),
            r.spec_loaders() == loaders@,
    {
        Self { loaders }
    }
}

impl<'a> FileLoader for FallbackFileLoader<'a> {
    /// The answers of the chain of its sources.
    open spec fn spec_answers(&self, path: Seq<char>, r: Result<Option<Vec<u8>>, FileError>) -> bool {
        spec_chain_answers(self.spec_loaders(), path, r)
    }

    /// Asks each source in order; the first file found is returned, the first failure is
    /// returned, and when no source has the file the result is `NotFound` with the path.
    fn load_file(&self, path: &VpkPath) -> (r: Result<Option<Vec<u8>>, FileError>)
        ensures
            !(r matches Ok(None)),
            self.spec_len() == 0 ==> (r matches Err(FileError::NotFound(p)) && p@ == path@),
            spec_chain_answers(self.spec_loaders(), path@, r),
    {
        let n = self.loaders.len();
        let ghost all = self.loaders@;
        let mut i: usize = 0;
        assert(all.skip(0) =~= all);
        while i < n
            invariant
                n == self.loaders@.len(),
                n == self.spec_len(),
                all == self.loaders@,
                all == self.spec_loaders(),
                i <= n,
                forall|q: Result<Option<Vec<u8>>, FileError>|
                    spec_chain_answers(all.skip(i as int), path@, q) ==> #[trigger] spec_chain_answers(
                        all,
                        path@,
                        q,
                    ),
            decreases n - i,
        {
            let answer = self.loaders[i].load_file(path);
            proof {
                assert(all.skip(i as int)[0] == all[i as int]);
                assert(all.skip(i as int).drop_first() =~= all.skip(i + 1));
            }
            match fallback_step(answer) {
                FallbackStep::Next => {},
                FallbackStep::Return(r) => {
                    assert(spec_chain_answers(all.skip(i as int), path@, r));
                    return r;
                },
            }
            i = i + 1;
        }
        assert(all.skip(n as int).len() == 0);
        Err(FileError::NotFound(path.to_string()))
    }
}

} // verus!
