//! Paths of files inside a VPK archive: a canonical path split into parent directory, file stem
//! and extension.
use vstd::prelude::*;
use vstd::string::*;

use crate::canonical_path::{
    display_canonical, spec_all_canonical, spec_canonicalize, lemma_canonicalize_canonical,
    CanonicalPath, CanonicalPathBuf,
};

verus! {

/// `i` is the index of the last occurrence of `c` in `s`.
pub open spec fn spec_is_last_index(s: Seq<char>, c: char, i: int) -> bool {
    &&& 0 <= i < s.len()
    &&& s[i] == c
    &&& forall|j: int| i < j < s.len() ==> s[j] != c
}

/// The index of the last occurrence of `c` in `s`, if any.
pub open spec fn spec_rfind(s: Seq<char>, c: char) -> Option<int> {
    if exists|i: int| spec_is_last_index(s, c, i) {
        Some(choose|i: int| spec_is_last_index(s, c, i))
    } else {
        None
    }
}

/// Whether `s` begins with `prefix`.
pub open spec fn spec_starts_with(s: Seq<char>, prefix: Seq<char>) -> bool {
    prefix.len() <= s.len() && s.subrange(0, prefix.len() as int) == prefix
}

/// The characters of the path that [`VpkPath::new_with_prefix_and_extension`] builds: the prefix
/// (dropped when `name` already starts with it) and a slash, then `name`, then a period and the
/// extension when `name` has no period, all in canonical form.
pub open spec fn spec_vpk_path(name: Seq<char>, prefix: Seq<char>, extension: Seq<char>) -> Seq<
    char,
> {
    let prefix = if spec_starts_with(name, prefix) {
        Seq::<char>::empty()
    } else {
        prefix
    };
    let has_period = name.contains('.');
    spec_canonicalize(prefix) + (if prefix.len() > 0 {
        seq!['/']
    } else {
        Seq::<char>::empty()
    }) + spec_canonicalize(name) + (if !has_period {
        seq!['.']
    } else {
        Seq::<char>::empty()
    }) + (if !has_period {
        spec_canonicalize(extension)
    } else {
        Seq::<char>::empty()
    })
}

/// The built path has no slash after its last period. (It always has a period.)
pub open spec fn spec_vpk_path_valid(name: Seq<char>, prefix: Seq<char>, extension: Seq<char>) -> bool {
    let p = spec_vpk_path(name, prefix, extension);
    spec_rfind(p, '/') matches Some(s) ==> spec_rfind(p, '.') matches Some(d) && s < d
}

proof fn lemma_last_index_unique(s: Seq<char>, c: char, i: int, j: int)
    requires
        spec_is_last_index(s, c, i),
        spec_is_last_index(s, c, j),
    ensures
        i == j,
{
}

proof fn lemma_rfind_some(s: Seq<char>, c: char, i: int)
    requires
        spec_is_last_index(s, c, i),
    ensures
        spec_rfind(s, c) == Some(i),
{
    let k = choose|k: int| spec_is_last_index(s, c, k);
    lemma_last_index_unique(s, c, i, k);
}

proof fn lemma_rfind_exists(s: Seq<char>, c: char, k: int)
    requires
        0 <= k < s.len(),
        s[k] == c,
    ensures
        spec_rfind(s, c) is Some,
    decreases s.len() - k,
{
    if forall|j: int| k < j < s.len() ==> s[j] != c {
        lemma_rfind_some(s, c, k);
    } else {
        let j = choose|j: int| k < j < s.len() && s[j] == c;
        lemma_rfind_exists(s, c, j);
    }
}

/// Returns the index of the last occurrence of `c` in `s`.
fn rfind(s: &str, c: char) -> (r: Option<usize>)
    ensures
        r matches Some(i) ==> spec_rfind(s@, c) == Some(i as int),
        r is None ==> spec_rfind(s@, c) is None,
{
    let n = s.unicode_len();
    let mut i: usize = n;
    while i > 0
        invariant
            n == s@.len(),
            i <= n,
            forall|j: int| i <= j < n ==> s@[j] != c,
        decreases i,
    {
        let k = i - 1;
        if s.get_char(k) == c {
            proof {
                lemma_rfind_some(s@, c, k as int);
            }
            return Some(k);
        }
        i = k;
    }
    None
}

/// Returns whether `s` contains `c`.
fn contains_char(s: &str, c: char) -> (r: bool)
    ensures
        r == s@.contains(c),
{
    let n = s.unicode_len();
    let mut i: usize = 0;
    while i < n
        invariant
            n == s@.len(),
            i <= n,
            forall|j: int| 0 <= j < i ==> s@[j] != c,
        decreases n - i,
    {
        if s.get_char(i) == c {
            assert(s@[i as int] == c);
            return true;
        }
        i = i + 1;
    }
    false
}

/// Returns whether `s` begins with `prefix`.
fn starts_with(s: &str, prefix: &str) -> (r: bool)
    ensures
        r == spec_starts_with(s@, prefix@),
{
    let n = prefix.unicode_len();
    if n > s.unicode_len() {
        return false;
    }
    let mut i: usize = 0;
    while i < n
        invariant
            n == prefix@.len(),
            n <= s@.len(),
            i <= n,
            forall|j: int| 0 <= j < i ==> s@[j] == prefix@[j],
        decreases n - i,
    {
        if s.get_char(i) != prefix.get_char(i) {
            assert(s@.subrange(0, n as int)[i as int] != prefix@[i as int]);
            return false;
        }
        i = i + 1;
    }
    assert(s@.subrange(0, n as int) =~= prefix@);
    true
}

/// A path inside a VPK archive.
#[derive(Debug, PartialEq, Eq, Hash)]
pub struct VpkPath {
    path: CanonicalPathBuf,
    last_slash_index: Option<usize>,
    last_period_index: usize,
}

impl View for VpkPath {
    type V = Seq<char>;

    closed spec fn view(&self) -> Seq<char> {
        self.path@
    }
}

impl Clone for VpkPath {
    fn clone(&self) -> (r: Self)
        ensures
            r@ == self@,
    {
        proof {
            use_type_invariant(self);
        }
        VpkPath {
            path: self.path.clone(),
            last_slash_index: self.last_slash_index,
            last_period_index: self.last_period_index,
        }
    }
}

impl VpkPath {
    #[verifier::type_invariant]
    closed spec fn inv(self) -> bool {
        &&& spec_rfind(self.path@, '.') == Some(self.last_period_index as int)
        &&& match self.last_slash_index {
            Some(s) => spec_rfind(self.path@, '/') == Some(s as int) && s < self.last_period_index,
            None => spec_rfind(self.path@, '/') is None,
        }
    }

    /// Builds the path `prefix/name.extension` in canonical form. The prefix is left out when
    /// `name` already starts with it, and the extension when `name` already has a period.
    pub fn new_with_prefix_and_extension(name: &str, prefix: &str, extension: &str) -> (r: Self)
        requires
            spec_vpk_path_valid(name@, prefix@, extension@),
        ensures
            r@ == spec_vpk_path(name@, prefix@, extension@),
    {
        match Self::try_new_with_prefix_and_extension(name, prefix, extension) {
            Some(p) => p,
            None => {
                assert(false);
                Self::try_new_with_prefix_and_extension(name, prefix, extension).unwrap()
            },
        }
    }

    /// As [`VpkPath::new_with_prefix_and_extension`], or `None` when the built path has a slash
    /// after its last period.
    pub fn try_new_with_prefix_and_extension(name: &str, prefix: &str, extension: &str) -> (r: Option<Self>)
        ensures
            r is Some <==> spec_vpk_path_valid(name@, prefix@, extension@),
            r matches Some(p) ==> p@ == spec_vpk_path(name@, prefix@, extension@),
    {
        let empty = "";
        let slash = "/";
        let period = ".";
        proof {
            reveal_strlit("");
            reveal_strlit("/");
            reveal_strlit(".");
        }
        let mut used_prefix = prefix;
        if starts_with(name, prefix) {
            used_prefix = empty;
        }
        let has_period = contains_char(name, '.');

        let mut s = display_canonical(used_prefix);
        if used_prefix.unicode_len() != 0 {
            s.append(slash);
        }
        let canonical_name = display_canonical(name);
        s.append(canonical_name.as_str());
        if !has_period {
            s.append(period);
            let canonical_extension = display_canonical(extension);
            s.append(canonical_extension.as_str());
        }
        let ghost p = spec_vpk_path(name@, prefix@, extension@);
        assert(s@ =~= p);
        proof {
            lemma_canonicalize_canonical(used_prefix@);
            lemma_canonicalize_canonical(name@);
            lemma_canonicalize_canonical(extension@);
            assert(spec_all_canonical(p));
        }
        let path = CanonicalPathBuf::from_string_unchecked(s);
        let last_slash_index = rfind(path.as_str(), '/');
        let last_period_index = match rfind(path.as_str(), '.') {
            Some(i) => i,
            None => {
                proof {
                    if has_period {
                        let k = choose|k: int| 0 <= k < name@.len() && name@[k] == '.';
                        let off = spec_canonicalize(used_prefix@).len() + (if used_prefix@.len() > 0 {
                            1int
                        } else {
                            0int
                        });
                        assert(p[off + k] == '.');
                        lemma_rfind_exists(p, '.', off + k);
                    } else {
                        let off = p.len() - spec_canonicalize(extension@).len() - 1;
                        assert(p[off] == '.');
                        lemma_rfind_exists(p, '.', off);
                    }
                    assert(false);
                }
                0
            },
        };
        match last_slash_index {
            Some(sl) => {
                if sl >= last_period_index {
                    return None;
                }
            },
            None => {},
        }
        Some(VpkPath { path, last_slash_index, last_period_index })
    }

    /// The whole path.
    pub fn as_canonical_path(&self) -> (r: CanonicalPath<'_>)
        ensures
            r@ == self@,
    {
        self.path.as_canonical_path()
    }

    /// Whether the path has a period after its last slash, as every path built here has.
    pub open spec fn spec_well_formed(&self) -> bool {
        match spec_rfind(self@, '.') {
            Some(d) => match spec_rfind(self@, '/') {
                Some(sl) => sl < d,
                None => true,
            },
            None => false,
        }
    }

    /// Every path has a period after its last slash.
    pub fn is_well_formed(&self) -> (r: bool)
        ensures
            r == self.spec_well_formed(),
            r,
    {
        proof {
            use_type_invariant(self);
        }
        true
    }

    /// The parts of a path put back together give the path: the parent and a slash (when there
    /// is a slash), the file stem, a period and the extension.
    pub proof fn lemma_parts_rebuild_path(&self)
        requires
            self.spec_well_formed(),
        ensures
            self@ == (if spec_rfind(self@, '/') is Some {
                self.spec_parent() + seq!['/']
            } else {
                Seq::<char>::empty()
            }) + self.spec_file_stem() + seq!['.'] + self.spec_extension(),
            !self.spec_extension().contains('.'),
            !self.spec_extension().contains('/'),
            !self.spec_file_stem().contains('/'),
    {
        let p = self@;
        let d = spec_rfind(p, '.')->0;
        let k = choose|i: int| spec_is_last_index(p, '.', i);
        assert(spec_is_last_index(p, '.', k));
        assert(d == k);
        match spec_rfind(p, '/') {
            Some(sl) => {
                let j = choose|i: int| spec_is_last_index(p, '/', i);
                assert(spec_is_last_index(p, '/', j));
                assert(p =~= p.subrange(0, sl) + seq!['/'] + p.subrange(sl + 1, d) + seq!['.']
                    + p.subrange(d + 1, p.len() as int));
                assert forall|i: int| 0 <= i < p.subrange(sl + 1, d).len() implies #[trigger] p.subrange(sl + 1, d)[i] != '/' by {
                    assert(p.subrange(sl + 1, d)[i] == p[sl + 1 + i]);
                }
            },
            None => {
                assert(p =~= p.subrange(0, d) + seq!['.'] + p.subrange(d + 1, p.len() as int));
                assert forall|i: int| 0 <= i < p.subrange(0, d).len() implies #[trigger] p.subrange(0, d)[i] != '/' by {
                    assert(p.subrange(0, d)[i] == p[i]);
                    if p[i] == '/' {
                        lemma_rfind_exists(p, '/', i);
                    }
                }
            },
        }
        assert forall|i: int| 0 <= i < self.spec_extension().len() implies #[trigger] self.spec_extension()[i] != '.' && self.spec_extension()[i] != '/' by {
            assert(self.spec_extension()[i] == p[d + 1 + i]);
            if p[d + 1 + i] == '/' {
                lemma_rfind_exists(p, '/', d + 1 + i);
                let sl = spec_rfind(p, '/')->0;
                let j = choose|m: int| spec_is_last_index(p, '/', m);
                assert(spec_is_last_index(p, '/', j));
            }
        }
    }

    /// Everything before the last slash, or the empty path when there is no slash.
    pub open spec fn spec_parent(&self) -> Seq<char> {
        match spec_rfind(self@, '/') {
            Some(s) => self@.subrange(0, s),
            None => Seq::<char>::empty(),
        }
    }

    /// Everything between the last slash (or the start) and the last period.
    pub open spec fn spec_file_stem(&self) -> Seq<char> {
        match spec_rfind(self@, '.') {
            Some(d) => match spec_rfind(self@, '/') {
                Some(s) => self@.subrange(s + 1, d),
                None => self@.subrange(0, d),
            },
            None => Seq::<char>::empty(),
        }
    }

    /// Everything after the last period.
    pub open spec fn spec_extension(&self) -> Seq<char> {
        match spec_rfind(self@, '.') {
            Some(d) => self@.subrange(d + 1, self@.len() as int),
            None => Seq::<char>::empty(),
        }
    }

    /// Everything before the last slash, or the empty path when there is no slash.
    pub fn parent(&self) -> (r: CanonicalPath<'_>)
        ensures
            r@ == self.spec_parent(),
    {
        proof {
            use_type_invariant(self);
        }
        match self.last_slash_index {
            Some(last_slash_index) => self.path.as_canonical_path().slice(0, last_slash_index),
            None => CanonicalPath::empty(),
        }
    }

    /// Everything between the last slash (or the start) and the last period.
    pub fn file_stem(&self) -> (r: CanonicalPath<'_>)
        ensures
            spec_rfind(self@, '.') is Some,
            r@ == self.spec_file_stem(),
    {
        proof {
            use_type_invariant(self);
        }
        match self.last_slash_index {
            Some(last_slash_index) => self.path.as_canonical_path().slice(
                last_slash_index + 1,
                self.last_period_index,
            ),
            None => self.path.as_canonical_path().slice(0, self.last_period_index),
        }
    }

    /// Everything after the last period.
    pub fn extension(&self) -> (r: CanonicalPath<'_>)
        ensures
            spec_rfind(self@, '.') is Some,
            r@ == self.spec_extension(),
    {
        proof {
            use_type_invariant(self);
        }
        let p = self.path.as_canonical_path();
        let n = p.as_str().unicode_len();
        p.slice(self.last_period_index + 1, n)
    }

    /// The path as an owned string.
    pub fn to_string(&self) -> (r: String)
        ensures
            r@ == self@,
    {
        self.path.to_string()
    }
}

} // verus!
