//! Paths in canonical form with respect to letter case and slash orientation.
//!
//! # Canonical form
//! All ASCII letters are lowercase. Forward slashes may be present, but not backslashes.
use vstd::prelude::*;
use vstd::string::*;

verus! {

/// Whether `c` is an ASCII uppercase letter.
pub open spec fn spec_is_ascii_uppercase(c: char) -> bool {
    'A' <= c && c <= 'Z'
}

/// The canonical form of a single character: backslashes become forward slashes and ASCII
/// uppercase letters become lowercase. Every other character is unchanged.
pub open spec fn spec_canonical(c: char) -> char {
    if c == '\\' {
        '/'
    } else if spec_is_ascii_uppercase(c) {
        ((c as u32) + 32) as char
    } else {
        c
    }
}

/// Whether a single character is already in canonical form.
pub open spec fn spec_is_canonical(c: char) -> bool {
    !spec_is_ascii_uppercase(c) && c != '\\'
}

/// Whether every character of `s` is in canonical form.
pub open spec fn spec_all_canonical(s: Seq<char>) -> bool {
    forall|i: int| 0 <= i < s.len() ==> spec_is_canonical(#[trigger] s[i])
}

/// The canonical form of a whole string, character by character.
pub open spec fn spec_canonicalize(s: Seq<char>) -> Seq<char> {
    s.map_values(|c: char| spec_canonical(c))
}

/// Canonicalizing a character always gives a canonical character.
pub proof fn lemma_canonical_is_canonical(c: char)
    ensures
        spec_is_canonical(spec_canonical(c)),
{
}

/// A canonical character is left unchanged by canonicalization.
pub proof fn lemma_canonical_fixes_canonical(c: char)
    requires
        spec_is_canonical(c),
    ensures
        spec_canonical(c) == c,
{
}

/// Canonicalizing a string gives a canonical string, and canonicalizing is idempotent.
pub proof fn lemma_canonicalize_canonical(s: Seq<char>)
    ensures
        spec_all_canonical(spec_canonicalize(s)),
        spec_canonicalize(spec_canonicalize(s)) == spec_canonicalize(s),
{
    assert forall|i: int| 0 <= i < spec_canonicalize(s).len() implies spec_is_canonical(
        #[trigger] spec_canonicalize(s)[i],
    ) by {
        lemma_canonical_is_canonical(s[i]);
    }
    assert(spec_canonicalize(spec_canonicalize(s)) =~= spec_canonicalize(s));
}

/// A string already in canonical form is its own canonical form.
pub proof fn lemma_canonicalize_fixes_canonical(s: Seq<char>)
    requires
        spec_all_canonical(s),
    ensures
        spec_canonicalize(s) == s,
{
    assert(spec_canonicalize(s) =~= s);
}

/// Returns the canonical form of `c`.
pub fn canonical(c: char) -> (r: char)
    ensures
        r == spec_canonical(c),
{
    if c == '\\' {
        '/'
    } else if 'A' <= c && c <= 'Z' {
        let lower: u8 = (c as u8) + 32;
        assert(lower as u32 == (c as u32) + 32);
        lower as char
    } else {
        c
    }
}

/// Returns whether `c` is in canonical form.
pub fn is_canonical(c: char) -> (r: bool)
    ensures
        r == spec_is_canonical(c),
{
    !('A' <= c && c <= 'Z') && c != '\\'
}

/// `String::push` from std: appends one character to the end of the string.
#[verifier::external_body]
pub(crate) fn string_push(s: &mut String, c: char)
    ensures
        final(s)@ == old(s)@.push(c),
{
    s.push(c)
}

/// Returns whether every character of `value` is in canonical form.
pub fn all_canonical(value: &str) -> (r: bool)
    ensures
        r == spec_all_canonical(value@),
{
    let n = value.unicode_len();
    let mut i: usize = 0;
    while i < n
        invariant
            n == value@.len(),
            i <= n,
            forall|j: int| 0 <= j < i ==> spec_is_canonical(#[trigger] value@[j]),
        decreases n - i,
    {
        let c = value.get_char(i);
        if !is_canonical(c) {
            return false;
        }
        i = i + 1;
    }
    true
}

/// Returns the canonical form of `inner` as a new string.
pub fn display_canonical(inner: &str) -> (r: String)
    ensures
        r@ == spec_canonicalize(inner@),
{
    let n = inner.unicode_len();
    let mut out = String::new();
    let mut i: usize = 0;
    while i < n
        invariant
            n == inner@.len(),
            i <= n,
            out@ == spec_canonicalize(inner@.subrange(0, i as int)),
        decreases n - i,
    {
        let c = inner.get_char(i);
        string_push(&mut out, canonical(c));
        assert(spec_canonicalize(inner@.subrange(0, i + 1)) =~= spec_canonicalize(
            inner@.subrange(0, i as int),
        ).push(spec_canonical(c)));
        i = i + 1;
    }
    assert(inner@.subrange(0, n as int) =~= inner@);
    out
}

/// A borrowed path in canonical form.
#[derive(Clone, Copy, Debug, PartialEq, Eq, Hash)]
pub struct CanonicalPath<'a> {
    inner: &'a str,
}

impl<'a> View for CanonicalPath<'a> {
    type V = Seq<char>;

    closed spec fn view(&self) -> Seq<char> {
        self.inner@
    }
}

impl<'a> CanonicalPath<'a> {
    #[verifier::type_invariant]
    closed spec fn inv(self) -> bool {
        spec_all_canonical(self.inner@)
    }

    /// Returns the path if `value` is in canonical form, and `None` otherwise.
    pub fn from_str(value: &'a str) -> (r: Option<CanonicalPath<'a>>)
        ensures
            r is Some <==> spec_all_canonical(value@),
            r matches Some(p) ==> p@ == value@,
    {
        if all_canonical(value) {
            Some(Self::from_str_unchecked(value))
        } else {
            None
        }
    }

    /// Wraps a string that is already in canonical form.
    pub fn from_str_unchecked(value: &'a str) -> (r: CanonicalPath<'a>)
        requires
            spec_all_canonical(value@),
        ensures
            r@ == value@,
    {
        CanonicalPath { inner: value }
    }

    /// The empty path.
    pub fn empty() -> (r: CanonicalPath<'static>)
        ensures
            r@ == Seq::<char>::empty(),
    {
        let e: &'static str = "";
        proof {
            reveal_strlit("");
        }
        assert(e@ =~= Seq::<char>::empty());
        CanonicalPath { inner: e }
    }

    /// The path as a string slice.
    pub fn as_str(&self) -> (r: &'a str)
        ensures
            r@ == self@,
            spec_all_canonical(r@),
    {
        proof {
            use_type_invariant(self);
        }
        self.inner
    }

    /// The characters `from..to` of the path. Every part of a canonical path is canonical.
    pub fn slice(&self, from: usize, to: usize) -> (r: CanonicalPath<'a>)
        requires
            from <= to <= self@.len(),
        ensures
            r@ == self@.subrange(from as int, to as int),
    {
        proof {
            use_type_invariant(self);
        }
        let s = self.inner.substring_char(from, to);
        CanonicalPath { inner: s }
    }

    /// Copies the path into an owned [`CanonicalPathBuf`].
    pub fn to_owned(&self) -> (r: CanonicalPathBuf)
        ensures
            r@ == self@,
    {
        proof {
            use_type_invariant(self);
        }
        CanonicalPathBuf { inner: String::from_str(self.inner) }
    }
}

/// An owned [`CanonicalPath`].
#[derive(Debug, PartialEq, Eq, Hash)]
pub struct CanonicalPathBuf {
    inner: String,
}

impl View for CanonicalPathBuf {
    type V = Seq<char>;

    closed spec fn view(&self) -> Seq<char> {
        self.inner@
    }
}

impl Clone for CanonicalPathBuf {
    fn clone(&self) -> (r: Self)
        ensures
            r@ == self@,
    {
        proof {
            use_type_invariant(self);
        }
        CanonicalPathBuf { inner: self.inner.clone() }
    }
}

impl CanonicalPathBuf {
    #[verifier::type_invariant]
    closed spec fn inv(self) -> bool {
        spec_all_canonical(self.inner@)
    }

    /// The empty path.
    pub fn new() -> (r: Self)
        ensures
            r@ == Seq::<char>::empty(),
    {
        CanonicalPathBuf { inner: String::new() }
    }

    /// Returns the path if `value` is in canonical form, and `None` otherwise.
    pub fn from_string(value: String) -> (r: Option<Self>)
        ensures
            r is Some <==> spec_all_canonical(value@),
            r matches Some(p) ==> p@ == value@,
    {
        if all_canonical(value.as_str()) {
            Some(CanonicalPathBuf { inner: value })
        } else {
            None
        }
    }

    /// Returns the canonical form of `value`.
    pub fn from_str_canonicalize(value: &str) -> (r: Self)
        ensures
            r@ == spec_canonicalize(value@),
    {
        match CanonicalPath::from_str(value) {
            Some(x) => {
                proof {
                    lemma_canonicalize_fixes_canonical(value@);
                }
                x.to_owned()
            },
            None => {
                let s = display_canonical(value);
                proof {
                    lemma_canonicalize_canonical(value@);
                }
                Self::from_string_unchecked(s)
            },
        }
    }

    /// Wraps a string that is already in canonical form.
    pub fn from_string_unchecked(value: String) -> (r: Self)
        requires
            spec_all_canonical(value@),
        ensures
            r@ == value@,
    {
        CanonicalPathBuf { inner: value }
    }

    /// Borrows the path as a [`CanonicalPath`].
    pub fn as_canonical_path(&self) -> (r: CanonicalPath<'_>)
        ensures
            r@ == self@,
    {
        proof {
            use_type_invariant(self);
        }
        CanonicalPath { inner: self.inner.as_str() }
    }

    /// The path as a string slice.
    pub fn as_str(&self) -> (r: &str)
        ensures
            r@ == self@,
            spec_all_canonical(r@),
    {
        proof {
            use_type_invariant(self);
        }
        self.inner.as_str()
    }

    /// The path as an owned string.
    pub fn to_string(&self) -> (r: String)
        ensures
            r@ == self@,
    {
        String::from_str(self.inner.as_str())
    }
}

} // verus!
