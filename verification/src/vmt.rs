//! Materials (VMT): which shader a material uses and the parameters it sets, from the key-value
//! entries of its root object. Keys are matched without regard to ASCII case; each parameter may
//! be set once.
use vstd::prelude::*;
#[allow(unused_imports)]
use vstd::string::*;

use crate::canonical_path::{spec_canonicalize, CanonicalPathBuf};

verus! {

/// An entry of the root object of a material.
#[derive(Debug)]
pub enum VmtEntry {
    /// `key value`.
    KeyValue { key: String, value: String },
    /// A nested object, such as `Proxies`.
    Object { name: String },
}

/// An entry of the root object, as characters.
pub enum EntryView {
    KeyValue { key: Seq<char>, value: Seq<char> },
    Object { name: Seq<char> },
}

impl View for VmtEntry {
    type V = EntryView;

    open spec fn view(&self) -> EntryView {
        match self {
            VmtEntry::KeyValue { key, value } => EntryView::KeyValue { key: key@, value: value@ },
            VmtEntry::Object { name } => EntryView::Object { name: name@ },
        }
    }
}

/// A parameter of the `LightmappedGeneric` shader.
#[derive(Clone, Copy, Debug, PartialEq, Eq, Structural)]
pub enum Param {
    AlphaTest,
    AlphaTestReference,
    BaseTexture,
    BumpMap,
    Decal,
    Detail,
    DetailBlendFactor,
    DetailBlendMode,
    DetailScale,
    SelfIllum,
    Translucent,
}

/// Why a material cannot be read.
#[derive(Clone, Copy, Debug, PartialEq, Eq, Structural)]
pub enum VmtError {
    /// A parameter is set twice.
    Duplicate(Param),
    /// A flag parameter is not `1`, `true` or `false`.
    BadBool(Param),
    /// The blend mode of the detail texture is not a decimal `i32`.
    BadInt(Param),
    /// `LightmappedGeneric` without `$basetexture`.
    MissingBaseTexture,
    /// A shader that is not known.
    UnexpectedShader,
}

/// How a parameter's value is read.
#[derive(Clone, Copy, Debug, PartialEq, Eq, Structural)]
pub enum ParamKind {
    /// `1`, `true` or `false`.
    Bool,
    /// A decimal `i32`.
    Int,
    /// A number, kept as its text.
    Number,
    /// A path, in canonical form.
    Path,
}

impl Param {
    /// How the parameter's value is read.
    pub open spec fn spec_kind(self) -> ParamKind {
        match self {
            Param::AlphaTest | Param::SelfIllum | Param::Translucent => ParamKind::Bool,
            Param::DetailBlendMode => ParamKind::Int,
            Param::AlphaTestReference | Param::DetailBlendFactor | Param::DetailScale => ParamKind::Number,
            _ => ParamKind::Path,
        }
    }
}

/// The ASCII lowercase form of a character.
pub open spec fn spec_lower(c: char) -> char {
    if 'A' <= c <= 'Z' {
        ((c as u32) + 32) as char
    } else {
        c
    }
}

/// The parameter a lowercase key names, if it names one.
pub open spec fn spec_param_of(key: Seq<char>) -> Option<Param> {
    if key == "$alphatest"@ {
        Some(Param::AlphaTest)
    } else if key == "$alphatestreference"@ {
        Some(Param::AlphaTestReference)
    } else if key == "$basetexture"@ {
        Some(Param::BaseTexture)
    } else if key == "$bumpmap"@ {
        Some(Param::BumpMap)
    } else if key == "$decal"@ {
        Some(Param::Decal)
    } else if key == "$detail"@ {
        Some(Param::Detail)
    } else if key == "$detailblendfactor"@ {
        Some(Param::DetailBlendFactor)
    } else if key == "$detailblendmode"@ {
        Some(Param::DetailBlendMode)
    } else if key == "$detailscale"@ {
        Some(Param::DetailScale)
    } else if key == "$selfillum"@ {
        Some(Param::SelfIllum)
    } else if key == "$translucent"@ {
        Some(Param::Translucent)
    } else {
        None
    }
}

/// The value of the decimal digits `s`.
pub open spec fn spec_digits_value(s: Seq<char>) -> int
    decreases s.len(),
{
    if s.len() == 0 {
        0
    } else {
        10 * spec_digits_value(s.drop_last()) + (s.last() as int - '0' as int)
    }
}

/// Whether every character of `s` is a decimal digit.
pub open spec fn spec_all_digits(s: Seq<char>) -> bool {
    forall|i: int| 0 <= i < s.len() ==> '0' <= #[trigger] s[i] <= '9'
}

/// The sign of a decimal number and its digits: a leading `-` or `+` is taken off.
pub open spec fn spec_sign_split(s: Seq<char>) -> (bool, Seq<char>) {
    if s.len() > 0 && s[0] == '-' {
        (true, s.drop_first())
    } else if s.len() > 0 && s[0] == '+' {
        (false, s.drop_first())
    } else {
        (false, s)
    }
}

/// A decimal `i32` as `str::parse` reads it: an optional sign, then at least one digit, within
/// range.
pub open spec fn spec_parse_i32(s: Seq<char>) -> Option<i32> {
    let neg = spec_sign_split(s).0;
    let digits = spec_sign_split(s).1;
    if digits.len() == 0 || !spec_all_digits(digits) {
        None
    } else {
        let v = if neg { -spec_digits_value(digits) } else { spec_digits_value(digits) };
        if i32::MIN <= v <= i32::MAX {
            Some(v as i32)
        } else {
            None
        }
    }
}

/// A flag as the material reads it: `1` and `true` are set, `false` is clear.
pub open spec fn spec_parse_bool(s: Seq<char>) -> Option<bool> {
    if s == "1"@ || s == "true"@ {
        Some(true)
    } else if s == "false"@ {
        Some(false)
    } else {
        None
    }
}

/// The parameters set so far.
pub struct ParamsView {
    pub alpha_test: Option<bool>,
    pub alpha_test_reference: Option<Seq<char>>,
    pub base_texture: Option<Seq<char>>,
    pub bump_map: Option<Seq<char>>,
    pub decal: Option<Seq<char>>,
    pub detail: Option<Seq<char>>,
    pub detail_blend_factor: Option<Seq<char>>,
    pub detail_blend_mode: Option<i32>,
    pub detail_scale: Option<Seq<char>>,
    pub self_illum: Option<bool>,
    pub translucent: Option<bool>,
}

/// Nothing set.
pub open spec fn spec_params_empty() -> ParamsView {
    ParamsView {
        alpha_test: None,
        alpha_test_reference: None,
        base_texture: None,
        bump_map: None,
        decal: None,
        detail: None,
        detail_blend_factor: None,
        detail_blend_mode: None,
        detail_scale: None,
        self_illum: None,
        translucent: None,
    }
}

/// Whether parameter `p` is already set.
pub open spec fn spec_is_set(v: ParamsView, p: Param) -> bool {
    match p {
        Param::AlphaTest => v.alpha_test is Some,
        Param::AlphaTestReference => v.alpha_test_reference is Some,
        Param::BaseTexture => v.base_texture is Some,
        Param::BumpMap => v.bump_map is Some,
        Param::Decal => v.decal is Some,
        Param::Detail => v.detail is Some,
        Param::DetailBlendFactor => v.detail_blend_factor is Some,
        Param::DetailBlendMode => v.detail_blend_mode is Some,
        Param::DetailScale => v.detail_scale is Some,
        Param::SelfIllum => v.self_illum is Some,
        Param::Translucent => v.translucent is Some,
    }
}

/// Sets parameter `p` from the text `value`, read as its kind. The value is read first, so a bad
/// value is reported before a duplicate.
pub open spec fn spec_set(v: ParamsView, p: Param, value: Seq<char>) -> Result<ParamsView, VmtError> {
    match p.spec_kind() {
        ParamKind::Bool => match spec_parse_bool(value) {
            None => Err(VmtError::BadBool(p)),
            Some(b) => if spec_is_set(v, p) {
                Err(VmtError::Duplicate(p))
            } else {
                Ok(
                    match p {
                        Param::AlphaTest => ParamsView { alpha_test: Some(b), ..v },
                        Param::SelfIllum => ParamsView { self_illum: Some(b), ..v },
                        _ => ParamsView { translucent: Some(b), ..v },
                    },
                )
            },
        },
        ParamKind::Int => match spec_parse_i32(value) {
            None => Err(VmtError::BadInt(p)),
            Some(n) => if spec_is_set(v, p) {
                Err(VmtError::Duplicate(p))
            } else {
                Ok(ParamsView { detail_blend_mode: Some(n), ..v })
            },
        },
        ParamKind::Number => if spec_is_set(v, p) {
            Err(VmtError::Duplicate(p))
        } else {
            Ok(
                match p {
                    Param::AlphaTestReference => ParamsView { alpha_test_reference: Some(value), ..v },
                    Param::DetailBlendFactor => ParamsView { detail_blend_factor: Some(value), ..v },
                    _ => ParamsView { detail_scale: Some(value), ..v },
                },
            )
        },
        ParamKind::Path => if spec_is_set(v, p) {
            Err(VmtError::Duplicate(p))
        } else {
            let c = spec_canonicalize(value);
            Ok(
                match p {
                    Param::BaseTexture => ParamsView { base_texture: Some(c), ..v },
                    Param::BumpMap => ParamsView { bump_map: Some(c), ..v },
                    Param::Decal => ParamsView { decal: Some(c), ..v },
                    _ => ParamsView { detail: Some(c), ..v },
                },
            )
        },
    }
}

/// Setting a parameter sets exactly that parameter: when it succeeds, the parameter named was
/// unset and is now set, every other parameter keeps its value, and a flag holds the value its
/// text reads as.
pub proof fn lemma_set_sets_only_its_parameter(v: ParamsView, p: Param, value: Seq<char>)
    ensures
        spec_set(v, p, value) matches Ok(w) ==> {
            &&& !spec_is_set(v, p)
            &&& spec_is_set(w, p)
            &&& (p != Param::AlphaTest ==> w.alpha_test == v.alpha_test)
            &&& (p != Param::AlphaTestReference ==> w.alpha_test_reference == v.alpha_test_reference)
            &&& (p != Param::BaseTexture ==> w.base_texture == v.base_texture)
            &&& (p != Param::BumpMap ==> w.bump_map == v.bump_map)
            &&& (p != Param::Decal ==> w.decal == v.decal)
            &&& (p != Param::Detail ==> w.detail == v.detail)
            &&& (p != Param::DetailBlendFactor ==> w.detail_blend_factor == v.detail_blend_factor)
            &&& (p != Param::DetailBlendMode ==> w.detail_blend_mode == v.detail_blend_mode)
            &&& (p != Param::DetailScale ==> w.detail_scale == v.detail_scale)
            &&& (p != Param::SelfIllum ==> w.self_illum == v.self_illum)
            &&& (p != Param::Translucent ==> w.translucent == v.translucent)
            &&& (p == Param::AlphaTest ==> w.alpha_test == spec_parse_bool(value))
            &&& (p == Param::SelfIllum ==> w.self_illum == spec_parse_bool(value))
            &&& (p == Param::Translucent ==> w.translucent == spec_parse_bool(value))
            &&& (p == Param::DetailBlendMode ==> w.detail_blend_mode == spec_parse_i32(value))
            &&& (p == Param::AlphaTestReference ==> w.alpha_test_reference == Some(value))
            &&& (p == Param::DetailBlendFactor ==> w.detail_blend_factor == Some(value))
            &&& (p == Param::DetailScale ==> w.detail_scale == Some(value))
            &&& (p == Param::BaseTexture ==> w.base_texture == Some(spec_canonicalize(value)))
        },
        (p == Param::AlphaTest || p == Param::SelfIllum || p == Param::Translucent)
            && spec_parse_bool(value) is Some && !spec_is_set(v, p) ==> spec_set(v, p, value) is Ok,
{
}

/// Takes one entry: keys starting with `%`, keys of no parameter and nested objects are skipped.
pub open spec fn spec_apply(v: ParamsView, e: EntryView) -> Result<ParamsView, VmtError> {
    match e {
        EntryView::Object { .. } => Ok(v),
        EntryView::KeyValue { key, value } => {
            let k = key.map_values(|c: char| spec_lower(c));
            if k.len() > 0 && k[0] == '%' {
                Ok(v)
            } else {
                match spec_param_of(k) {
                    Some(p) => spec_set(v, p, value),
                    None => Ok(v),
                }
            }
        },
    }
}

/// Takes the first `n` entries in order, stopping at the first error.
pub open spec fn spec_apply_all(entries: Seq<EntryView>, n: int) -> Result<ParamsView, VmtError>
    decreases n,
{
    if n <= 0 {
        Ok(spec_params_empty())
    } else {
        match spec_apply_all(entries, n - 1) {
            Err(e) => Err(e),
            Ok(v) => spec_apply(v, entries[n - 1]),
        }
    }
}

/// The parameters of a `LightmappedGeneric` material, as set by its entries.
#[derive(Debug)]
pub struct LightmappedParams {
    pub alpha_test: Option<bool>,
    pub alpha_test_reference: Option<String>,
    pub base_texture: Option<CanonicalPathBuf>,
    pub bump_map: Option<CanonicalPathBuf>,
    pub decal: Option<CanonicalPathBuf>,
    pub detail: Option<CanonicalPathBuf>,
    pub detail_blend_factor: Option<String>,
    pub detail_blend_mode: Option<i32>,
    pub detail_scale: Option<String>,
    pub self_illum: Option<bool>,
    pub translucent: Option<bool>,
}

/// The characters of an optional string.
pub open spec fn spec_opt_str(o: Option<String>) -> Option<Seq<char>> {
    match o {
        Some(s) => Some(s@),
        None => None,
    }
}

/// The characters of an optional path.
pub open spec fn spec_opt_path(o: Option<CanonicalPathBuf>) -> Option<Seq<char>> {
    match o {
        Some(p) => Some(p@),
        None => None,
    }
}

impl View for LightmappedParams {
    type V = ParamsView;

    open spec fn view(&self) -> ParamsView {
        ParamsView {
            alpha_test: self.alpha_test,
            alpha_test_reference: spec_opt_str(self.alpha_test_reference),
            base_texture: spec_opt_path(self.base_texture),
            bump_map: spec_opt_path(self.bump_map),
            decal: spec_opt_path(self.decal),
            detail: spec_opt_path(self.detail),
            detail_blend_factor: spec_opt_str(self.detail_blend_factor),
            detail_blend_mode: self.detail_blend_mode,
            detail_scale: spec_opt_str(self.detail_scale),
            self_illum: self.self_illum,
            translucent: self.translucent,
        }
    }
}

/// The shader of a material.
#[derive(Debug)]
pub enum VmtShader {
    /// The lightmapped world shader. Numbers are kept as their text; the reference of the alpha
    /// test is `0.5` when unset.
    LightmappedGeneric {
        alpha_test: bool,
        alpha_test_reference: String,
        bump_map: Option<CanonicalPathBuf>,
        base_texture: CanonicalPathBuf,
        decal: Option<CanonicalPathBuf>,
        detail: Option<CanonicalPathBuf>,
        detail_blend_factor: Option<String>,
        detail_blend_mode: Option<i32>,
        detail_scale: Option<String>,
        self_illum: bool,
        translucent: bool,
    },
    /// A shader that is recognized but not drawn.
    Unsupported,
}

/// A material.
#[derive(Debug)]
pub struct Vmt {
    pub shader: VmtShader,
}

/// Whether `a` and `b` have the same characters.
fn same_text(a: &str, b: &str) -> (r: bool)
    ensures
        r == (a@ == b@),
{
    let n = a.unicode_len();
    if n != b.unicode_len() {
        return false;
    }
    let mut i: usize = 0;
    while i < n
        invariant
            n == a@.len(),
            n == b@.len(),
            i <= n,
            forall|j: int| 0 <= j < i ==> a@[j] == b@[j],
        decreases n - i,
    {
        if a.get_char(i) != b.get_char(i) {
            return false;
        }
        i = i + 1;
    }
    assert(a@ =~= b@);
    true
}

/// The ASCII lowercase form of a character.
fn lower(c: char) -> (r: char)
    ensures
        r == spec_lower(c),
{
    if 'A' <= c && c <= 'Z' {
        ((c as u8) + 32) as char
    } else {
        c
    }
}

/// The ASCII lowercase form of a string.
fn to_ascii_lowercase(s: &str) -> (r: String)
    ensures
        r@ == s@.map_values(|c: char| spec_lower(c)),
{
    let n = s.unicode_len();
    let mut out = String::new();
    let mut i: usize = 0;
    while i < n
        invariant
            n == s@.len(),
            i <= n,
            out@ == s@.subrange(0, i as int).map_values(|c: char| spec_lower(c)),
        decreases n - i,
    {
        crate::canonical_path::string_push(&mut out, lower(s.get_char(i)));
        assert(s@.subrange(0, i + 1).map_values(|c: char| spec_lower(c)) =~= s@.subrange(
            0,
            i as int,
        ).map_values(|c: char| spec_lower(c)).push(spec_lower(s@[i as int])));
        i = i + 1;
    }
    assert(s@.subrange(0, n as int) =~= s@);
    out
}

/// The parameter a lowercase key names.
fn param_of(key: &str) -> (r: Option<Param>)
    ensures
        r == spec_param_of(key@),
{
    if same_text(key, "$alphatest") {
        Some(Param::AlphaTest)
    } else if same_text(key, "$alphatestreference") {
        Some(Param::AlphaTestReference)
    } else if same_text(key, "$basetexture") {
        Some(Param::BaseTexture)
    } else if same_text(key, "$bumpmap") {
        Some(Param::BumpMap)
    } else if same_text(key, "$decal") {
        Some(Param::Decal)
    } else if same_text(key, "$detail") {
        Some(Param::Detail)
    } else if same_text(key, "$detailblendfactor") {
        Some(Param::DetailBlendFactor)
    } else if same_text(key, "$detailblendmode") {
        Some(Param::DetailBlendMode)
    } else if same_text(key, "$detailscale") {
        Some(Param::DetailScale)
    } else if same_text(key, "$selfillum") {
        Some(Param::SelfIllum)
    } else if same_text(key, "$translucent") {
        Some(Param::Translucent)
    } else {
        None
    }
}

/// Reads a flag value.
pub fn parse_bool(s: &str) -> (r: Option<bool>)
    ensures
        r == spec_parse_bool(s@),
{
    if same_text(s, "1") || same_text(s, "true") {
        Some(true)
    } else if same_text(s, "false") {
        Some(false)
    } else {
        None
    }
}

/// The value of a prefix of digits grows with each digit.
proof fn lemma_digits_value_grows(s: Seq<char>, i: int)
    requires
        0 <= i <= s.len(),
        spec_all_digits(s),
    ensures
        spec_digits_value(s.subrange(0, i)) <= spec_digits_value(s),
        0 <= spec_digits_value(s.subrange(0, i)),
    decreases s.len() - i,
{
    if i < s.len() {
        lemma_digits_value_grows(s, i + 1);
        assert(s.subrange(0, i + 1).drop_last() =~= s.subrange(0, i));
        assert('0' <= s.subrange(0, i + 1).last() <= '9');
    } else {
        assert(s.subrange(0, i) =~= s);
        lemma_digits_value_nonneg(s);
    }
}

/// The value of digits is not negative.
proof fn lemma_digits_value_nonneg(s: Seq<char>)
    requires
        spec_all_digits(s),
    ensures
        0 <= spec_digits_value(s),
    decreases s.len(),
{
    if s.len() > 0 {
        assert(spec_all_digits(s.drop_last())) by {
            assert forall|i: int| 0 <= i < s.drop_last().len() implies '0' <= #[trigger] s.drop_last()[i] <= '9' by {
                assert(s.drop_last()[i] == s[i]);
            }
        }
        lemma_digits_value_nonneg(s.drop_last());
        assert('0' <= s[s.len() - 1] <= '9');
    }
}

/// Reads a decimal `i32` as `str::parse` does.
pub fn parse_i32(s: &str) -> (r: Option<i32>)
    ensures
        r == spec_parse_i32(s@),
{
    let n = s.unicode_len();
    let mut start: usize = 0;
    let mut neg = false;
    if n > 0 && s.get_char(0) == '-' {
        neg = true;
        start = 1;
    } else if n > 0 && s.get_char(0) == '+' {
        start = 1;
    }
    let ghost digits = s@.subrange(start as int, n as int);
    assert(spec_sign_split(s@) == (neg, digits)) by {
        if start == 1 {
            assert(digits =~= s@.drop_first());
        } else {
            assert(digits =~= s@);
        }
    }
    if start == n {
        return None;
    }
    let mut i = start;
    while i < n
        invariant
            n == s@.len(),
            start <= i <= n,
            digits == s@.subrange(start as int, n as int),
            forall|j: int| start <= j < i ==> '0' <= #[trigger] s@[j] <= '9',
            spec_sign_split(s@) == (neg, digits),
        decreases n - i,
    {
        let c = s.get_char(i);
        if !('0' <= c && c <= '9') {
            assert(!spec_all_digits(digits)) by {
                assert(digits[i - start] == c);
            }
            return None;
        }
        i = i + 1;
    }
    assert(spec_all_digits(digits)) by {
        assert forall|j: int| 0 <= j < digits.len() implies '0' <= #[trigger] digits[j] <= '9' by {
            assert(digits[j] == s@[start + j]);
        }
    }
    // Accumulate, stopping once the value is out of range either way.
    let limit: i64 = 0x8000_0000;
    let mut acc: i64 = 0;
    let mut k = start;
    while k < n
        invariant
            n == s@.len(),
            start <= k <= n,
            digits == s@.subrange(start as int, n as int),
            spec_all_digits(digits),
            spec_sign_split(s@) == (neg, digits),
            acc == spec_digits_value(s@.subrange(start as int, k as int)),
            0 <= acc <= limit,
            limit == 0x8000_0000,
        decreases n - k,
    {
        let c = s.get_char(k);
        assert(c == digits[k - start]);
        assert('0' <= digits[k - start] <= '9');
        let d = (c as u32 - '0' as u32) as i64;
        assert(s@.subrange(start as int, k + 1).drop_last() =~= s@.subrange(start as int, k as int));
        assert(s@.subrange(start as int, k + 1) =~= digits.subrange(0, k + 1 - start));
        let next = 10 * acc + d;
        if next > limit {
            proof {
                lemma_digits_value_grows(digits, k + 1 - start);
            }
            return None;
        }
        acc = next;
        k = k + 1;
    }
    assert(s@.subrange(start as int, n as int) =~= digits);
    if neg {
        Some((-acc) as i32)
    } else if acc > 0x7fff_ffff {
        None
    } else {
        Some(acc as i32)
    }
}

impl LightmappedParams {
    /// Nothing set.
    pub fn new() -> (r: Self)
        ensures
            r@ == spec_params_empty(),
    {
        LightmappedParams {
            alpha_test: None,
            alpha_test_reference: None,
            base_texture: None,
            bump_map: None,
            decal: None,
            detail: None,
            detail_blend_factor: None,
            detail_blend_mode: None,
            detail_scale: None,
            self_illum: None,
            translucent: None,
        }
    }

    /// Whether parameter `p` is already set.
    fn is_set(&self, p: Param) -> (r: bool)
        ensures
            r == spec_is_set(self@, p),
    {
        match p {
            Param::AlphaTest => self.alpha_test.is_some(),
            Param::AlphaTestReference => self.alpha_test_reference.is_some(),
            Param::BaseTexture => self.base_texture.is_some(),
            Param::BumpMap => self.bump_map.is_some(),
            Param::Decal => self.decal.is_some(),
            Param::Detail => self.detail.is_some(),
            Param::DetailBlendFactor => self.detail_blend_factor.is_some(),
            Param::DetailBlendMode => self.detail_blend_mode.is_some(),
            Param::DetailScale => self.detail_scale.is_some(),
            Param::SelfIllum => self.self_illum.is_some(),
            Param::Translucent => self.translucent.is_some(),
        }
    }

    /// Sets parameter `p` from `value`, as [`spec_set`] says; unchanged on an error.
    pub fn set(&mut self, p: Param, value: &str) -> (r: Result<(), VmtError>)
        ensures
            match spec_set(old(self)@, p, value@) {
                Ok(v) => r is Ok && final(self)@ == v,
                Err(e) => r == Err::<(), VmtError>(e) && final(self)@ == old(self)@,
            },
    {
        match p {
            Param::AlphaTest | Param::SelfIllum | Param::Translucent => {
                let b = match parse_bool(value) {
                    Some(b) => b,
                    None => {
                        return Err(VmtError::BadBool(p));
                    },
                };
                if self.is_set(p) {
                    return Err(VmtError::Duplicate(p));
                }
                match p {
                    Param::AlphaTest => self.alpha_test = Some(b),
                    Param::SelfIllum => self.self_illum = Some(b),
                    _ => self.translucent = Some(b),
                }
            },
            Param::DetailBlendMode => {
                let n = match parse_i32(value) {
                    Some(n) => n,
                    None => {
                        return Err(VmtError::BadInt(p));
                    },
                };
                if self.is_set(p) {
                    return Err(VmtError::Duplicate(p));
                }
                self.detail_blend_mode = Some(n);
            },
            Param::AlphaTestReference | Param::DetailBlendFactor | Param::DetailScale => {
                if self.is_set(p) {
                    return Err(VmtError::Duplicate(p));
                }
                let text = String::from_str(value);
                match p {
                    Param::AlphaTestReference => self.alpha_test_reference = Some(text),
                    Param::DetailBlendFactor => self.detail_blend_factor = Some(text),
                    _ => self.detail_scale = Some(text),
                }
            },
            _ => {
                if self.is_set(p) {
                    return Err(VmtError::Duplicate(p));
                }
                let c = CanonicalPathBuf::from_str_canonicalize(value);
                match p {
                    Param::BaseTexture => self.base_texture = Some(c),
                    Param::BumpMap => self.bump_map = Some(c),
                    Param::Decal => self.decal = Some(c),
                    _ => self.detail = Some(c),
                }
            },
        }
        Ok(())
    }

    /// Takes one entry of the root object, as [`spec_apply`] says; unchanged on an error.
    pub fn apply(&mut self, entry: &VmtEntry) -> (r: Result<(), VmtError>)
        ensures
            match spec_apply(old(self)@, entry@) {
                Ok(v) => r is Ok && final(self)@ == v,
                Err(e) => r == Err::<(), VmtError>(e) && final(self)@ == old(self)@,
            },
    {
        match entry {
            VmtEntry::Object { .. } => Ok(()),
            VmtEntry::KeyValue { key, value } => {
                let k = to_ascii_lowercase(key.as_str());
                let ks = k.as_str();
                if ks.unicode_len() > 0 && ks.get_char(0) == '%' {
                    return Ok(());
                }
                match param_of(ks) {
                    Some(p) => self.set(p, value.as_str()),
                    None => Ok(()),
                }
            },
        }
    }
}

/// The material read from its shader name and the entries of its root object.
pub open spec fn spec_vmt(shader: Seq<char>, entries: Seq<EntryView>) -> Result<Option<ParamsView>, VmtError> {
    if shader == "LightmappedGeneric"@ {
        match spec_apply_all(entries, entries.len() as int) {
            Err(e) => Err(e),
            Ok(v) => if v.base_texture is None {
                Err(VmtError::MissingBaseTexture)
            } else {
                Ok(Some(v))
            },
        }
    } else if shader == "patch"@ || shader == "UnlitGeneric"@ || shader == "WorldVertexTransition"@ {
        Ok(None)
    } else {
        Err(VmtError::UnexpectedShader)
    }
}

/// Whether a shader's fields are the parameters `v` with their defaults: flags unset are clear,
/// and the alpha test reference unset is `0.5`.
pub open spec fn spec_shader_matches(s: VmtShader, v: ParamsView) -> bool {
    match s {
        VmtShader::LightmappedGeneric {
            alpha_test,
            alpha_test_reference,
            bump_map,
            base_texture,
            decal,
            detail,
            detail_blend_factor,
            detail_blend_mode,
            detail_scale,
            self_illum,
            translucent,
        } => {
            &&& alpha_test == (v.alpha_test == Some(true))
            &&& alpha_test_reference@ == match v.alpha_test_reference {
                Some(t) => t,
                None => "0.5"@,
            }
            &&& spec_opt_path(bump_map) == v.bump_map
            &&& v.base_texture == Some(base_texture@)
            &&& spec_opt_path(decal) == v.decal
            &&& spec_opt_path(detail) == v.detail
            &&& spec_opt_str(detail_blend_factor) == v.detail_blend_factor
            &&& detail_blend_mode == v.detail_blend_mode
            &&& spec_opt_str(detail_scale) == v.detail_scale
            &&& self_illum == (v.self_illum == Some(true))
            &&& translucent == (v.translucent == Some(true))
        },
        VmtShader::Unsupported => false,
    }
}

impl Vmt {
    /// Reads a material from its shader name and the entries of its root object. Only
    /// `LightmappedGeneric` reads its entries; `patch`, `UnlitGeneric` and
    /// `WorldVertexTransition` are recognized and not drawn.
    pub fn new(shader: &str, entries: &[VmtEntry]) -> (r: Result<Vmt, VmtError>)
        ensures
            match spec_vmt(shader@, entries@.map_values(|e: VmtEntry| e@)) {
                Err(e) => r matches Err(x) && x == e,
                Ok(None) => r matches Ok(m) && m.shader is Unsupported,
                Ok(Some(v)) => r matches Ok(m) && spec_shader_matches(m.shader, v),
            },
    {
        let ghost views = entries@.map_values(|e: VmtEntry| e@);
        if same_text(shader, "LightmappedGeneric") {
            let mut params = LightmappedParams::new();
            let n = entries.len();
            let mut i: usize = 0;
            while i < n
                invariant
                    n == entries@.len(),
                    i <= n,
                    views == entries@.map_values(|e: VmtEntry| e@),
                    shader@ == "LightmappedGeneric"@,
                    spec_apply_all(views, i as int) == Ok::<ParamsView, VmtError>(params@),
                decreases n - i,
            {
                let r = params.apply(&entries[i]);
                assert(views[i as int] == entries@[i as int]@);
                match r {
                    Ok(()) => {},
                    Err(e) => {
                        assert(spec_apply_all(views, n as int) == Err::<ParamsView, VmtError>(e)) by {
                            lemma_apply_all_error_stays(views, i as int + 1, n as int, e);
                        }
                        return Err(e);
                    },
                }
                i = i + 1;
            }
            let LightmappedParams {
                alpha_test,
                alpha_test_reference,
                base_texture,
                bump_map,
                decal,
                detail,
                detail_blend_factor,
                detail_blend_mode,
                detail_scale,
                self_illum,
                translucent,
            } = params;
            let base_texture = match base_texture {
                Some(b) => b,
                None => {
                    return Err(VmtError::MissingBaseTexture);
                },
            };
            let alpha_test_reference = match alpha_test_reference {
                Some(t) => t,
                None => String::from_str("0.5"),
            };
            Ok(
                Vmt {
                    shader: VmtShader::LightmappedGeneric {
                        alpha_test: alpha_test == Some(true),
                        alpha_test_reference,
                        bump_map,
                        base_texture,
                        decal,
                        detail,
                        detail_blend_factor,
                        detail_blend_mode,
                        detail_scale,
                        self_illum: self_illum == Some(true),
                        translucent: translucent == Some(true),
                    },
                },
            )
        } else if same_text(shader, "patch") || same_text(shader, "UnlitGeneric") || same_text(
            shader,
            "WorldVertexTransition",
        ) {
            Ok(Vmt { shader: VmtShader::Unsupported })
        } else {
            Err(VmtError::UnexpectedShader)
        }
    }
}

/// Once an entry fails, the entries after it do not matter.
proof fn lemma_apply_all_error_stays(entries: Seq<EntryView>, i: int, n: int, e: VmtError)
    requires
        0 < i <= n,
        spec_apply_all(entries, i) == Err::<ParamsView, VmtError>(e),
    ensures
        spec_apply_all(entries, n) == Err::<ParamsView, VmtError>(e),
    decreases n - i,
{
    if i < n {
        lemma_apply_all_error_stays(entries, i + 1, n, e);
    }
}

} // verus!
