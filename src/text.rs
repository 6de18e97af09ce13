//! Text normalisation and matching used by the classifier.
use vstd::prelude::*;

verus! {

/// The ASCII transliteration of a character sequence, as computed by the
/// `unidecode` crate.
pub uninterp spec fn unidecode_of(s: Seq<char>) -> Seq<char>;

/// The upper-case form of a character sequence, as computed by `str::to_uppercase`.
pub uninterp spec fn upper_of(s: Seq<char>) -> Seq<char>;

/// `needle` occurs as a contiguous part of `hay`.
pub open spec fn is_infix(needle: Seq<char>, hay: Seq<char>) -> bool {
    exists|i: int|
        0 <= i && i + needle.len() <= hay.len() && #[trigger] hay.subrange(i, i + needle.len())
            == needle
}

/// The character sequences of a sequence of strings.
pub open spec fn strings_view(v: Seq<String>) -> Seq<Seq<char>> {
    v.map_values(|s: String| s@)
}

/// Some string of `keys` occurs in `hay`.
pub open spec fn any_infix(keys: Seq<String>, hay: Seq<char>) -> bool {
    exists|i: int| 0 <= i < keys.len() && is_infix(#[trigger] keys[i]@, hay)
}

/// Relies on `unidecode::unidecode`: its transliteration depends on the characters alone.
#[verifier::external_body]
pub(crate) fn transliterate(s: &str) -> (r: String)
    ensures
        r@ == unidecode_of(s@),
{
    unidecode::unidecode(s)
}

/// Relies on `str::to_uppercase`: the result depends on the characters alone.
#[verifier::external_body]
pub(crate) fn uppercase(s: &str) -> (r: String)
    ensures
        r@ == upper_of(s@),
{
    s.to_uppercase()
}

/// Relies on `str::contains` with a `&str` pattern: true exactly when `needle`
/// is a sub-slice of `hay`.
#[verifier::external_body]
pub(crate) fn contains(hay: &str, needle: &str) -> (r: bool)
    ensures
        r == is_infix(needle@, hay@),
{
    hay.contains(needle)
}

/// Whether some string of `keys` occurs in `hay`.
pub fn contains_any(keys: &Vec<String>, hay: &str) -> (r: bool)
    ensures
        r == any_infix(keys@, hay@),
{
    let mut i: usize = 0;
    while i < keys.len()
        invariant
            0 <= i <= keys.len(),
            forall|j: int| 0 <= j < i ==> !is_infix(#[trigger] keys@[j]@, hay@),
        decreases keys.len() - i,
    {
        if contains(hay, keys[i].as_str()) {
            return true;
        }
        i += 1;
    }
    false
}

/// A copy of the strings of `v`.
pub fn copy_strings(v: &Vec<String>) -> (r: Vec<String>)
    ensures
        strings_view(r@) == strings_view(v@),
{
    let mut r: Vec<String> = Vec::new();
    let mut i: usize = 0;
    while i < v.len()
        invariant
            0 <= i <= v.len(),
            r@.len() == i,
            forall|j: int| 0 <= j < i ==> (#[trigger] r@[j])@ == v@[j]@,
        decreases v.len() - i,
    {
        r.push(v[i].clone());
        i += 1;
    }
    assert(strings_view(r@) =~= strings_view(v@));
    r
}

/// Character-wise equality of two strings.
pub fn str_eq(a: &str, b: &str) -> (r: bool)
    ensures
        r == (a@ == b@),
{
    let sa = String::from_str(a);
    let sb = String::from_str(b);
    sa == sb
}

} // verus!
