//! The configuration records kept in the document store: keyword lists and
//! forbidden names.
use vstd::prelude::*;
use crate::document::{list_at, Document, Value, ValueView};
use crate::record::Record;
use crate::text::{copy_strings, strings_view, any_infix, contains_any, upper_of, uppercase};

verus! {

/// The collection of configuration records.
pub const COLLECTION: &'static str = "config";

/// The id of the keyword lists in the configuration collection.
pub const KEYWORDS_ID: i64 = 0;

/// The id of the forbidden names in the configuration collection.
pub const FORBIDDEN_NAMES_ID: i64 = 1;

pub const ID: &'static str = "id";
pub const FR: &'static str = "fr";
pub const EN: &'static str = "en";
pub const DE: &'static str = "de";
pub const NAMES: &'static str = "names";

/// Per-language lists of upper-cased keywords whose presence marks a scam.
pub struct Keywords {
    pub fr: Vec<String>,
    pub en: Vec<String>,
    pub de: Vec<String>,
}

/// Upper-cased names that mark a new user as a likely scammer.
pub struct ForbiddenNames {
    pub names: Vec<String>,
}

/// Which keyword list matched a text, the lists being tried in the order
/// French, English, German.
#[derive(PartialEq, Eq, Structural, Clone, Copy, Debug)]
pub enum KeywordMatch {
    FrMatch,
    EnMatch,
    DeMatch,
    NoneMatch,
}

/// `v` with each string upper-cased.
pub open spec fn all_upper(v: Seq<Seq<char>>, r: Seq<String>) -> bool {
    r.len() == v.len() && forall|i: int| 0 <= i < v.len() ==> (#[trigger] r[i])@ == upper_of(v[i])
}

/// Upper-cases every string of `v`.
pub fn uppercase_all(v: &Vec<String>) -> (r: Vec<String>)
    ensures
        all_upper(strings_view(v@), r@),
{
    let mut r: Vec<String> = Vec::new();
    let mut i: usize = 0;
    while i < v.len()
        invariant
            0 <= i <= v.len(),
            r@.len() == i,
            forall|j: int| 0 <= j < i ==> (#[trigger] r@[j])@ == upper_of(v@[j]@),
        decreases v.len() - i,
    {
        r.push(uppercase(v[i].as_str()));
        i += 1;
    }
    r
}

/// The list that `text_match` reports for an upper-cased text.
pub open spec fn keyword_match_of(fr: Seq<String>, en: Seq<String>, de: Seq<String>, t: Seq<char>) -> KeywordMatch {
    if any_infix(fr, t) {
        KeywordMatch::FrMatch
    } else if any_infix(en, t) {
        KeywordMatch::EnMatch
    } else if any_infix(de, t) {
        KeywordMatch::DeMatch
    } else {
        KeywordMatch::NoneMatch
    }
}

impl Record for Keywords {
    open spec fn collection_spec(&self) -> Seq<char> {
        COLLECTION@
    }

    open spec fn id_spec(&self) -> i64 {
        KEYWORDS_ID
    }

    open spec fn doc_spec(&self) -> Map<Seq<char>, ValueView> {
        Map::empty()
            .insert(ID@, ValueView::Int(KEYWORDS_ID))
            .insert(FR@, ValueView::StrList(strings_view(self.fr@)))
            .insert(EN@, ValueView::StrList(strings_view(self.en@)))
            .insert(DE@, ValueView::StrList(strings_view(self.de@)))
    }

    fn collection_name(&self) -> (r: &'static str) {
        COLLECTION
    }

    fn id(&self) -> (r: i64) {
        KEYWORDS_ID
    }

    fn to_doc(&self) -> (r: Document) {
        let mut d = Document::new();
        d.insert(ID, Value::Int(KEYWORDS_ID));
        d.insert(FR, Value::StrList(copy_strings(&self.fr)));
        d.insert(EN, Value::StrList(copy_strings(&self.en)));
        d.insert(DE, Value::StrList(copy_strings(&self.de)));
        d
    }
}

impl Record for ForbiddenNames {
    open spec fn collection_spec(&self) -> Seq<char> {
        COLLECTION@
    }

    open spec fn id_spec(&self) -> i64 {
        FORBIDDEN_NAMES_ID
    }

    open spec fn doc_spec(&self) -> Map<Seq<char>, ValueView> {
        Map::empty()
            .insert(ID@, ValueView::Int(FORBIDDEN_NAMES_ID))
            .insert(NAMES@, ValueView::StrList(strings_view(self.names@)))
    }

    fn collection_name(&self) -> (r: &'static str) {
        COLLECTION
    }

    fn id(&self) -> (r: i64) {
        FORBIDDEN_NAMES_ID
    }

    fn to_doc(&self) -> (r: Document) {
        let mut d = Document::new();
        d.insert(ID, Value::Int(FORBIDDEN_NAMES_ID));
        d.insert(NAMES, Value::StrList(copy_strings(&self.names)));
        d
    }
}

impl Keywords {
    /// Reads the keyword lists from their document, upper-casing every
    /// keyword: none when a list is missing.
    pub fn from_doc(doc: &Document) -> (r: Option<Keywords>)
        ensures
            r.is_some() == (list_at(doc@, FR@).is_some() && list_at(doc@, EN@).is_some() && list_at(
                doc@,
                DE@,
            ).is_some()),
            r matches Some(k) ==> all_upper(list_at(doc@, FR@)->Some_0, k.fr@) && all_upper(
                list_at(doc@, EN@)->Some_0,
                k.en@,
            ) && all_upper(list_at(doc@, DE@)->Some_0, k.de@),
    {
        let fr = match doc.get_str_list(FR) { Some(v) => v, None => return None };
        let en = match doc.get_str_list(EN) { Some(v) => v, None => return None };
        let de = match doc.get_str_list(DE) { Some(v) => v, None => return None };
        Some(Keywords::new(&fr, &en, &de))
    }

    /// Keyword lists from the given words, upper-cased as they are stored.
    pub fn new(fr: &Vec<String>, en: &Vec<String>, de: &Vec<String>) -> (r: Keywords)
        ensures
            all_upper(strings_view(fr@), r.fr@),
            all_upper(strings_view(en@), r.en@),
            all_upper(strings_view(de@), r.de@),
    {
        Keywords { fr: uppercase_all(fr), en: uppercase_all(en), de: uppercase_all(de) }
    }

    /// The first list, in the order French, English, German, with a keyword
    /// that occurs in `text` as given.
    pub fn match_upper(&self, text: &str) -> (r: KeywordMatch)
        ensures
            r == keyword_match_of(self.fr@, self.en@, self.de@, text@),
    {
        if contains_any(&self.fr, text) {
            KeywordMatch::FrMatch
        } else if contains_any(&self.en, text) {
            KeywordMatch::EnMatch
        } else if contains_any(&self.de, text) {
            KeywordMatch::DeMatch
        } else {
            KeywordMatch::NoneMatch
        }
    }

    /// The first list, in the order French, English, German, with a keyword
    /// that occurs in the upper-cased `text`.
    pub fn text_match(&self, text: &str) -> (r: KeywordMatch)
        ensures
            r == keyword_match_of(self.fr@, self.en@, self.de@, upper_of(text@)),
    {
        let upper = uppercase(text);
        self.match_upper(upper.as_str())
    }
}

impl ForbiddenNames {
    /// Reads the forbidden names from their document, upper-casing every
    /// name: none when the list is missing.
    pub fn from_doc(doc: &Document) -> (r: Option<ForbiddenNames>)
        ensures
            r.is_some() == list_at(doc@, NAMES@).is_some(),
            r matches Some(f) ==> all_upper(list_at(doc@, NAMES@)->Some_0, f.names@),
    {
        match doc.get_str_list(NAMES) {
            Some(v) => Some(ForbiddenNames::new(&v)),
            None => None,
        }
    }

    /// A list from the given names, upper-cased as they are stored.
    pub fn new(names: &Vec<String>) -> (r: ForbiddenNames)
        ensures
            all_upper(strings_view(names@), r.names@),
    {
        ForbiddenNames { names: uppercase_all(names) }
    }

    /// Whether some forbidden name occurs in `first` or in `last` as given.
    pub fn match_upper(&self, first: &str, last: &str) -> (r: bool)
        ensures
            r == (any_infix(self.names@, first@) || any_infix(self.names@, last@)),
    {
        contains_any(&self.names, first) || contains_any(&self.names, last)
    }

    /// Whether some forbidden name occurs in the upper-cased first or last name.
    pub fn name_match(&self, first_name: &str, last_name: &str) -> (r: bool)
        ensures
            r == (any_infix(self.names@, upper_of(first_name@)) || any_infix(
                self.names@,
                upper_of(last_name@),
            )),
    {
        let first = uppercase(first_name);
        let last = uppercase(last_name);
        self.match_upper(first.as_str(), last.as_str())
    }
}

} // verus!
