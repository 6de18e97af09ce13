//! Documents: the field-and-value form in which records are stored.
use vstd::prelude::*;
use crate::text::{copy_strings, str_eq, strings_view};

verus! {

/// A field value.
pub enum Value {
    Int(i64),
    UInt(u64),
    Str(String),
    Bool(bool),
    StrList(Vec<String>),
}

/// The value of a `Value` with its strings as character sequences.
pub enum ValueView {
    Int(i64),
    UInt(u64),
    Str(Seq<char>),
    Bool(bool),
    StrList(Seq<Seq<char>>),
}

impl View for Value {
    type V = ValueView;

    open spec fn view(&self) -> ValueView {
        match self {
            Value::Int(i) => ValueView::Int(*i),
            Value::UInt(u) => ValueView::UInt(*u),
            Value::Str(s) => ValueView::Str(s@),
            Value::Bool(b) => ValueView::Bool(*b),
            Value::StrList(v) => ValueView::StrList(strings_view(v@)),
        }
    }
}

/// The fields of a document as a map; of two fields with one name, the later one counts.
pub open spec fn fields_map(s: Seq<(String, Value)>) -> Map<Seq<char>, ValueView>
    decreases s.len(),
{
    if s.len() == 0 {
        Map::empty()
    } else {
        fields_map(s.drop_last()).insert(s.last().0@, s.last().1@)
    }
}

/// A document: named field values.
pub struct Document {
    pub fields: Vec<(String, Value)>,
}

impl View for Document {
    type V = Map<Seq<char>, ValueView>;

    open spec fn view(&self) -> Map<Seq<char>, ValueView> {
        fields_map(self.fields@)
    }
}

/// The value of field `k` of `d`, if it has one.
pub open spec fn field(d: Map<Seq<char>, ValueView>, k: Seq<char>) -> Option<ValueView> {
    if d.contains_key(k) {
        Some(d[k])
    } else {
        None
    }
}

/// The integer in field `k`, if it holds one.
pub open spec fn int_at(d: Map<Seq<char>, ValueView>, k: Seq<char>) -> Option<i64> {
    match field(d, k) {
        Some(ValueView::Int(i)) => Some(i),
        _ => None,
    }
}

/// The string in field `k`, if it holds one.
pub open spec fn str_at(d: Map<Seq<char>, ValueView>, k: Seq<char>) -> Option<Seq<char>> {
    match field(d, k) {
        Some(ValueView::Str(s)) => Some(s),
        _ => None,
    }
}

/// The flag in field `k`, if it holds one.
pub open spec fn bool_at(d: Map<Seq<char>, ValueView>, k: Seq<char>) -> Option<bool> {
    match field(d, k) {
        Some(ValueView::Bool(b)) => Some(b),
        _ => None,
    }
}

/// The string list in field `k`, if it holds one.
pub open spec fn list_at(d: Map<Seq<char>, ValueView>, k: Seq<char>) -> Option<Seq<Seq<char>>> {
    match field(d, k) {
        Some(ValueView::StrList(l)) => Some(l),
        _ => None,
    }
}

/// The string in field `k`, or `default` when it holds none.
pub open spec fn str_or(d: Map<Seq<char>, ValueView>, k: Seq<char>, default: Seq<char>) -> Seq<char> {
    match str_at(d, k) {
        Some(s) => s,
        None => default,
    }
}

/// The flag in field `k`, or `default` when it holds none.
pub open spec fn bool_or(d: Map<Seq<char>, ValueView>, k: Seq<char>, default: bool) -> bool {
    match bool_at(d, k) {
        Some(b) => b,
        None => default,
    }
}

/// The fields of `a` followed by those of `b` form `a`'s map updated by `b`'s.
pub proof fn lemma_fields_concat(a: Seq<(String, Value)>, b: Seq<(String, Value)>)
    ensures
        fields_map(a + b) == fields_map(a).union_prefer_right(fields_map(b)),
    decreases b.len(),
{
    if b.len() == 0 {
        assert(a + b =~= a);
        assert(fields_map(a).union_prefer_right(fields_map(b)) =~= fields_map(a));
    } else {
        lemma_fields_concat(a, b.drop_last());
        assert((a + b).drop_last() =~= a + b.drop_last());
        assert((a + b).last() == b.last());
        assert(fields_map(a + b) =~= fields_map(a).union_prefer_right(fields_map(b)));
    }
}

impl Document {
    /// A document without fields.
    pub fn new() -> (r: Document)
        ensures
            r@ == Map::<Seq<char>, ValueView>::empty(),
    {
        Document { fields: Vec::new() }
    }

    /// Sets field `key` to `value`.
    pub fn insert(&mut self, key: &str, value: Value)
        ensures
            final(self)@ == old(self)@.insert(key@, value@),
    {
        let ghost before = self.fields@;
        self.fields.push((String::from_str(key), value));
        assert(self.fields@.drop_last() =~= before);
    }

    /// Sets every field of `other` in this document, keeping the others.
    pub fn set_all(&mut self, other: Document)
        ensures
            final(self)@ == old(self)@.union_prefer_right(other@),
    {
        let mut other = other;
        let ghost a = self.fields@;
        let ghost b = other.fields@;
        self.fields.append(&mut other.fields);
        proof {
            lemma_fields_concat(a, b);
        }
    }

    /// The value of field `key`, if there is one.
    pub fn get(&self, key: &str) -> (r: Option<&Value>)
        ensures
            r matches Some(v) ==> field(self@, key@) == Some(v@),
            r.is_none() ==> field(self@, key@).is_none(),
    {
        let mut i: usize = self.fields.len();
        assert(self.fields@.take(i as int) =~= self.fields@);
        while i > 0
            invariant
                0 <= i <= self.fields@.len(),
                field(self@, key@) == field(fields_map(self.fields@.take(i as int)), key@),
            decreases i,
        {
            let ghost s = self.fields@.take(i as int);
            assert(s.drop_last() =~= self.fields@.take(i - 1));
            if str_eq(self.fields[i - 1].0.as_str(), key) {
                return Some(&self.fields[i - 1].1);
            }
            i -= 1;
        }
        None
    }

    /// The integer in field `key`, if it holds one.
    pub fn get_i64(&self, key: &str) -> (r: Option<i64>)
        ensures
            r == int_at(self@, key@),
    {
        match self.get(key) {
            Some(Value::Int(i)) => Some(*i),
            _ => None,
        }
    }

    /// The string in field `key`, if it holds one.
    pub fn get_str(&self, key: &str) -> (r: Option<String>)
        ensures
            r matches Some(s) ==> str_at(self@, key@) == Some(s@),
            r.is_none() ==> str_at(self@, key@).is_none(),
    {
        match self.get(key) {
            Some(Value::Str(s)) => Some(s.clone()),
            _ => None,
        }
    }

    /// The string in field `key`, or an empty string when it holds none.
    pub fn get_str_or_empty(&self, key: &str) -> (r: String)
        ensures
            r@ == str_or(self@, key@, Seq::empty()),
    {
        match self.get_str(key) {
            Some(s) => s,
            None => String::new(),
        }
    }

    /// The flag in field `key`, or `default` when it holds none.
    pub fn get_bool_or(&self, key: &str, default: bool) -> (r: bool)
        ensures
            r == bool_or(self@, key@, default),
    {
        match self.get_bool(key) {
            Some(b) => b,
            None => default,
        }
    }

    /// The flag in field `key`, if it holds one.
    pub fn get_bool(&self, key: &str) -> (r: Option<bool>)
        ensures
            r == bool_at(self@, key@),
    {
        match self.get(key) {
            Some(Value::Bool(b)) => Some(*b),
            _ => None,
        }
    }

    /// The string list in field `key`, if it holds one.
    pub fn get_str_list(&self, key: &str) -> (r: Option<Vec<String>>)
        ensures
            r matches Some(l) ==> list_at(self@, key@) == Some(strings_view(l@)),
            r.is_none() ==> list_at(self@, key@).is_none(),
    {
        match self.get(key) {
            Some(Value::StrList(l)) => Some(copy_strings(l)),
            _ => None,
        }
    }
}

} // verus!
