//! A document store kept in memory: collections of documents, at most one per
//! id in each, with insert-or-update saving.
use vstd::prelude::*;
use crate::document::{int_at, Document, Value, ValueView};
use crate::text::str_eq;
use crate::record::Record;

verus! {

/// A stored document with its collection and id.
pub struct Entry {
    pub collection: String,
    pub id: i64,
    pub doc: Document,
}

/// Where a document is stored: its collection and its id.
pub type Key = (Seq<char>, i64);

/// The view of a document.
pub type DocView = Map<Seq<char>, ValueView>;

pub open spec fn key_of(e: Entry) -> Key {
    (e.collection@, e.id)
}

/// The stored documents by key; of two entries with one key, the later counts.
pub open spec fn entries_map(s: Seq<Entry>) -> Map<Key, DocView>
    decreases s.len(),
{
    if s.len() == 0 {
        Map::empty()
    } else {
        entries_map(s.drop_last()).insert(key_of(s.last()), s.last().doc@)
    }
}

/// No two entries share a key.
pub open spec fn unique_keys(s: Seq<Entry>) -> bool {
    forall|i: int, j: int|
        0 <= i < j < s.len() ==> key_of(#[trigger] s[i]) != key_of(#[trigger] s[j])
}

/// The field that holds a stored document's id.
pub const ID_FIELD: &'static str = "id";

/// `doc` with its id field set to `id`.
pub open spec fn with_id(doc: DocView, id: i64) -> DocView {
    doc.insert(ID_FIELD@, ValueView::Int(id))
}

/// Every entry's document holds the entry's id in its id field.
pub open spec fn ids_in_docs(s: Seq<Entry>) -> bool {
    forall|i: int| 0 <= i < s.len() ==> int_at((#[trigger] s[i]).doc@, ID_FIELD@) == Some(s[i].id)
}

/// The store's documents after saving `doc` under `key`, its id field set to
/// the key's id: inserted when none is stored there, else the stored one with
/// the fields of `doc` replaced or added.
pub open spec fn saved(m: Map<Key, DocView>, key: Key, doc: DocView) -> Map<Key, DocView> {
    if m.contains_key(key) {
        m.insert(key, m[key].union_prefer_right(with_id(doc, key.1)))
    } else {
        m.insert(key, with_id(doc, key.1))
    }
}

proof fn lemma_entry_found(s: Seq<Entry>, i: int)
    requires
        unique_keys(s),
        0 <= i < s.len(),
    ensures
        entries_map(s).contains_key(key_of(s[i])),
        entries_map(s)[key_of(s[i])] == s[i].doc@,
    decreases s.len(),
{
    if i < s.len() - 1 {
        assert(key_of(s[i]) != key_of(s[s.len() - 1]));
        assert(s.drop_last()[i] == s[i]);
        lemma_entry_found(s.drop_last(), i);
    }
}

proof fn lemma_entry_absent(s: Seq<Entry>, k: Key)
    requires
        forall|i: int| 0 <= i < s.len() ==> key_of(#[trigger] s[i]) != k,
    ensures
        !entries_map(s).contains_key(k),
    decreases s.len(),
{
    if s.len() > 0 {
        assert(key_of(s[s.len() - 1]) != k);
        assert forall|i: int| 0 <= i < s.drop_last().len() implies key_of(
            #[trigger] s.drop_last()[i],
        ) != k by {
            assert(s.drop_last()[i] == s[i]);
        }
        lemma_entry_absent(s.drop_last(), k);
    }
}

proof fn lemma_entry_update(s: Seq<Entry>, i: int, e: Entry)
    requires
        unique_keys(s),
        0 <= i < s.len(),
        key_of(e) == key_of(s[i]),
    ensures
        entries_map(s.update(i, e)) == entries_map(s).insert(key_of(e), e.doc@),
    decreases s.len(),
{
    let t = s.update(i, e);
    if i == s.len() - 1 {
        assert(t.drop_last() =~= s.drop_last());
        assert(entries_map(t) =~= entries_map(s).insert(key_of(e), e.doc@));
    } else {
        assert(t.drop_last() =~= s.drop_last().update(i, e));
        assert(key_of(s[i]) != key_of(s[s.len() - 1]));
        lemma_entry_update(s.drop_last(), i, e);
        assert(entries_map(t) =~= entries_map(s).insert(key_of(e), e.doc@));
    }
}

/// Documents in collections, at most one per (collection, id).
pub struct MemoryStore {
    entries: Vec<Entry>,
}

impl View for MemoryStore {
    type V = Map<Key, DocView>;

    closed spec fn view(&self) -> Map<Key, DocView> {
        entries_map(self.entries@)
    }
}

impl MemoryStore {
    /// The store holds at most one document per (collection, id), and each
    /// document holds its id in its id field.
    #[verifier::type_invariant]
    spec fn inv(&self) -> bool {
        unique_keys(self.entries@) && ids_in_docs(self.entries@)
    }

    /// An empty store.
    pub fn new() -> (r: MemoryStore)
        ensures
            r@ == Map::<Key, DocView>::empty(),
    {
        MemoryStore { entries: Vec::new() }
    }

    /// The index of the entry stored under (`collection`, `id`), if any.
    fn find(&self, collection: &str, id: i64) -> (r: Option<usize>)
        ensures
            r matches Some(i) ==> i < self.entries@.len() && key_of(self.entries@[i as int]) == (
                collection@,
                id,
            ),
            r.is_none() ==> !self@.contains_key((collection@, id)),
            r.is_none() ==> forall|j: int|
                0 <= j < self.entries@.len() ==> key_of(#[trigger] self.entries@[j]) != (collection@, id),
    {
        proof {
            use_type_invariant(self);
        }
        let mut i: usize = 0;
        while i < self.entries.len()
            invariant
                0 <= i <= self.entries@.len(),
                forall|j: int|
                    0 <= j < i ==> key_of(#[trigger] self.entries@[j]) != (collection@, id),
            decreases self.entries@.len() - i,
        {
            if self.entries[i].id == id && str_eq(self.entries[i].collection.as_str(), collection) {
                return Some(i);
            }
            i += 1;
        }
        proof {
            lemma_entry_absent(self.entries@, (collection@, id));
        }
        None
    }

    /// The document stored under (`collection`, `id`), if any.
    pub fn get_doc(&self, collection: &str, id: i64) -> (r: Option<&Document>)
        ensures
            r matches Some(d) ==> self@.contains_key((collection@, id)) && d@ == self@[(
                collection@,
                id,
            )] && int_at(d@, ID_FIELD@) == Some(id),
            r.is_none() ==> !self@.contains_key((collection@, id)),
    {
        proof {
            use_type_invariant(self);
        }
        match self.find(collection, id) {
            Some(i) => {
                proof {
                    lemma_entry_found(self.entries@, i as int);
                }
                Some(&self.entries[i].doc)
            },
            None => None,
        }
    }

    /// Saves `doc` under (`collection`, `id`): inserts it when nothing is
    /// stored there, else replaces or adds its fields in the stored document.
    pub fn save(&mut self, collection: &str, id: i64, doc: Document)
        ensures
            final(self)@ == saved(old(self)@, (collection@, id), doc@),
    {
        let mut doc = doc;
        doc.insert(ID_FIELD, Value::Int(id));
        proof {
            use_type_invariant(&*self);
        }
        let found = self.find(collection, id);
        let mut taken = MemoryStore::new();
        std::mem::swap(self, &mut taken);
        let mut entries = taken.entries;
        let ghost s = entries@;
        match found {
            Some(i) => {
                proof {
                    lemma_entry_found(s, i as int);
                }
                let mut stored = Document::new();
                std::mem::swap(&mut stored, &mut entries[i].doc);
                stored.set_all(doc);
                let ghost e = Entry { collection: s[i as int].collection, id, doc: stored };
                entries[i].doc = stored;
                proof {
                    assert(entries@ =~= s.update(i as int, e));
                    lemma_entry_update(s, i as int, e);
                    assert forall|a: int, b: int|
                        0 <= a < b < entries@.len() implies key_of(#[trigger] entries@[a]) != key_of(
                        #[trigger] entries@[b],
                    ) by {
                        assert(key_of(entries@[a]) == key_of(s[a]));
                        assert(key_of(entries@[b]) == key_of(s[b]));
                    }
                    assert(int_at(entries@[i as int].doc@, ID_FIELD@) == Some(id));
                    assert forall|a: int| 0 <= a < entries@.len() implies int_at(
                        (#[trigger] entries@[a]).doc@,
                        ID_FIELD@,
                    ) == Some(entries@[a].id) by {
                        if a != i {
                            assert(entries@[a] == s[a]);
                        }
                    }
                }
            },
            None => {
                entries.push(Entry { collection: String::from_str(collection), id, doc });
                proof {
                    assert(entries@.drop_last() =~= s);
                    assert forall|a: int| 0 <= a < entries@.len() implies int_at(
                        (#[trigger] entries@[a]).doc@,
                        ID_FIELD@,
                    ) == Some(entries@[a].id) by {
                        if a < s.len() {
                            assert(entries@[a] == s[a]);
                        }
                    }
                }
            },
        }
        *self = MemoryStore { entries };
    }

    /// Saves a record in its collection under its id, as `save` does.
    pub fn save_doc<R: Record>(&mut self, record: &R)
        ensures
            final(self)@ == saved(old(self)@, (record.collection_spec(), record.id_spec()), record.doc_spec()),
    {
        self.save(record.collection_name(), record.id(), record.to_doc());
    }
}

/// Saving is idempotent: saving one document twice under one key leaves what
/// saving it once left, with exactly that key added; the stored document
/// holds the document's values in the fields it names, and the key's id in
/// its id field.
pub proof fn lemma_save_idempotent(m: Map<Key, DocView>, key: Key, doc: DocView)
    ensures
        saved(saved(m, key, doc), key, doc) == saved(m, key, doc),
        saved(saved(m, key, doc), key, doc).dom() == m.dom().insert(key),
        forall|f: Seq<char>|
            #[trigger] doc.contains_key(f) && f != ID_FIELD@ ==> saved(saved(m, key, doc), key, doc)[key].contains_key(f)
                && saved(saved(m, key, doc), key, doc)[key][f] == doc[f],
        int_at(saved(saved(m, key, doc), key, doc)[key], ID_FIELD@) == Some(key.1),
{
    let once = saved(m, key, doc);
    assert(once[key].union_prefer_right(with_id(doc, key.1)) =~= once[key]);
    assert(saved(once, key, doc) =~= once);
    assert(once.dom() =~= m.dom().insert(key));
}

/// How a record is written to a store that already holds a document under
/// its key, or does not.
pub enum SaveAction {
    /// Insert this document.
    Insert(Document),
    /// Set these fields of the stored document.
    Update(Document),
}

/// The write that saves `record`: an insert of its document when none is
/// stored under its key, else an update setting its document's fields.
pub fn save_action<R: Record>(stored: bool, record: &R) -> (r: SaveAction)
    ensures
        !stored ==> (r matches SaveAction::Insert(d) && d@ == record.doc_spec()),
        stored ==> (r matches SaveAction::Update(d) && d@ == record.doc_spec()),
{
    let doc = record.to_doc();
    if stored {
        SaveAction::Update(doc)
    } else {
        SaveAction::Insert(doc)
    }
}

} // verus!
