//! Records: entities stored as documents, one per id in their collection.
use vstd::prelude::*;
use crate::document::{Document, ValueView};

verus! {

/// An entity stored as a document in a collection, under its own integer id.
/// Its document serves both to insert it and, applied field by field, to
/// update a stored one.
pub trait Record {
    /// The collection the record is stored in.
    spec fn collection_spec(&self) -> Seq<char>;

    /// The record's id.
    spec fn id_spec(&self) -> i64;

    /// The record's document.
    spec fn doc_spec(&self) -> Map<Seq<char>, ValueView>;

    fn collection_name(&self) -> (r: &'static str)
        ensures
            r@ == self.collection_spec(),
    ;

    fn id(&self) -> (r: i64)
        ensures
            r == self.id_spec(),
    ;

    fn to_doc(&self) -> (r: Document)
        ensures
            r@ == self.doc_spec(),
    ;
}

} // verus!
