//! A chat as this library stores it.
use vstd::prelude::*;
use crate::document::{str_at, int_at, Document, Value, ValueView};
use crate::record::Record;

verus! {

/// The collection of chat records.
pub const COLLECTION: &'static str = "chats";

pub const ID: &'static str = "id";
pub const TITLE: &'static str = "title";
pub const TYPE: &'static str = "type";

/// A chat of the messaging platform.
pub struct Chat {
    /// Negative for groups and channels.
    pub id: i64,
    pub title: String,
    /// "BasicGroup", "Private", "Secret", "Supergroup" or "Unknown".
    pub type_: String,
}

/// The document of a chat.
pub open spec fn chat_doc(id: i64, title: Seq<char>, type_: Seq<char>) -> Map<Seq<char>, ValueView> {
    Map::empty()
        .insert(ID@, ValueView::Int(id))
        .insert(TITLE@, ValueView::Str(title))
        .insert(TYPE@, ValueView::Str(type_))
}

/// A chat's document reads back as that chat.
pub proof fn lemma_chat_doc_round_trip(id: i64, title: Seq<char>, type_: Seq<char>)
    ensures
        int_at(chat_doc(id, title, type_), ID@) == Some(id),
        str_at(chat_doc(id, title, type_), TITLE@) == Some(title),
        str_at(chat_doc(id, title, type_), TYPE@) == Some(type_),
{
    reveal_strlit("id");
    reveal_strlit("title");
    reveal_strlit("type");
    assert(ID@.len() == 2 && TITLE@.len() == 5 && TYPE@.len() == 4);
}

impl Record for Chat {
    open spec fn collection_spec(&self) -> Seq<char> {
        COLLECTION@
    }

    open spec fn id_spec(&self) -> i64 {
        self.id
    }

    open spec fn doc_spec(&self) -> Map<Seq<char>, ValueView> {
        chat_doc(self.id, self.title@, self.type_@)
    }

    fn collection_name(&self) -> (r: &'static str) {
        COLLECTION
    }

    fn id(&self) -> (r: i64) {
        self.id
    }

    fn to_doc(&self) -> (r: Document) {
        let mut d = Document::new();
        d.insert(ID, Value::Int(self.id));
        d.insert(TITLE, Value::Str(self.title.clone()));
        d.insert(TYPE, Value::Str(self.type_.clone()));
        d
    }
}

impl Chat {
    /// Reads a chat from its document: none when a field is missing or holds
    /// another kind of value.
    pub fn from_doc(doc: &Document) -> (r: Option<Chat>)
        ensures
            r.is_some() == (int_at(doc@, ID@).is_some() && str_at(doc@, TITLE@).is_some() && str_at(
                doc@,
                TYPE@,
            ).is_some()),
            r matches Some(c) ==> c.id == int_at(doc@, ID@)->Some_0 && c.title@ == str_at(doc@, TITLE@)->Some_0
                && c.type_@ == str_at(doc@, TYPE@)->Some_0,
    {
        let id = match doc.get_i64(ID) { Some(v) => v, None => return None };
        let title = match doc.get_str(TITLE) { Some(v) => v, None => return None };
        let type_ = match doc.get_str(TYPE) { Some(v) => v, None => return None };
        Some(Chat { id, title, type_ })
    }

    /// Takes the title of a newer observation of the same chat.
    pub fn merge(&mut self, new: &Chat)
        ensures
            final(self).id == old(self).id,
            final(self).title@ == new.title@,
            final(self).type_@ == old(self).type_@,
    {
        self.title = new.title.clone();
    }
}

} // verus!
