//! A chat message as this library stores it.
use vstd::prelude::*;
use crate::document::{bool_at, int_at, list_at, str_at, Document, Value, ValueView};
use crate::record::Record;
use crate::text::{copy_strings, str_eq, strings_view};

verus! {

/// The collection of message records.
pub const COLLECTION: &'static str = "messages";

pub const ID: &'static str = "id";
pub const SENDER: &'static str = "sender";
pub const CHAT_ID: &'static str = "chat_id";
pub const DATE: &'static str = "date";
pub const EDIT_DATE: &'static str = "edit_date";
pub const RESTRICTION_REASON: &'static str = "restriction_reason";
pub const TYPE: &'static str = "type";
pub const CONTENT: &'static str = "content";
pub const EXTRA: &'static str = "extra";
pub const IS_SCAM: &'static str = "is_scam";
pub const TRIGGER: &'static str = "trigger";

/// The content-type tag of a plain text message.
pub const TEXT_TAG: &'static str = "MessageText";

/// The content-type tag of a photo, whose caption is its text.
pub const PHOTO_TAG: &'static str = "MessagePhoto";

/// The content-type tag of a video, whose caption is its text.
pub const VIDEO_TAG: &'static str = "MessageVideo";

/// A message of the messaging platform.
pub struct Message {
    pub id: i64,
    /// The sending user's id, 0 when the sender is not a user.
    pub sender: i64,
    /// Negative for groups and channels, non-negative for one-to-one chats.
    pub chat_id: i64,
    /// Sending time, in seconds since the Unix epoch.
    pub date: i64,
    pub edit_date: i64,
    pub restriction_reason: String,
    /// The content-type tag, such as "MessageText".
    pub type_: String,
    /// The text of a text message, or the caption of a photo or video; empty otherwise.
    pub content: String,
    pub extra: Vec<String>,
    pub is_scam: bool,
    /// Whether this message caused a sanction.
    pub trigger: bool,
    /// Whether the message was sent by this account itself. Not stored.
    pub is_outgoing: bool,
}

/// The value of a `Message` with its strings as character sequences.
pub struct MessageView {
    pub id: i64,
    pub sender: i64,
    pub chat_id: i64,
    pub date: i64,
    pub edit_date: i64,
    pub restriction_reason: Seq<char>,
    pub type_: Seq<char>,
    pub content: Seq<char>,
    pub extra: Seq<Seq<char>>,
    pub is_scam: bool,
    pub trigger: bool,
    pub is_outgoing: bool,
}

impl View for Message {
    type V = MessageView;

    open spec fn view(&self) -> MessageView {
        MessageView {
            id: self.id,
            sender: self.sender,
            chat_id: self.chat_id,
            date: self.date,
            edit_date: self.edit_date,
            restriction_reason: self.restriction_reason@,
            type_: self.type_@,
            content: self.content@,
            extra: strings_view(self.extra@),
            is_scam: self.is_scam,
            trigger: self.trigger,
            is_outgoing: self.is_outgoing,
        }
    }
}

/// The document of a message. Whether it is outgoing is not stored.
pub open spec fn message_doc(m: MessageView) -> Map<Seq<char>, ValueView> {
    Map::empty()
        .insert(ID@, ValueView::Int(m.id))
        .insert(SENDER@, ValueView::Int(m.sender))
        .insert(CHAT_ID@, ValueView::Int(m.chat_id))
        .insert(DATE@, ValueView::Int(m.date))
        .insert(EDIT_DATE@, ValueView::Int(m.edit_date))
        .insert(RESTRICTION_REASON@, ValueView::Str(m.restriction_reason))
        .insert(TYPE@, ValueView::Str(m.type_))
        .insert(CONTENT@, ValueView::Str(m.content))
        .insert(EXTRA@, ValueView::StrList(m.extra))
        .insert(IS_SCAM@, ValueView::Bool(m.is_scam))
        .insert(TRIGGER@, ValueView::Bool(m.trigger))
}

/// A document can be read as a message when every stored field is there,
/// with the right kind of value.
pub open spec fn is_message_doc(d: Map<Seq<char>, ValueView>) -> bool {
    &&& int_at(d, ID@).is_some()
    &&& int_at(d, SENDER@).is_some()
    &&& int_at(d, CHAT_ID@).is_some()
    &&& int_at(d, DATE@).is_some()
    &&& int_at(d, EDIT_DATE@).is_some()
    &&& str_at(d, RESTRICTION_REASON@).is_some()
    &&& str_at(d, TYPE@).is_some()
    &&& str_at(d, CONTENT@).is_some()
    &&& list_at(d, EXTRA@).is_some()
    &&& bool_at(d, IS_SCAM@).is_some()
    &&& bool_at(d, TRIGGER@).is_some()
}

/// The message that a document describes; it reads as not outgoing.
pub open spec fn message_of_doc(d: Map<Seq<char>, ValueView>) -> MessageView {
    MessageView {
        id: int_at(d, ID@)->Some_0,
        sender: int_at(d, SENDER@)->Some_0,
        chat_id: int_at(d, CHAT_ID@)->Some_0,
        date: int_at(d, DATE@)->Some_0,
        edit_date: int_at(d, EDIT_DATE@)->Some_0,
        restriction_reason: str_at(d, RESTRICTION_REASON@)->Some_0,
        type_: str_at(d, TYPE@)->Some_0,
        content: str_at(d, CONTENT@)->Some_0,
        extra: list_at(d, EXTRA@)->Some_0,
        is_scam: bool_at(d, IS_SCAM@)->Some_0,
        trigger: bool_at(d, TRIGGER@)->Some_0,
        is_outgoing: false,
    }
}

/// A message's document reads back as that message, marked not outgoing.
pub proof fn lemma_message_doc_round_trip(m: MessageView)
    ensures
        is_message_doc(message_doc(m)),
        message_of_doc(message_doc(m)) == (MessageView { is_outgoing: false, ..m }),
{
    reveal_strlit("id");
    reveal_strlit("sender");
    reveal_strlit("chat_id");
    reveal_strlit("date");
    reveal_strlit("edit_date");
    reveal_strlit("restriction_reason");
    reveal_strlit("type");
    reveal_strlit("content");
    reveal_strlit("extra");
    reveal_strlit("is_scam");
    reveal_strlit("trigger");
    assert(ID@.len() == 2 && SENDER@.len() == 6 && CHAT_ID@.len() == 7 && DATE@.len() == 4);
    assert(EDIT_DATE@.len() == 9 && RESTRICTION_REASON@.len() == 18 && TYPE@.len() == 4);
    assert(CONTENT@.len() == 7 && EXTRA@.len() == 5 && IS_SCAM@.len() == 7 && TRIGGER@.len() == 7);
    assert(DATE@[0] != TYPE@[0]);
    assert(CHAT_ID@[1] != CONTENT@[1] && CHAT_ID@[0] != IS_SCAM@[0] && CHAT_ID@[0] != TRIGGER@[0]);
    assert(CONTENT@[0] != IS_SCAM@[0] && CONTENT@[0] != TRIGGER@[0] && IS_SCAM@[0] != TRIGGER@[0]);
    let d = message_doc(m);
    assert(d[ID@] == ValueView::Int(m.id));
    assert(d[SENDER@] == ValueView::Int(m.sender));
    assert(d[CHAT_ID@] == ValueView::Int(m.chat_id));
    assert(d[DATE@] == ValueView::Int(m.date));
    assert(d[EDIT_DATE@] == ValueView::Int(m.edit_date));
    assert(d[RESTRICTION_REASON@] == ValueView::Str(m.restriction_reason));
    assert(d[TYPE@] == ValueView::Str(m.type_));
    assert(d[CONTENT@] == ValueView::Str(m.content));
    assert(d[EXTRA@] == ValueView::StrList(m.extra));
    assert(d[IS_SCAM@] == ValueView::Bool(m.is_scam));
    assert(d[TRIGGER@] == ValueView::Bool(m.trigger));
}

impl Record for Message {
    open spec fn collection_spec(&self) -> Seq<char> {
        COLLECTION@
    }

    open spec fn id_spec(&self) -> i64 {
        self.id
    }

    open spec fn doc_spec(&self) -> Map<Seq<char>, ValueView> {
        message_doc(self@)
    }

    fn collection_name(&self) -> (r: &'static str) {
        COLLECTION
    }

    fn id(&self) -> (r: i64) {
        self.id
    }

    fn to_doc(&self) -> (r: Document) {
        let mut d = Document::new();
        d.insert(ID, Value::Int(self.id));
        d.insert(SENDER, Value::Int(self.sender));
        d.insert(CHAT_ID, Value::Int(self.chat_id));
        d.insert(DATE, Value::Int(self.date));
        d.insert(EDIT_DATE, Value::Int(self.edit_date));
        d.insert(RESTRICTION_REASON, Value::Str(self.restriction_reason.clone()));
        d.insert(TYPE, Value::Str(self.type_.clone()));
        d.insert(CONTENT, Value::Str(self.content.clone()));
        d.insert(EXTRA, Value::StrList(copy_strings(&self.extra)));
        d.insert(IS_SCAM, Value::Bool(self.is_scam));
        d.insert(TRIGGER, Value::Bool(self.trigger));
        d
    }
}

/// Text, photo and video messages carry text; no other kind does.
pub open spec fn tag_carries_text(tag: Seq<char>) -> bool {
    tag == TEXT_TAG@ || tag == PHOTO_TAG@ || tag == VIDEO_TAG@
}

impl Message {
    /// Whether the message has text to analyse: the text of a text message or
    /// the caption of a photo or video.
    pub fn carries_text(&self) -> (r: bool)
        ensures
            r == tag_carries_text(self.type_@),
    {
        let tag = self.type_.as_str();
        str_eq(tag, TEXT_TAG) || str_eq(tag, PHOTO_TAG) || str_eq(tag, VIDEO_TAG)
    }

    /// Reads a message from its document: none when a field is missing or
    /// holds another kind of value.
    pub fn from_doc(doc: &Document) -> (r: Option<Message>)
        ensures
            r.is_some() == is_message_doc(doc@),
            r matches Some(m) ==> m@ == message_of_doc(doc@),
    {
        let id = match doc.get_i64(ID) { Some(v) => v, None => return None };
        let sender = match doc.get_i64(SENDER) { Some(v) => v, None => return None };
        let chat_id = match doc.get_i64(CHAT_ID) { Some(v) => v, None => return None };
        let date = match doc.get_i64(DATE) { Some(v) => v, None => return None };
        let edit_date = match doc.get_i64(EDIT_DATE) { Some(v) => v, None => return None };
        let restriction_reason = match doc.get_str(RESTRICTION_REASON) { Some(v) => v, None => return None };
        let type_ = match doc.get_str(TYPE) { Some(v) => v, None => return None };
        let content = match doc.get_str(CONTENT) { Some(v) => v, None => return None };
        let extra = match doc.get_str_list(EXTRA) { Some(v) => v, None => return None };
        let is_scam = match doc.get_bool(IS_SCAM) { Some(v) => v, None => return None };
        let trigger = match doc.get_bool(TRIGGER) { Some(v) => v, None => return None };
        Some(
            Message {
                id,
                sender,
                chat_id,
                date,
                edit_date,
                restriction_reason,
                type_,
                content,
                extra,
                is_scam,
                trigger,
                is_outgoing: false,
            },
        )
    }

    /// A field-by-field copy.
    pub fn duplicate(&self) -> (r: Message)
        ensures
            r@ == self@,
    {
        Message {
            id: self.id,
            sender: self.sender,
            chat_id: self.chat_id,
            date: self.date,
            edit_date: self.edit_date,
            restriction_reason: self.restriction_reason.clone(),
            type_: self.type_.clone(),
            content: self.content.clone(),
            extra: copy_strings(&self.extra),
            is_scam: self.is_scam,
            trigger: self.trigger,
            is_outgoing: self.is_outgoing,
        }
    }

    /// Takes the content of a newer version of the same message.
    pub fn merge(&mut self, new: &Message)
        ensures
            final(self)@ == (MessageView { content: new.content@, ..old(self)@ }),
    {
        self.content = new.content.clone();
    }
}

} // verus!
