//! Sanctions: messages that must receive a warning reply, with the reasons.
use vstd::prelude::*;
use crate::document::{Document, Value, ValueView};
use crate::message::Message;
use crate::record::Record;
use crate::text::strings_view;

verus! {

/// The collection of sanction records.
pub const COLLECTION: &'static str = "stats";

pub const ID: &'static str = "id";
pub const MESSAGE: &'static str = "message";
pub const SCAM_TYPES: &'static str = "scam-types";
pub const DATE: &'static str = "date";

/// Why a message was found to be a scam.
#[derive(PartialEq, Eq, Structural, Clone, Copy, Debug)]
pub enum ScamType {
    /// The text holds a configured keyword.
    Keyword,
    /// The sender, with this user id, is marked as a scammer.
    Account(i64),
}

/// The stored name of a finding.
pub open spec fn scam_type_name(t: ScamType) -> Seq<char> {
    match t {
        ScamType::Keyword => "Keyword"@,
        ScamType::Account(_) => "Account"@,
    }
}

/// The stored names of a sequence of findings.
pub open spec fn type_names(ts: Seq<ScamType>) -> Seq<Seq<char>> {
    ts.map_values(|t: ScamType| scam_type_name(t))
}

/// A message that must receive a warning reply, with its findings.
pub struct Sanction {
    pub message: Message,
    pub scam_types: Vec<ScamType>,
    /// When the reply was sent or withheld, in seconds since the Unix epoch.
    pub date: Option<u64>,
}

/// The document of a sanction: the message id (as id and as message), the
/// names of the findings, and the date once one is set.
pub open spec fn sanction_doc(message_id: i64, ts: Seq<ScamType>, date: Option<u64>) -> Map<Seq<char>, ValueView> {
    let base = Map::empty()
        .insert(ID@, ValueView::Int(message_id))
        .insert(MESSAGE@, ValueView::Int(message_id))
        .insert(SCAM_TYPES@, ValueView::StrList(type_names(ts)));
    match date {
        Some(t) => base.insert(DATE@, ValueView::UInt(t)),
        None => base,
    }
}

impl Record for Sanction {
    open spec fn collection_spec(&self) -> Seq<char> {
        COLLECTION@
    }

    open spec fn id_spec(&self) -> i64 {
        self.message.id
    }

    open spec fn doc_spec(&self) -> Map<Seq<char>, ValueView> {
        sanction_doc(self.message.id, self.scam_types@, self.date)
    }

    fn collection_name(&self) -> (r: &'static str) {
        COLLECTION
    }

    fn id(&self) -> (r: i64) {
        self.message.id
    }

    fn to_doc(&self) -> (r: Document) {
        let mut d = Document::new();
        d.insert(ID, Value::Int(self.message.id));
        d.insert(MESSAGE, Value::Int(self.message.id));
        let names = self.scam_types_to_str();
        assert(strings_view(names@) =~= type_names(self.scam_types@));
        d.insert(SCAM_TYPES, Value::StrList(names));
        if let Some(t) = self.date {
            d.insert(DATE, Value::UInt(t));
        }
        d
    }
}

impl Sanction {
    /// A sanction not yet acted upon.
    pub fn new(message: Message, scam_types: Vec<ScamType>) -> (r: Sanction)
        ensures
            r.message@ == message@,
            r.scam_types@ == scam_types@,
            r.date.is_none(),
    {
        Sanction { message, scam_types, date: None }
    }

    pub fn message(&self) -> (r: &Message)
        ensures
            r@ == self.message@,
    {
        &self.message
    }

    pub fn scam_types(&self) -> (r: &Vec<ScamType>)
        ensures
            r@ == self.scam_types@,
    {
        &self.scam_types
    }

    pub fn date(&self) -> (r: Option<u64>)
        ensures
            r == self.date,
    {
        self.date
    }

    /// Records when the reply was sent or withheld.
    pub fn set_date(&mut self, at: u64)
        ensures
            final(self).date == Some(at),
            final(self).message@ == old(self).message@,
            final(self).scam_types@ == old(self).scam_types@,
    {
        self.date = Some(at);
    }

    /// The names of the findings, in order.
    pub fn scam_types_to_str(&self) -> (r: Vec<String>)
        ensures
            r@.len() == self.scam_types@.len(),
            forall|i: int|
                0 <= i < r@.len() ==> (#[trigger] r@[i])@ == scam_type_name(self.scam_types@[i]),
    {
        let mut r: Vec<String> = Vec::new();
        let mut i: usize = 0;
        while i < self.scam_types.len()
            invariant
                0 <= i <= self.scam_types@.len(),
                r@.len() == i,
                forall|j: int|
                    0 <= j < i ==> (#[trigger] r@[j])@ == scam_type_name(self.scam_types@[j]),
            decreases self.scam_types@.len() - i,
        {
            let name = match self.scam_types[i] {
                ScamType::Keyword => String::from_str("Keyword"),
                ScamType::Account(_) => String::from_str("Account"),
            };
            r.push(name);
            i += 1;
        }
        r
    }
}

} // verus!
