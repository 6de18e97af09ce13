//! The record of a reply that was sent or withheld.
use vstd::prelude::*;
use crate::clock::now_secs;
use crate::document::{Document, Value, ValueView};

verus! {

pub const TIMESTAMP: &'static str = "timestamp";
pub const IS_SENT: &'static str = "is_sent";

/// Whether a reply was sent, and when this was recorded.
pub struct MessageSent {
    /// Seconds since the Unix epoch.
    pub timestamp: u64,
    pub is_sent: bool,
}

impl MessageSent {
    /// A record stamped with `now`, in seconds since the Unix epoch.
    pub fn at(now: u64, is_sent: bool) -> (r: MessageSent)
        ensures
            r.timestamp == now,
            r.is_sent == is_sent,
    {
        MessageSent { timestamp: now, is_sent }
    }

    /// A record stamped with the current time.
    pub fn new(is_sent: bool) -> (r: MessageSent)
        ensures
            r.is_sent == is_sent,
    {
        MessageSent::at(now_secs(), is_sent)
    }

    /// The document of this record.
    pub fn to_doc(&self) -> (r: Document)
        ensures
            r@ == Map::<Seq<char>, ValueView>::empty()
                .insert(TIMESTAMP@, ValueView::UInt(self.timestamp))
                .insert(IS_SENT@, ValueView::Bool(self.is_sent)),
    {
        let mut d = Document::new();
        d.insert(TIMESTAMP, Value::UInt(self.timestamp));
        d.insert(IS_SENT, Value::Bool(self.is_sent));
        d
    }
}

} // verus!
