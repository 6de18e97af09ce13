//! What is done on each update from the messaging platform: the decisions of
//! the new-message, new-chat and new-user handlers. The caller performs the
//! storage and platform calls that a plan names.
use vstd::prelude::*;
use crate::analyser::{
    findings, lemma_keyword_found_after_folding, new_user_scam, normalized, threat, user_view,
    ScamAnalyser,
};
use crate::message::tag_carries_text;
use crate::sanction::ScamType;
use crate::text::is_infix;
use crate::chat::Chat;
use crate::config::{ForbiddenNames, Keywords};
use crate::message::{Message, MessageView};
use crate::sanction::Sanction;
use crate::user::{merged_user, User, UserView};

verus! {

/// What to do with a new message.
pub struct MessagePlan {
    /// Ask the platform for the sender's profile, which is not stored yet.
    pub fetch_sender: bool,
    /// The message record to store, if the message was analysed.
    pub record: Option<Message>,
    /// The sanction to hand to the responder, if any.
    pub sanction: Option<Sanction>,
}

/// Decides what to do with a new message, given the stored record of its
/// sender (if any), the keyword lists and the time `now`.
///
/// A message that is no threat is neither stored nor sanctioned. Otherwise it
/// is stored, marked as triggering when there are findings; and a sanction is
/// produced exactly when there are findings and the chat is a group or a
/// channel (negative id): one-to-one chats are never sanctioned.
pub fn plan_new_message(
    analyser: &ScamAnalyser,
    message: &Message,
    sender: Option<&User>,
    keywords: &Keywords,
    now: u64,
) -> (r: MessagePlan)
    ensures
        r.fetch_sender == (sender.is_none() && message.sender != 0),
        ({
            let is_threat = threat(message@, user_view(sender), now, analyser.timeout);
            let found = findings(keywords, message@, user_view(sender));
            &&& !is_threat ==> r.record.is_none()
            &&& is_threat ==> (r.record matches Some(rec) && rec@ == (MessageView {
                trigger: found.len() > 0,
                ..message@
            }))
            &&& r.sanction.is_some() == (is_threat && found.len() > 0 && message.chat_id < 0)
            &&& r.sanction matches Some(s) ==> s.message@ == message@ && s.scam_types@ == found && s.date.is_none()
        }),
        message.chat_id >= 0 ==> r.sanction.is_none(),
{
    let fetch_sender = sender.is_none() && message.sender != 0;
    if !analyser.is_threat(message, sender, now) {
        return MessagePlan { fetch_sender, record: None, sanction: None };
    }
    let found = analyser.analyse(message, keywords, sender);
    let mut record = message.duplicate();
    record.trigger = found.len() > 0;
    let sanction = if found.len() > 0 && message.chat_id < 0 {
        Some(Sanction::new(message.duplicate(), found))
    } else {
        None
    };
    MessagePlan { fetch_sender, record: Some(record), sanction }
}

/// A fresh text message in a group or channel whose normalized text holds a
/// configured keyword, from a sender neither on the allow-list nor marked as
/// a scammer, is a threat whose findings are exactly one keyword finding. By
/// the contract of `plan_new_message`, it is then stored as triggering and
/// exactly one sanction is produced for it, with that single finding.
pub proof fn lemma_keyword_message_sanctioned(
    kw: &Keywords,
    m: MessageView,
    sender: Option<UserView>,
    key: String,
    now: u64,
    timeout: u64,
)
    requires
        tag_carries_text(m.type_),
        !m.is_outgoing,
        now - m.date < timeout,
        m.chat_id < 0,
        kw.fr@.contains(key) || kw.en@.contains(key) || kw.de@.contains(key),
        is_infix(key@, normalized(m.content)),
        sender matches Some(u) ==> !u.bypass && !u.scam,
    ensures
        threat(m, sender, now, timeout),
        findings(kw, m, sender) == seq![ScamType::Keyword],
{
    lemma_keyword_found_after_folding(kw, m, sender, key);
    assert(findings(kw, m, sender) =~= seq![ScamType::Keyword]);
}

/// The chat to store on a new-chat update: none when one with its id is
/// already stored.
pub fn plan_new_chat(stored: bool, chat: Chat) -> (r: Option<Chat>)
    ensures
        r.is_some() == !stored,
        r matches Some(c) ==> c.id == chat.id && c.title@ == chat.title@ && c.type_@ == chat.type_@,
{
    if stored {
        None
    } else {
        Some(chat)
    }
}

/// The scam mark that a stored user keeps on an update: recomputed from the
/// fresh observation unless already set or the user is on the allow-list.
pub open spec fn updated_scam(stored: UserView, fresh: UserView, names: Seq<String>) -> bool {
    if !stored.scam && !stored.bypass {
        new_user_scam(fresh, names)
    } else {
        stored.scam
    }
}

/// The user record to store on a user update, given the stored record, if
/// any, and the fresh observation.
pub fn plan_user_update(
    analyser: &ScamAnalyser,
    stored: Option<User>,
    fresh: &User,
    forbidden: &ForbiddenNames,
) -> (r: User)
    ensures
        stored.is_none() ==> r@ == (UserView {
            scam: new_user_scam(fresh@, forbidden.names@),
            ..fresh@
        }),
        stored matches Some(s) ==> r@ == merged_user(
            UserView { scam: updated_scam(s@, fresh@, forbidden.names@), ..s@ },
            fresh@,
        ),
{
    match stored {
        Some(mut u) => {
            if !u.scam && !u.is_bypass() {
                u.scam = analyser.is_new_user_scam(fresh, forbidden);
            }
            u.merge(fresh);
            u
        },
        None => {
            let mut u = fresh.duplicate();
            u.scam = analyser.is_new_user_scam(fresh, forbidden);
            u
        },
    }
}

} // verus!
