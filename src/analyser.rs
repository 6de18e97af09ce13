//! The scam classifier.
use vstd::prelude::*;
use crate::config::{keyword_match_of, ForbiddenNames, KeywordMatch, Keywords};
use crate::message::{tag_carries_text, Message, MessageView};
use crate::sanction::ScamType;
use crate::settings::Sender;
use crate::text::{any_infix, contains, str_eq, is_infix, transliterate, unidecode_of, upper_of, uppercase};
use crate::user::{User, UserView};

verus! {

/// The view of an optional user record.
pub open spec fn user_view(u: Option<&User>) -> Option<UserView> {
    match u {
        Some(u) => Some(u@),
        None => None,
    }
}

/// A message is worth analysing when it is not outgoing, its sender is not on
/// the allow-list, and it is less than `timeout` seconds old at `now`.
pub open spec fn threat(m: MessageView, sender: Option<UserView>, now: u64, timeout: u64) -> bool {
    &&& !m.is_outgoing
    &&& !(sender matches Some(u) && u.bypass)
    &&& now - m.date < timeout
}

/// The text that keywords are searched in: upper-cased, transliterated to
/// ASCII, and upper-cased again.
pub open spec fn normalized(text: Seq<char>) -> Seq<char> {
    upper_of(unidecode_of(upper_of(text)))
}

/// The findings on a message whose normalized text (upper-cased,
/// transliterated to ASCII, upper-cased again) is `folded`: first a keyword
/// finding when the message carries text and `folded` holds a keyword or is
/// exactly "CC"; then an account finding when the sender's record marks a
/// scammer.
pub open spec fn findings_of(
    kw: &Keywords,
    m: MessageView,
    folded: Seq<char>,
    sender: Option<UserView>,
) -> Seq<ScamType> {
    let k = if tag_carries_text(m.type_) && (keyword_match_of(kw.fr@, kw.en@, kw.de@, folded)
        != KeywordMatch::NoneMatch || folded == "CC"@) {
        seq![ScamType::Keyword]
    } else {
        Seq::empty()
    };
    let a = if sender matches Some(u) && u.scam {
        seq![ScamType::Account(m.sender)]
    } else {
        Seq::empty()
    };
    k + a
}

/// The findings on a message.
pub open spec fn findings(kw: &Keywords, m: MessageView, sender: Option<UserView>) -> Seq<ScamType> {
    findings_of(kw, m, normalized(m.content), sender)
}

/// The new-user heuristics on the upper-cased forms of the transliterated
/// username, first and last names.
pub open spec fn names_scam(username: Seq<char>, first: Seq<char>, last: Seq<char>, names: Seq<String>) -> bool {
    ||| is_infix("ESCORT"@, username)
    ||| first == last
    ||| any_infix(names, first)
    ||| any_infix(names, last)
}

/// The new-user heuristics, on names transliterated to ASCII: the username
/// holds "ESCORT", the first and last names are equal once upper-cased, or a
/// forbidden name occurs in either of them.
pub open spec fn new_user_scam(u: UserView, names: Seq<String>) -> bool {
    names_scam(
        upper_of(unidecode_of(u.username)),
        upper_of(unidecode_of(u.first_name)),
        upper_of(unidecode_of(u.last_name)),
        names,
    )
}

/// Keyword matching is insensitive to accents and case: when a configured
/// keyword occurs in the message's text once that text is upper-cased and
/// transliterated to ASCII, the findings start with a keyword finding, whatever
/// accents the text was typed with.
pub proof fn lemma_keyword_found_after_folding(
    kw: &Keywords,
    m: MessageView,
    sender: Option<UserView>,
    key: String,
)
    requires
        tag_carries_text(m.type_),
        kw.fr@.contains(key) || kw.en@.contains(key) || kw.de@.contains(key),
        is_infix(key@, normalized(m.content)),
    ensures
        findings(kw, m, sender).len() > 0,
        findings(kw, m, sender)[0] == ScamType::Keyword,
{
    let t = normalized(m.content);
    if kw.fr@.contains(key) {
        let i = choose|i: int| 0 <= i < kw.fr@.len() && kw.fr@[i] == key;
        assert(is_infix(kw.fr@[i]@, t));
    } else if kw.en@.contains(key) {
        let i = choose|i: int| 0 <= i < kw.en@.len() && kw.en@[i] == key;
        assert(is_infix(kw.en@[i]@, t));
    } else {
        let i = choose|i: int| 0 <= i < kw.de@.len() && kw.de@[i] == key;
        assert(is_infix(kw.de@[i]@, t));
    }
}

/// Decides whether messages and users are scams.
pub struct ScamAnalyser {
    /// Messages at least this many seconds old are not analysed.
    pub timeout: u64,
}

impl ScamAnalyser {
    pub fn new(config: &Sender) -> (r: ScamAnalyser)
        ensures
            r.timeout == config.timeout,
    {
        ScamAnalyser { timeout: config.timeout }
    }

    /// Whether `message` is worth analysing at time `now` (seconds since the
    /// Unix epoch); `sender` is the stored record of its sender, if any.
    pub fn is_threat(&self, message: &Message, sender: Option<&User>, now: u64) -> (r: bool)
        ensures
            r == threat(message@, user_view(sender), now, self.timeout),
            message.is_outgoing ==> !r,
            (sender matches Some(u) && u.bypass) ==> !r,
            now - message.date >= self.timeout ==> !r,
    {
        if message.is_outgoing {
            return false;
        }
        if let Some(u) = sender {
            if u.is_bypass() {
                return false;
            }
        }
        let age: i128 = now as i128 - message.date as i128;
        if age >= self.timeout as i128 {
            return false;
        }
        true
    }

    /// The findings on `message`, given its normalized text (see
    /// `findings_of`), the keyword lists and the stored record of its
    /// sender, if any.
    pub fn findings_from(
        &self,
        message: &Message,
        folded: &str,
        keywords: &Keywords,
        sender: Option<&User>,
    ) -> (r: Vec<ScamType>)
        ensures
            r@ == findings_of(keywords, message@, folded@, user_view(sender)),
    {
        let mut ret: Vec<ScamType> = Vec::new();
        if message.carries_text() {
            let hit = match keywords.match_upper(folded) {
                KeywordMatch::NoneMatch => false,
                _ => true,
            };
            if hit || str_eq(folded, "CC") {
                ret.push(ScamType::Keyword);
            }
        }
        if let Some(u) = sender {
            if u.is_scam_by_admin() {
                ret.push(ScamType::Account(message.sender));
            }
        }
        assert(ret@ =~= findings_of(keywords, message@, folded@, user_view(sender)));
        ret
    }

    /// The findings on `message`, given the keyword lists and the stored
    /// record of its sender, if any.
    pub fn analyse(&self, message: &Message, keywords: &Keywords, sender: Option<&User>) -> (r: Vec<ScamType>)
        ensures
            r@ == findings(keywords, message@, user_view(sender)),
    {
        let upper = uppercase(message.content.as_str());
        let folded = uppercase(transliterate(upper.as_str()).as_str());
        self.findings_from(message, folded.as_str(), keywords, sender)
    }

    /// The new-user heuristics on the upper-cased forms of the transliterated
    /// username, first and last names.
    pub fn names_scam(&self, username: &str, first: &str, last: &str, forbidden: &ForbiddenNames) -> (r: bool)
        ensures
            r == names_scam(username@, first@, last@, forbidden.names@),
    {
        contains(username, "ESCORT") || str_eq(first, last) || forbidden.match_upper(first, last)
    }

    /// Whether a user seen for the first time looks like a scammer.
    pub fn is_new_user_scam(&self, user: &User, forbidden: &ForbiddenNames) -> (r: bool)
        ensures
            r == new_user_scam(user@, forbidden.names@),
    {
        let username = uppercase(transliterate(user.username.as_str()).as_str());
        let first = uppercase(transliterate(user.first_name.as_str()).as_str());
        let last = uppercase(transliterate(user.last_name.as_str()).as_str());
        self.names_scam(username.as_str(), first.as_str(), last.as_str(), forbidden)
    }
}

} // verus!
