//! The responder's decisions: the text of a warning reply, and how long to
//! wait before sending it.
use vstd::prelude::*;
use crate::sanction::{Sanction, ScamType};
use crate::settings::Sender;

verus! {

/// The reply to a message whose sender is a known scammer.
pub const ACCOUNT_NOTICE: &'static str = "Ceci est le compte d'un arnaqueur. S'il vous demande quoi que ce soit, bloquez-le, autrement il tentera de voler votre argent.";

/// The separator between the warning and the informational footer.
pub const SEPARATOR: &'static str = "\n\n----------\n\n";

/// The informational footer of every reply.
pub const ABOUT: &'static str = "Pour plus d'informations sur les arnaques, rejoignez le canal ScamWatch : https://t.me/thescamwatch";

/// The warning for one finding: `keyword_notice` for a keyword, the fixed
/// account notice for a known scammer.
pub open spec fn notice(t: ScamType, keyword_notice: Seq<char>) -> Seq<char> {
    match t {
        ScamType::Keyword => keyword_notice,
        ScamType::Account(_) => ACCOUNT_NOTICE@,
    }
}

/// The warning of the first finding, in order, whose warning is not empty.
pub open spec fn reply_body(ts: Seq<ScamType>, keyword_notice: Seq<char>) -> Seq<char>
    decreases ts.len(),
{
    if ts.len() == 0 {
        Seq::empty()
    } else if notice(ts[0], keyword_notice).len() > 0 {
        notice(ts[0], keyword_notice)
    } else {
        reply_body(ts.drop_first(), keyword_notice)
    }
}

/// The full reply: the warning, then the separator and the footer.
pub open spec fn reply_text(ts: Seq<ScamType>, keyword_notice: Seq<char>) -> Seq<char> {
    reply_body(ts, keyword_notice) + SEPARATOR@ + ABOUT@
}

/// The smaller of two bounds.
pub open spec fn low(a: u64, b: u64) -> u64 {
    if a <= b { a } else { b }
}

/// The larger of two bounds.
pub open spec fn high(a: u64, b: u64) -> u64 {
    if a <= b { b } else { a }
}

/// Relies on `rand::Rng::gen_range` on `rand::thread_rng()` with an inclusive
/// range: a value within the bounds. It panics on an empty range, which
/// `requires` leaves out.
#[verifier::external_body]
fn draw_between(lo: u64, hi: u64) -> (r: u64)
    requires
        lo <= hi,
    ensures
        lo <= r <= hi,
{
    rand::Rng::gen_range(&mut rand::thread_rng(), lo..=hi)
}

/// A wait, in whole seconds, drawn uniformly between the configured bounds.
pub fn wait_seconds(config: &Sender) -> (r: u64)
    ensures
        low(config.min_wait, config.max_wait) <= r <= high(config.min_wait, config.max_wait),
        config.min_wait == config.max_wait ==> r == config.min_wait,
{
    if config.min_wait <= config.max_wait {
        draw_between(config.min_wait, config.max_wait)
    } else {
        draw_between(config.max_wait, config.min_wait)
    }
}

/// Composes the reply to a sanction with findings `scam_types`: the warning
/// of the first finding whose warning is not empty, then the footer.
/// `keyword_notice` is the configured warning against keyword scams.
pub fn load_text(scam_types: &Vec<ScamType>, keyword_notice: &str) -> (r: String)
    ensures
        r@ == reply_text(scam_types@, keyword_notice@),
{
    let mut txt = String::new();
    let mut i: usize = 0;
    assert(scam_types@.skip(0) =~= scam_types@);
    while i < scam_types.len()
        invariant
            0 <= i <= scam_types@.len(),
            txt@.len() == 0 ==> reply_body(scam_types@, keyword_notice@) == reply_body(
                scam_types@.skip(i as int),
                keyword_notice@,
            ),
            txt@.len() > 0 ==> txt@ == reply_body(scam_types@, keyword_notice@),
        decreases scam_types@.len() - i,
    {
        if txt.as_str().is_empty() {
            assert(scam_types@.skip(i as int).drop_first() =~= scam_types@.skip(i + 1));
            match scam_types[i] {
                ScamType::Keyword => txt.append(keyword_notice),
                ScamType::Account(_) => txt.append(ACCOUNT_NOTICE),
            }
        }
        i += 1;
    }
    txt.append(SEPARATOR);
    txt.append(ABOUT);
    txt
}

/// What the responder does with one sanction.
pub struct ReplyPlan {
    /// The reply text.
    pub text: String,
    /// Seconds to wait before sending or logging it.
    pub wait: u64,
    /// Whether to send it, or only log it.
    pub send: bool,
}

/// Decides the reply to `sanction`: its text, the wait before it, and whether
/// it is really sent.
pub fn plan_reply(config: &Sender, sanction: &Sanction, keyword_notice: &str) -> (r: ReplyPlan)
    ensures
        r.text@ == reply_text(sanction.scam_types@, keyword_notice@),
        low(config.min_wait, config.max_wait) <= r.wait <= high(config.min_wait, config.max_wait),
        config.min_wait == config.max_wait ==> r.wait == config.min_wait,
        r.send == config.send,
{
    ReplyPlan {
        text: load_text(sanction.scam_types(), keyword_notice),
        wait: wait_seconds(config),
        send: config.send,
    }
}

} // verus!
