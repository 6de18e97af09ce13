//! Settings: the responder's timing and the database location.
use vstd::prelude::*;
use crate::text::str_eq;

verus! {

/// How replies are sent.
pub struct Sender {
    /// Whether replies are really sent, or only logged.
    pub send: bool,
    /// The shortest wait before a reply, in seconds.
    pub min_wait: u64,
    /// The longest wait before a reply, in seconds.
    pub max_wait: u64,
    /// Messages at least this many seconds old are not answered.
    pub timeout: u64,
}

/// Where TDLib writes its log.
#[derive(PartialEq, Eq, Structural, PartialOrd, Ord, Clone, Copy, Debug)]
pub enum LogType {
    Console,
    File,
}

/// TDLib's log settings.
pub struct Log {
    pub type_: LogType,
    /// The log file, for a file log.
    pub path: Option<String>,
    /// TDLib's verbosity level.
    pub level: i64,
}

impl Log {
    /// Log settings from the configured values: the type "file" means a file
    /// log and any other a console log; the level is 1 unless given.
    pub fn new(kind: &str, path: Option<String>, level: Option<i64>) -> (r: Log)
        ensures
            r.type_ == (if kind@ == "file"@ {
                LogType::File
            } else {
                LogType::Console
            }),
            r.path == path,
            r.level == (match level {
                Some(l) => l,
                None => 1,
            }),
    {
        let type_ = if str_eq(kind, "file") {
            LogType::File
        } else {
            LogType::Console
        };
        let level = match level {
            Some(l) => l,
            None => 1,
        };
        Log { type_, path, level }
    }
}

/// The percent-encoding of a string, as computed by `urlencoding::encode`.
pub uninterp spec fn url_encoded(s: Seq<char>) -> Seq<char>;

/// `s` with every occurrence of `from` replaced by `to`, as computed by `str::replace`.
pub uninterp spec fn replaced(s: Seq<char>, from: Seq<char>, to: Seq<char>) -> Seq<char>;

/// Relies on `urlencoding::encode`: every byte but ASCII alphanumerics and
/// `-`, `_`, `.`, `~` percent-encoded; the result depends on the string alone.
#[verifier::external_body]
fn percent_encode(s: &str) -> (r: String)
    ensures
        r@ == url_encoded(s@),
{
    urlencoding::encode(s).into_owned()
}

/// Relies on `str::replace` with `&str` patterns: the result depends on its
/// three arguments alone.
#[verifier::external_body]
fn replace_all(s: &str, from: &str, to: &str) -> (r: String)
    ensures
        r@ == replaced(s@, from@, to@),
{
    s.replace(from, to)
}

pub const USERNAME_SLOT: &'static str = "%USERNAME%";
pub const PASSWORD_SLOT: &'static str = "%PASSWORD%";
pub const ADDRESS_SLOT: &'static str = "%ADDRESS%";
pub const PORT_SLOT: &'static str = "%PORT%";

/// The database URL of a template: the user name, password, address and
/// port, each percent-encoded, in place of their slots, in that order.
pub open spec fn filled_url(
    template: Seq<char>,
    user: Seq<char>,
    password: Seq<char>,
    address: Seq<char>,
    port: Seq<char>,
) -> Seq<char> {
    let a = replaced(template, USERNAME_SLOT@, url_encoded(user));
    let b = replaced(a, PASSWORD_SLOT@, url_encoded(password));
    let c = replaced(b, ADDRESS_SLOT@, url_encoded(address));
    replaced(c, PORT_SLOT@, url_encoded(port))
}

/// Fills the slots `%USERNAME%`, `%PASSWORD%`, `%ADDRESS%` and `%PORT%` of a
/// database URL template with the percent-encoded credentials and location.
pub fn mongo_url(template: &str, user: &str, password: &str, address: &str, port: &str) -> (r: String)
    ensures
        r@ == filled_url(template@, user@, password@, address@, port@),
{
    let a = replace_all(template, USERNAME_SLOT, percent_encode(user).as_str());
    let b = replace_all(a.as_str(), PASSWORD_SLOT, percent_encode(password).as_str());
    let c = replace_all(b.as_str(), ADDRESS_SLOT, percent_encode(address).as_str());
    replace_all(c.as_str(), PORT_SLOT, percent_encode(port).as_str())
}

} // verus!
