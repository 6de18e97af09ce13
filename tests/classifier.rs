use fetish::analyser::ScamAnalyser;
use fetish::config::{ForbiddenNames, KeywordMatch, Keywords};
use fetish::message::Message;
use fetish::sanction::ScamType;
use fetish::settings::Sender;
use fetish::user::User;

fn strings(v: &[&str]) -> Vec<String> {
    v.iter().map(|s| s.to_string()).collect()
}

fn message(text: &str, date: i64, chat_id: i64) -> Message {
    Message {
        id: 42,
        sender: 7,
        chat_id,
        date,
        edit_date: 0,
        restriction_reason: String::new(),
        type_: "MessageText".to_string(),
        content: text.to_string(),
        extra: vec![],
        is_scam: false,
        trigger: false,
        is_outgoing: false,
    }
}

fn user(first: &str, last: &str, username: &str) -> User {
    User {
        id: 7,
        first_name: first.to_string(),
        last_name: last.to_string(),
        username: username.to_string(),
        phone_number: String::new(),
        is_verified: false,
        is_support: false,
        restriction_reason: String::new(),
        is_scam: false,
        user_type: "Regular".to_string(),
        scam: false,
        bypass: false,
    }
}

fn analyser(timeout: u64) -> ScamAnalyser {
    ScamAnalyser::new(&Sender { send: false, min_wait: 0, max_wait: 0, timeout })
}

fn no_keywords() -> Keywords {
    Keywords::new(&vec![], &vec![], &vec![])
}

#[test]
fn threat_fresh_message() {
    let a = analyser(60);
    assert!(a.is_threat(&message("hello", 1000, -1), None, 1005));
}

#[test]
fn bypassed_sender_is_no_threat() {
    let a = analyser(60);
    let mut u = user("Ana", "Smith", "ana");
    u.bypass = true;
    assert!(!a.is_threat(&message("ARNAQUE", 1000, -1), Some(&u), 1005));
    assert!(!a.is_threat(&message("", 0, -1), Some(&u), 0));
}

#[test]
fn stale_message_is_no_threat() {
    let a = analyser(60);
    assert!(!a.is_threat(&message("hello", 1000, -1), None, 1060));
    assert!(!a.is_threat(&message("hello", 1000, -1), None, 5000));
    assert!(a.is_threat(&message("hello", 1000, -1), None, 1059));
}

#[test]
fn outgoing_message_is_no_threat() {
    let a = analyser(60);
    let mut m = message("hello", 1000, -1);
    m.is_outgoing = true;
    assert!(!a.is_threat(&m, None, 1001));
}

#[test]
fn zero_timeout_makes_every_message_stale() {
    let a = analyser(0);
    assert!(!a.is_threat(&message("hello", 1000, -1), None, 1000));
}

#[test]
fn analyse_exact_cc() {
    let a = analyser(60);
    assert_eq!(a.analyse(&message("cc", 0, -1), &no_keywords(), None), vec![ScamType::Keyword]);
    assert_eq!(a.analyse(&message("Cc", 0, -1), &no_keywords(), None), vec![ScamType::Keyword]);
}

#[test]
fn analyse_accented_cc() {
    let a = analyser(60);
    assert_eq!(a.analyse(&message("çc", 0, -1), &no_keywords(), None), vec![ScamType::Keyword]);
    assert_eq!(a.analyse(&message("Çc", 0, -1), &no_keywords(), None), vec![ScamType::Keyword]);
}

#[test]
fn analyse_free_cc_now() {
    let a = analyser(60);
    let kw = Keywords::new(&vec![], &strings(&["cc"]), &vec![]);
    let found = a.analyse(&message("free CC now", 0, -1), &kw, None);
    assert!(found.contains(&ScamType::Keyword));
}

#[test]
fn analyse_cc_inside_text_without_keyword_is_clean() {
    let a = analyser(60);
    assert_eq!(a.analyse(&message("free CC now", 0, -1), &no_keywords(), None), vec![]);
}

#[test]
fn analyse_accented_text() {
    let a = analyser(60);
    let kw = Keywords::new(&strings(&["arnaque"]), &vec![], &vec![]);
    let found = a.analyse(&message("c'est une arnaqué", 0, -1), &kw, None);
    assert_eq!(found, vec![ScamType::Keyword]);
    let found = a.analyse(&message("ÉTUDE gratuite", 0, -1), &Keywords::new(&vec![], &vec![], &strings(&["etude"])), None);
    assert_eq!(found, vec![ScamType::Keyword]);
}

#[test]
fn analyse_ignores_non_text_content() {
    let a = analyser(60);
    let kw = Keywords::new(&strings(&["arnaque"]), &vec![], &vec![]);
    let mut m = message("arnaque", 0, -1);
    m.type_ = "MessageSticker".to_string();
    assert_eq!(a.analyse(&m, &kw, None), vec![]);
    m.type_ = "MessagePhoto".to_string();
    assert_eq!(a.analyse(&m, &kw, None), vec![ScamType::Keyword]);
    m.type_ = "MessageVideo".to_string();
    assert_eq!(a.analyse(&m, &kw, None), vec![ScamType::Keyword]);
}

#[test]
fn analyse_known_scammer_account() {
    let a = analyser(60);
    let mut u = user("Bob", "Smith", "bob");
    u.scam = true;
    assert_eq!(a.analyse(&message("hello", 0, -1), &no_keywords(), Some(&u)), vec![ScamType::Account(7)]);
    let both = a.analyse(&message("CC", 0, -1), &no_keywords(), Some(&u));
    assert_eq!(both, vec![ScamType::Keyword, ScamType::Account(7)]);
}

#[test]
fn analyse_clean_message() {
    let a = analyser(60);
    let kw = Keywords::new(&strings(&["arnaque"]), &strings(&["scam"]), &strings(&["betrug"]));
    assert_eq!(a.analyse(&message("bonjour à tous", 0, -1), &kw, Some(&user("A", "B", "c"))), vec![]);
}

#[test]
fn text_match_order_of_lists() {
    let kw = Keywords::new(&strings(&["arnaque"]), &strings(&["scam"]), &strings(&["betrug"]));
    assert_eq!(kw.text_match("une arnaque"), KeywordMatch::FrMatch);
    assert_eq!(kw.text_match("a scam"), KeywordMatch::EnMatch);
    assert_eq!(kw.text_match("ein Betrug"), KeywordMatch::DeMatch);
    assert_eq!(kw.text_match("nothing"), KeywordMatch::NoneMatch);
    assert_eq!(kw.text_match("scam and arnaque"), KeywordMatch::FrMatch);
}

#[test]
fn keywords_are_stored_upper_case() {
    let kw = Keywords::new(&strings(&["arnaque"]), &vec![], &vec![]);
    assert_eq!(kw.fr, strings(&["ARNAQUE"]));
}

#[test]
fn name_match_first_or_last() {
    let f = ForbiddenNames::new(&strings(&["tina"]));
    assert_eq!(f.names, strings(&["TINA"]));
    assert!(f.name_match("Martina", "Doe"));
    assert!(f.name_match("Jane", "tina"));
    assert!(!f.name_match("Jane", "Doe"));
}

#[test]
fn new_user_escort_username() {
    let a = analyser(60);
    let f = ForbiddenNames::new(&vec![]);
    assert!(a.is_new_user_scam(&user("John", "Doe", "hot_escort_94"), &f));
}

#[test]
fn new_user_equal_names() {
    let a = analyser(60);
    let f = ForbiddenNames::new(&vec![]);
    assert!(a.is_new_user_scam(&user("Ana", "ANA", "ana1"), &f));
    assert!(a.is_new_user_scam(&user("Anä", "ana", "x"), &f));
}

#[test]
fn new_user_forbidden_name() {
    let a = analyser(60);
    let f = ForbiddenNames::new(&strings(&["sexy"]));
    assert!(a.is_new_user_scam(&user("Sexy", "Doe", "x"), &f));
    assert!(a.is_new_user_scam(&user("Jane", "SexyDoll", "x"), &f));
}

#[test]
fn new_user_not_scam() {
    let a = analyser(60);
    let f = ForbiddenNames::new(&strings(&["sexy"]));
    assert!(!a.is_new_user_scam(&user("Jane", "Doe", "janedoe"), &f));
}

#[test]
fn findings_from_given_forms() {
    let a = analyser(60);
    let kw = Keywords::new(&strings(&["arnaque"]), &vec![], &vec![]);
    let m = message("ignored", 0, -1);
    assert_eq!(a.findings_from(&m, "UNE ARNAQUE", &kw, None), vec![ScamType::Keyword]);
    assert_eq!(a.findings_from(&m, "CC", &kw, None), vec![ScamType::Keyword]);
    assert_eq!(a.findings_from(&m, "une arnaque", &kw, None), vec![]);
    assert_eq!(a.findings_from(&m, "cc", &kw, None), vec![]);
}

#[test]
fn names_scam_on_given_forms() {
    let a = analyser(60);
    let f = ForbiddenNames::new(&strings(&["tina"]));
    assert!(a.names_scam("HOT_ESCORT_94", "JOHN", "DOE", &f));
    assert!(a.names_scam("X", "ANA", "ANA", &f));
    assert!(a.names_scam("X", "MARTINA", "DOE", &f));
    assert!(!a.names_scam("hot_escort", "Ana", "ANA", &f));
}

#[test]
fn match_upper_takes_text_as_given() {
    let kw = Keywords::new(&strings(&["scam"]), &vec![], &vec![]);
    assert_eq!(kw.match_upper("A SCAM"), KeywordMatch::FrMatch);
    assert_eq!(kw.match_upper("a scam"), KeywordMatch::NoneMatch);
    let f = ForbiddenNames::new(&strings(&["tina"]));
    assert!(f.match_upper("TINA", "X"));
    assert!(!f.match_upper("tina", "x"));
}
