use fetish::chat::Chat;
use fetish::config::ForbiddenNames;
use fetish::document::{Document, Value};
use fetish::message::Message;
use fetish::record::Record;
use fetish::sanction::{Sanction, ScamType};
use fetish::stats::MessageSent;
use fetish::user::User;

fn sample_message() -> Message {
    Message {
        id: 1,
        sender: 2,
        chat_id: -3,
        date: 4,
        edit_date: 5,
        restriction_reason: "r".to_string(),
        type_: "MessagePhoto".to_string(),
        content: "caption".to_string(),
        extra: vec!["x".to_string(), "y".to_string()],
        is_scam: true,
        trigger: true,
        is_outgoing: true,
    }
}

#[test]
fn message_document_round_trip() {
    let m = sample_message();
    let d = m.to_doc();
    assert_eq!(d.get_str("type"), Some("MessagePhoto".to_string()));
    let back = Message::from_doc(&d).unwrap();
    assert_eq!(back.id, 1);
    assert_eq!(back.chat_id, -3);
    assert_eq!(back.extra, vec!["x".to_string(), "y".to_string()]);
    assert!(back.trigger && back.is_scam);
    assert!(!back.is_outgoing);
    assert_eq!(m.collection_name(), "messages");
}

#[test]
fn message_document_missing_field() {
    let mut d = sample_message().to_doc();
    d.insert("trigger", Value::Int(1));
    assert!(Message::from_doc(&d).is_none());
}

#[test]
fn user_document_defaults() {
    let mut d = Document::new();
    d.insert("id", Value::Int(9));
    d.insert("first_name", Value::Str("Eve".to_string()));
    let u = User::from_doc(&d).unwrap();
    assert_eq!(u.id, 9);
    assert_eq!(u.last_name, "");
    assert!(!u.scam && !u.bypass);
    let mut d2 = Document::new();
    d2.insert("id", Value::Int(9));
    assert!(User::from_doc(&d2).is_none());
}

#[test]
fn user_document_round_trip() {
    let mut d = Document::new();
    d.insert("id", Value::Int(9));
    d.insert("first_name", Value::Str("Eve".to_string()));
    d.insert("bypass", Value::Bool(true));
    let u = User::from_doc(&d).unwrap();
    assert!(u.is_bypass());
    assert!(!u.is_scam_by_admin());
    let again = User::from_doc(&u.to_doc()).unwrap();
    assert_eq!(again.first_name, "Eve");
    assert!(again.bypass);
    assert_eq!(u.collection_name(), "users");
}

#[test]
fn user_merge_refreshes_identity() {
    let mut d = Document::new();
    d.insert("id", Value::Int(9));
    d.insert("first_name", Value::Str("Eve".to_string()));
    d.insert("phone_number", Value::Str("+1".to_string()));
    d.insert("scam", Value::Bool(true));
    let mut u = User::from_doc(&d).unwrap();
    let mut fresh = u.duplicate();
    fresh.first_name = "Eva".to_string();
    fresh.phone_number = "+2".to_string();
    fresh.scam = false;
    u.merge(&fresh);
    assert_eq!(u.first_name, "Eva");
    assert_eq!(u.phone_number, "+1");
    assert!(u.scam);
}

#[test]
fn chat_document_and_merge() {
    let mut c = Chat { id: -7, title: "Old".to_string(), type_: "Supergroup".to_string() };
    let back = Chat::from_doc(&c.to_doc()).unwrap();
    assert_eq!(back.title, "Old");
    c.merge(&Chat { id: -7, title: "New".to_string(), type_: "Private".to_string() });
    assert_eq!(c.title, "New");
    assert_eq!(c.type_, "Supergroup");
    assert!(Chat::from_doc(&Document::new()).is_none());
}

#[test]
fn message_merge_takes_content() {
    let mut m = sample_message();
    let mut newer = sample_message();
    newer.content = "edited".to_string();
    newer.chat_id = 99;
    m.merge(&newer);
    assert_eq!(m.content, "edited");
    assert_eq!(m.chat_id, -3);
}

#[test]
fn forbidden_names_document() {
    let f = ForbiddenNames::new(&vec!["Tina".to_string()]);
    let d = f.to_doc();
    assert_eq!(d.get_i64("id"), Some(1));
    let mut raw = Document::new();
    raw.insert("names", Value::StrList(vec!["tina".to_string()]));
    assert_eq!(ForbiddenNames::from_doc(&raw).unwrap().names, vec!["TINA".to_string()]);
    assert!(ForbiddenNames::from_doc(&Document::new()).is_none());
}

#[test]
fn sanction_document() {
    let mut s = Sanction::new(sample_message(), vec![ScamType::Keyword, ScamType::Account(2)]);
    assert_eq!(s.scam_types_to_str(), vec!["Keyword".to_string(), "Account".to_string()]);
    assert!(s.to_doc().get("date").is_none());
    s.set_date(77);
    let d = s.to_doc();
    assert_eq!(d.get_i64("message"), Some(1));
    assert!(matches!(d.get("date"), Some(Value::UInt(77))));
    assert_eq!(s.collection_name(), "stats");
    assert_eq!(s.scam_types().len(), 2);
}

#[test]
fn message_sent_record() {
    let m = MessageSent::new(true);
    assert!(m.is_sent);
    assert!(m.timestamp > 1_600_000_000);
    assert_eq!(m.to_doc().get_bool("is_sent"), Some(true));
    let fixed = MessageSent::at(1234, false);
    assert_eq!(fixed.timestamp, 1234);
    assert!(!fixed.is_sent);
}

#[test]
fn document_last_field_wins() {
    let mut d = Document::new();
    d.insert("a", Value::Int(1));
    d.insert("a", Value::Int(2));
    assert_eq!(d.get_i64("a"), Some(2));
    let mut u = Document::new();
    u.insert("a", Value::Int(3));
    u.insert("b", Value::Bool(false));
    d.set_all(u);
    assert_eq!(d.get_i64("a"), Some(3));
    assert_eq!(d.get_bool("b"), Some(false));
    assert_eq!(d.get_str_or_empty("c"), "");
    assert!(d.get_bool_or("c", true));
}
