//! Scam detection for group chats: domain records and their documents, a
//! heuristic classifier, the decisions taken on each update, the composition
//! of warning replies, and an in-memory document store.

pub mod analyser;
pub mod chat;
pub mod clock;
pub mod config;
pub mod dispatch;
pub mod document;
pub mod message;
pub mod record;
pub mod responder;
pub mod sanction;
pub mod settings;
pub mod stats;
pub mod store;
pub mod text;
pub mod user;

pub use analyser::ScamAnalyser;
pub use chat::Chat;
pub use config::{ForbiddenNames, KeywordMatch, Keywords};
pub use message::Message;
pub use record::Record;
pub use sanction::{Sanction, ScamType};
pub use stats::MessageSent;
pub use user::User;

pub use chat::COLLECTION as CHATS_COLLECTION;
pub use config::COLLECTION as CONFIG_COLLECTION;
pub use message::COLLECTION as MESSAGES_COLLECTION;
pub use sanction::COLLECTION as STATS_COLLECTION;
pub use user::COLLECTION as USERS_COLLECTION;

pub use config::FORBIDDEN_NAMES_ID;
pub use config::KEYWORDS_ID;
