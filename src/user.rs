//! A platform user as this library stores it.
use vstd::prelude::*;
use crate::document::{bool_or, int_at, str_at, str_or, Document, Value, ValueView};
use crate::record::Record;

verus! {

/// The collection of user records.
pub const COLLECTION: &'static str = "users";

pub const ID: &'static str = "id";
pub const FIRST_NAME: &'static str = "first_name";
pub const LAST_NAME: &'static str = "last_name";
pub const USERNAME: &'static str = "username";
pub const PHONE_NUMBER: &'static str = "phone_number";
pub const IS_VERIFIED: &'static str = "is_verified";
pub const IS_SUPPORT: &'static str = "is_support";
pub const RESTRICTION_REASON: &'static str = "restriction_reason";
pub const IS_SCAM: &'static str = "is_scam";
pub const USER_TYPE: &'static str = "user_type";
pub const SCAM: &'static str = "scam";
pub const BYPASS: &'static str = "bypass";

/// A user of the messaging platform.
pub struct User {
    pub id: i64,
    pub first_name: String,
    pub last_name: String,
    pub username: String,
    pub phone_number: String,
    pub is_verified: bool,
    pub is_support: bool,
    pub restriction_reason: String,
    /// The platform's own scam mark.
    pub is_scam: bool,
    /// The account kind: "Bot", "Deleted", "Regular", "Unknown" or empty.
    pub user_type: String,
    /// Marked as a scammer by an administrator or by the new-user heuristics.
    pub scam: bool,
    /// Operator-set allow-list mark: the user's messages are never evaluated.
    pub bypass: bool,
}

/// The value of a `User` with its strings as character sequences.
pub struct UserView {
    pub id: i64,
    pub first_name: Seq<char>,
    pub last_name: Seq<char>,
    pub username: Seq<char>,
    pub phone_number: Seq<char>,
    pub is_verified: bool,
    pub is_support: bool,
    pub restriction_reason: Seq<char>,
    pub is_scam: bool,
    pub user_type: Seq<char>,
    pub scam: bool,
    pub bypass: bool,
}

impl View for User {
    type V = UserView;

    open spec fn view(&self) -> UserView {
        UserView {
            id: self.id,
            first_name: self.first_name@,
            last_name: self.last_name@,
            username: self.username@,
            phone_number: self.phone_number@,
            is_verified: self.is_verified,
            is_support: self.is_support,
            restriction_reason: self.restriction_reason@,
            is_scam: self.is_scam,
            user_type: self.user_type@,
            scam: self.scam,
            bypass: self.bypass,
        }
    }
}

/// What a stored record becomes after `merge` with a fresh observation: names
/// and username are taken from `new`, the phone number only where none was known.
pub open spec fn merged_user(old: UserView, new: UserView) -> UserView {
    UserView {
        first_name: new.first_name,
        last_name: new.last_name,
        username: new.username,
        phone_number: if old.phone_number.len() == 0 {
            new.phone_number
        } else {
            old.phone_number
        },
        ..old
    }
}

/// The document of a user.
pub open spec fn user_doc(u: UserView) -> Map<Seq<char>, ValueView> {
    Map::empty()
        .insert(ID@, ValueView::Int(u.id))
        .insert(FIRST_NAME@, ValueView::Str(u.first_name))
        .insert(LAST_NAME@, ValueView::Str(u.last_name))
        .insert(USERNAME@, ValueView::Str(u.username))
        .insert(PHONE_NUMBER@, ValueView::Str(u.phone_number))
        .insert(IS_VERIFIED@, ValueView::Bool(u.is_verified))
        .insert(IS_SUPPORT@, ValueView::Bool(u.is_support))
        .insert(RESTRICTION_REASON@, ValueView::Str(u.restriction_reason))
        .insert(IS_SCAM@, ValueView::Bool(u.is_scam))
        .insert(USER_TYPE@, ValueView::Str(u.user_type))
        .insert(SCAM@, ValueView::Bool(u.scam))
        .insert(BYPASS@, ValueView::Bool(u.bypass))
}

/// A document can be read as a user when it has an integer id and a first name.
pub open spec fn is_user_doc(d: Map<Seq<char>, ValueView>) -> bool {
    int_at(d, ID@).is_some() && str_at(d, FIRST_NAME@).is_some()
}

/// The user that a document describes: a missing string reads as empty and a
/// missing flag as false.
pub open spec fn user_of_doc(d: Map<Seq<char>, ValueView>) -> UserView {
    UserView {
        id: int_at(d, ID@)->Some_0,
        first_name: str_at(d, FIRST_NAME@)->Some_0,
        last_name: str_or(d, LAST_NAME@, Seq::empty()),
        username: str_or(d, USERNAME@, Seq::empty()),
        phone_number: str_or(d, PHONE_NUMBER@, Seq::empty()),
        is_verified: bool_or(d, IS_VERIFIED@, false),
        is_support: bool_or(d, IS_SUPPORT@, false),
        restriction_reason: str_or(d, RESTRICTION_REASON@, Seq::empty()),
        is_scam: bool_or(d, IS_SCAM@, false),
        user_type: str_or(d, USER_TYPE@, Seq::empty()),
        scam: bool_or(d, SCAM@, false),
        bypass: bool_or(d, BYPASS@, false),
    }
}

/// A user's document reads back as that user.
pub proof fn lemma_user_doc_round_trip(u: UserView)
    ensures
        is_user_doc(user_doc(u)),
        user_of_doc(user_doc(u)) == u,
{
    reveal_strlit("id");
    reveal_strlit("first_name");
    reveal_strlit("last_name");
    reveal_strlit("username");
    reveal_strlit("phone_number");
    reveal_strlit("is_verified");
    reveal_strlit("is_support");
    reveal_strlit("restriction_reason");
    reveal_strlit("is_scam");
    reveal_strlit("user_type");
    reveal_strlit("scam");
    reveal_strlit("bypass");
    assert(ID@.len() == 2 && FIRST_NAME@.len() == 10 && LAST_NAME@.len() == 9);
    assert(USERNAME@.len() == 8 && PHONE_NUMBER@.len() == 12 && IS_VERIFIED@.len() == 11);
    assert(IS_SUPPORT@.len() == 10 && RESTRICTION_REASON@.len() == 18 && IS_SCAM@.len() == 7);
    assert(USER_TYPE@.len() == 9 && SCAM@.len() == 4 && BYPASS@.len() == 6);
    assert(FIRST_NAME@[0] != IS_SUPPORT@[0]);
    assert(LAST_NAME@[0] != USER_TYPE@[0]);
    let d = user_doc(u);
    assert(d[ID@] == ValueView::Int(u.id));
    assert(d[FIRST_NAME@] == ValueView::Str(u.first_name));
    assert(d[LAST_NAME@] == ValueView::Str(u.last_name));
    assert(d[USERNAME@] == ValueView::Str(u.username));
    assert(d[PHONE_NUMBER@] == ValueView::Str(u.phone_number));
    assert(d[IS_VERIFIED@] == ValueView::Bool(u.is_verified));
    assert(d[IS_SUPPORT@] == ValueView::Bool(u.is_support));
    assert(d[RESTRICTION_REASON@] == ValueView::Str(u.restriction_reason));
    assert(d[IS_SCAM@] == ValueView::Bool(u.is_scam));
    assert(d[USER_TYPE@] == ValueView::Str(u.user_type));
    assert(d[SCAM@] == ValueView::Bool(u.scam));
    assert(d[BYPASS@] == ValueView::Bool(u.bypass));
    assert(user_of_doc(d) == u);
}

impl Record for User {
    open spec fn collection_spec(&self) -> Seq<char> {
        COLLECTION@
    }

    open spec fn id_spec(&self) -> i64 {
        self.id
    }

    open spec fn doc_spec(&self) -> Map<Seq<char>, ValueView> {
        user_doc(self@)
    }

    fn collection_name(&self) -> (r: &'static str) {
        COLLECTION
    }

    fn id(&self) -> (r: i64) {
        self.id
    }

    fn to_doc(&self) -> (r: Document) {
        let mut d = Document::new();
        d.insert(ID, Value::Int(self.id));
        d.insert(FIRST_NAME, Value::Str(self.first_name.clone()));
        d.insert(LAST_NAME, Value::Str(self.last_name.clone()));
        d.insert(USERNAME, Value::Str(self.username.clone()));
        d.insert(PHONE_NUMBER, Value::Str(self.phone_number.clone()));
        d.insert(IS_VERIFIED, Value::Bool(self.is_verified));
        d.insert(IS_SUPPORT, Value::Bool(self.is_support));
        d.insert(RESTRICTION_REASON, Value::Str(self.restriction_reason.clone()));
        d.insert(IS_SCAM, Value::Bool(self.is_scam));
        d.insert(USER_TYPE, Value::Str(self.user_type.clone()));
        d.insert(SCAM, Value::Bool(self.scam));
        d.insert(BYPASS, Value::Bool(self.bypass));
        d
    }
}

impl User {
    /// Reads a user from its document: none when the id or the first name is missing.
    pub fn from_doc(doc: &Document) -> (r: Option<User>)
        ensures
            r.is_some() == is_user_doc(doc@),
            r matches Some(u) ==> u@ == user_of_doc(doc@),
    {
        let id = match doc.get_i64(ID) {
            Some(id) => id,
            None => return None,
        };
        let first_name = match doc.get_str(FIRST_NAME) {
            Some(s) => s,
            None => return None,
        };
        Some(
            User {
                id,
                first_name,
                last_name: doc.get_str_or_empty(LAST_NAME),
                username: doc.get_str_or_empty(USERNAME),
                phone_number: doc.get_str_or_empty(PHONE_NUMBER),
                is_verified: doc.get_bool_or(IS_VERIFIED, false),
                is_support: doc.get_bool_or(IS_SUPPORT, false),
                restriction_reason: doc.get_str_or_empty(RESTRICTION_REASON),
                is_scam: doc.get_bool_or(IS_SCAM, false),
                user_type: doc.get_str_or_empty(USER_TYPE),
                scam: doc.get_bool_or(SCAM, false),
                bypass: doc.get_bool_or(BYPASS, false),
            },
        )
    }

    /// Whether an administrator (or the new-user heuristics) marked this user as a scammer.
    pub fn is_scam_by_admin(&self) -> (r: bool)
        ensures
            r == self.scam,
    {
        self.scam
    }

    /// Whether the user is on the operator's allow-list.
    pub fn is_bypass(&self) -> (r: bool)
        ensures
            r == self.bypass,
    {
        self.bypass
    }

    /// A field-by-field copy.
    pub fn duplicate(&self) -> (r: User)
        ensures
            r@ == self@,
    {
        User {
            id: self.id,
            first_name: self.first_name.clone(),
            last_name: self.last_name.clone(),
            username: self.username.clone(),
            phone_number: self.phone_number.clone(),
            is_verified: self.is_verified,
            is_support: self.is_support,
            restriction_reason: self.restriction_reason.clone(),
            is_scam: self.is_scam,
            user_type: self.user_type.clone(),
            scam: self.scam,
            bypass: self.bypass,
        }
    }

    /// Refreshes the identity fields from a newer observation of the same user.
    /// The scam and bypass marks, and every other field, are kept.
    pub fn merge(&mut self, new: &User)
        ensures
            final(self)@ == merged_user(old(self)@, new@),
    {
        if self.phone_number.as_str().is_empty() {
            self.phone_number = new.phone_number.clone();
        }
        self.first_name = new.first_name.clone();
        self.last_name = new.last_name.clone();
        self.username = new.username.clone();
    }
}

} // verus!
