//! The stored records: pastes and user accounts, with their
//! mathematical views.

use vstd::prelude::*;

verus! {

/// The authenticated caller's user id, if any.
pub open spec fn caller_id(user: Option<&User>) -> Option<int> {
    match user {
        Some(u) => Some(u.id as int),
        None => None,
    }
}

/// A stored paste: its identifier (a custom slug or a generated key),
/// its raw content, the classifier's verdict on that content, and the
/// id of the owning user, absent for anonymous pastes.
pub struct Paste {
    pub id: String,
    pub content: String,
    pub is_url: bool,
    pub belongs_to: Option<i64>,
}

/// The mathematical view of a paste.
pub ghost struct PasteView {
    pub id: Seq<char>,
    pub content: Seq<char>,
    pub is_url: bool,
    pub belongs_to: Option<int>,
}

impl View for Paste {
    type V = PasteView;

    open spec fn view(&self) -> PasteView {
        PasteView {
            id: self.id@,
            content: self.content@,
            is_url: self.is_url,
            belongs_to: match self.belongs_to {
                Some(owner) => Some(owner as int),
                None => None,
            },
        }
    }
}

impl Paste {
    /// A field-by-field copy of the record.
    pub fn duplicate(&self) -> (r: Paste)
        ensures
            r@ == self@,
    {
        Paste {
            id: self.id.clone(),
            content: self.content.clone(),
            is_url: self.is_url,
            belongs_to: self.belongs_to,
        }
    }
}

/// A registered user: a system-assigned numeric id, a unique email
/// (compared without regard to ASCII case), the opaque password hash,
/// and the registration and last-update times as Unix timestamps.
pub struct User {
    pub id: i64,
    pub email: String,
    pub hashed_password: String,
    pub inserted_at: i64,
    pub updated_at: i64,
}

/// The mathematical view of a user record.
pub ghost struct UserView {
    pub id: int,
    pub email: Seq<char>,
    pub hashed_password: Seq<char>,
    pub inserted_at: int,
    pub updated_at: int,
}

impl View for User {
    type V = UserView;

    open spec fn view(&self) -> UserView {
        UserView {
            id: self.id as int,
            email: self.email@,
            hashed_password: self.hashed_password@,
            inserted_at: self.inserted_at as int,
            updated_at: self.updated_at as int,
        }
    }
}

impl User {
    /// A field-by-field copy of the record.
    pub fn duplicate(&self) -> (r: User)
        ensures
            r@ == self@,
    {
        User {
            id: self.id,
            email: self.email.clone(),
            hashed_password: self.hashed_password.clone(),
            inserted_at: self.inserted_at,
            updated_at: self.updated_at,
        }
    }
}

} // verus!
