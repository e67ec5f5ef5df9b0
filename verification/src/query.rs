//! The read-side service operations: paste lookup, login, and user
//! lookup by email.

use vstd::prelude::*;

use crate::account_store::{credentials_valid, has_email, stored_user, AccountStore};
use crate::creds::password_matches;
use crate::models::{Paste, User};
use crate::paste_store::{has_paste, stored_paste, PasteStore};
use crate::schema::LoginPost;
use crate::strutil::eq_ignore_case;
use crate::ServiceError;

verus! {

/// The read-only operations of the service.
pub struct Query;

impl Query {
    /// The stored paste with the given identifier; an absent identifier
    /// is reported as not found.
    pub fn get_paste_by_id(store: &PasteStore, id: &str) -> (r: Result<Paste, ServiceError>)
        ensures
            r is Ok <==> has_paste(store@, id@),
            r matches Ok(p) ==> p@.id == id@ && stored_paste(store@, p@),
            r is Err ==> r == Err::<Paste, ServiceError>(ServiceError::NotFound),
    {
        store.get(id)
    }

    /// Log a user in: succeeds exactly when a user with the form's
    /// email is stored and the form's password matches that user's
    /// stored hash.  An unknown email and a wrong password are reported
    /// as the same credential error, with no observable distinction.
    pub fn login(accounts: &AccountStore, form: &LoginPost) -> (r: Result<User, ServiceError>)
        requires
            accounts.wf(),
        ensures
            r is Ok <==> credentials_valid(accounts@, form@.email, form@.password),
            r matches Ok(u) ==> stored_user(accounts@, u@) && eq_ignore_case(u@.email, form@.email)
                && password_matches(form@.password, u@.hashed_password),
            r is Err ==> r == Err::<User, ServiceError>(ServiceError::InvalidCredentials),
    {
        accounts.authenticate(form)
    }

    /// The stored user with the given email, compared without regard to
    /// ASCII case; an unknown email is reported as not found.
    pub fn get_user_by_email(accounts: &AccountStore, email: &str) -> (r: Result<
        User,
        ServiceError,
    >)
        ensures
            r is Ok <==> has_email(accounts@, email@),
            r matches Ok(u) ==> stored_user(accounts@, u@) && eq_ignore_case(u@.email, email@),
            r is Err ==> r == Err::<User, ServiceError>(ServiceError::NotFound),
    {
        accounts.find_by_email(email)
    }
}

} // verus!
