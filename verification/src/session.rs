//! Session resolution: the signed identity cookie, already verified and
//! unsigned by the transport layer, names the current user's email.  An
//! empty cookie or an unknown email degrades to an anonymous request;
//! resolution itself never fails.

use vstd::prelude::*;

use crate::account_store::{has_email, stored_user, AccountStore};
use crate::models::User;
use crate::strutil::eq_ignore_case;

verus! {

/// The identity the cookie value resolves to: the stored user whose
/// email the cookie names, or no identity when the cookie is empty or
/// names no stored user.
pub fn resolve_current_user(accounts: &AccountStore, cookie_value: &str) -> (r: Option<User>)
    ensures
        cookie_value@.len() == 0 ==> r is None,
        cookie_value@.len() > 0 ==> (r is Some <==> has_email(accounts@, cookie_value@)),
        r matches Some(u) ==> stored_user(accounts@, u@) && eq_ignore_case(u@.email, cookie_value@),
{
    if cookie_value.is_empty() {
        return None;
    }
    match accounts.find_by_email(cookie_value) {
        Ok(user) => Some(user),
        Err(_) => None,
    }
}

} // verus!
