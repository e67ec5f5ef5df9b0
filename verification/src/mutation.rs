//! The mutating service operations: paste creation, paste content
//! update, and account registration.

use vstd::prelude::*;

use crate::account_store::{has_email, AccountStore};
use crate::classify::spec_is_url;
use crate::creds::password_matches;
use crate::keygen::{generate_key, valid_key};
use crate::models::{caller_id, Paste, PasteView, User};
use crate::paste_store::{has_paste, PasteStore};
use crate::schema::{LoginPost, PasteForm, PasteFormView};
use crate::ServiceError;

verus! {

/// The identifier a submission fixes in advance: the custom slug, taken
/// only when the caller is authenticated and the slug is non-empty.
/// Otherwise the identifier is left to the key generator.
pub open spec fn chosen_slug(form: PasteFormView, caller: Option<int>) -> Option<Seq<char>> {
    if caller is Some {
        match form.custom_url {
            Some(slug) => if slug.len() > 0 {
                Some(slug)
            } else {
                None
            },
            None => None,
        }
    } else {
        None
    }
}

/// The mutating operations of the service.
pub struct Mutation;

impl Mutation {
    /// Create a paste.  An authenticated caller's non-empty custom slug
    /// is used verbatim as the identifier; otherwise a random key of
    /// ten characters is generated.  The stored record carries the
    /// classifier's verdict on the content and the caller's id, if the
    /// caller is authenticated.  A taken identifier is reported as a
    /// duplicate and leaves the store unchanged; with a custom slug
    /// that happens exactly when the slug is already stored, and with a
    /// generated key only when the key collides with a stored one.
    pub fn create_paste(store: &mut PasteStore, form: &PasteForm, current_user: Option<&User>) -> (r:
        Result<Paste, ServiceError>)
        requires
            old(store).wf(),
        ensures
            final(store).wf(),
            match chosen_slug(form@, caller_id(current_user)) {
                Some(slug) => {
                    &&& has_paste(old(store)@, slug) ==> r == Err::<Paste, ServiceError>(
                        ServiceError::DuplicateId,
                    ) && final(store)@ == old(store)@
                    &&& !has_paste(old(store)@, slug) ==> (r matches Ok(p) && p@ == (PasteView {
                        id: slug,
                        content: form@.content,
                        is_url: spec_is_url(form@.content),
                        belongs_to: caller_id(current_user),
                    }) && final(store)@ == old(store)@.push(p@))
                },
                None => {
                    &&& (r matches Ok(p) ==> valid_key(p@.id, 10) && !has_paste(
                        old(store)@,
                        p@.id,
                    ) && p@ == (PasteView {
                        id: p@.id,
                        content: form@.content,
                        is_url: spec_is_url(form@.content),
                        belongs_to: caller_id(current_user),
                    }) && final(store)@ == old(store)@.push(p@))
                    &&& (r is Err ==> r == Err::<Paste, ServiceError>(ServiceError::DuplicateId)
                        && final(store)@ == old(store)@ && exists|k: Seq<char>|
                        valid_key(k, 10) && #[trigger] has_paste(old(store)@, k))
                },
            },
    {
        let owner: Option<i64> = match current_user {
            Some(u) => Some(u.id),
            None => None,
        };
        let mut custom: Option<String> = None;
        if current_user.is_some() {
            match &form.custom_url {
                Some(slug) => {
                    if !slug.as_str().is_empty() {
                        custom = Some(slug.clone());
                    }
                },
                None => {},
            }
        }
        match custom {
            Some(slug) => {
                assert(chosen_slug(form@, caller_id(current_user)) == Some(slug@));
                store.insert_if_absent(slug, form.content.clone(), owner)
            },
            None => {
                let key = generate_key(10);
                let ghost key_spec = key@;
                assert(chosen_slug(form@, caller_id(current_user)) is None);
                let r = store.insert_if_absent(key, form.content.clone(), owner);
                proof {
                    if has_paste(old(store)@, key_spec) {
                        assert(valid_key(key_spec, 10) && has_paste(old(store)@, key_spec));
                    }
                }
                r
            },
        }
    }

    /// Replace the content of the paste with the given identifier,
    /// recomputing its classification; identifier and owner are kept.
    /// Ownership is not checked here: the authorization policy decides
    /// before this is called, so the caller is passed through unused.
    pub fn update_paste_content(
        store: &mut PasteStore,
        form: &PasteForm,
        _current_user: Option<&User>,
        paste_id: &str,
    ) -> (r: Result<Paste, ServiceError>)
        requires
            old(store).wf(),
        ensures
            final(store).wf(),
            r is Ok <==> has_paste(old(store)@, paste_id@),
            r is Err ==> r == Err::<Paste, ServiceError>(ServiceError::NotFound) && final(store)@
                == old(store)@,
            r matches Ok(p) ==> exists|i: int|
                0 <= i < old(store)@.len() && (#[trigger] old(store)@[i]).id == paste_id@ && p@
                    == (PasteView {
                    id: old(store)@[i].id,
                    content: form@.content,
                    is_url: spec_is_url(form@.content),
                    belongs_to: old(store)@[i].belongs_to,
                }) && final(store)@ == old(store)@.update(i, p@),
    {
        store.update_content(paste_id, form.content.clone())
    }

    /// Register an account with the form's email and password.  A taken
    /// email (compared without regard to ASCII case) is reported as
    /// already existing; otherwise the stored record carries a fresh
    /// id, a hash the password verifies against, and equal creation and
    /// update timestamps.
    pub fn register(accounts: &mut AccountStore, form: &LoginPost) -> (r: Result<
        User,
        ServiceError,
    >)
        requires
            old(accounts).wf(),
            old(accounts).has_capacity(),
        ensures
            final(accounts).wf(),
            (r == Err::<User, ServiceError>(ServiceError::AlreadyExists)) <==> has_email(
                old(accounts)@,
                form@.email,
            ),
            r is Err ==> final(accounts)@ == old(accounts)@ && (r == Err::<User, ServiceError>(
                ServiceError::AlreadyExists,
            ) || r == Err::<User, ServiceError>(ServiceError::HashingError)),
            r matches Ok(u) ==> {
                &&& !has_email(old(accounts)@, form@.email)
                &&& u@.email == form@.email
                &&& password_matches(form@.password, u@.hashed_password)
                &&& u@.inserted_at == u@.updated_at
                &&& forall|i: int|
                    0 <= i < old(accounts)@.len() ==> (#[trigger] old(accounts)@[i]).id != u@.id
                &&& final(accounts)@ == old(accounts)@.push(u@)
            },
    {
        accounts.register(form)
    }
}

} // verus!
