//! The account store: user records with unique, case-insensitively
//! compared emails and unique system-assigned ids.  Registration hashes
//! the password; authentication looks a user up by email and verifies
//! the password, reporting every failure as the same credential error
//! so a caller cannot tell an unknown email from a wrong password.

use vstd::prelude::*;

use crate::creds::{hash_password, password_matches, verify_password, HASH_COST};
use crate::models::{User, UserView};
use crate::schema::LoginPost;
use crate::strutil::{eq_ignore_case, str_eq_ignore_case};
use crate::ServiceError;

verus! {

/// Some stored user carries the email `email`, compared without regard
/// to ASCII case.
pub open spec fn has_email(s: Seq<UserView>, email: Seq<char>) -> bool {
    exists|i: int| 0 <= i < s.len() && eq_ignore_case((#[trigger] s[i]).email, email)
}

/// The record `u` is one of the stored users.
pub open spec fn stored_user(s: Seq<UserView>, u: UserView) -> bool {
    exists|i: int| 0 <= i < s.len() && s[i] == u
}

/// A user with this email is stored, and the stored password hash
/// matches the given password.
pub open spec fn credentials_valid(s: Seq<UserView>, email: Seq<char>, password: Seq<char>) -> bool {
    exists|i: int|
        0 <= i < s.len() && eq_ignore_case((#[trigger] s[i]).email, email) && password_matches(
            password,
            s[i].hashed_password,
        )
}

/// Relies on chrono::Utc::now and chrono::DateTime::timestamp: the
/// current wall-clock time as seconds since the Unix epoch.  Nothing
/// can be promised of the clock's reading.
#[verifier::external_body]
fn now_timestamp() -> i64 {
    chrono::Utc::now().timestamp()
}

/// The user records, in registration order, and the id the next
/// registration will be assigned.
pub struct AccountStore {
    pub users: Vec<User>,
    pub next_id: i64,
}

impl View for AccountStore {
    type V = Seq<UserView>;

    open spec fn view(&self) -> Seq<UserView> {
        self.users@.map_values(|u: User| u@)
    }
}

impl AccountStore {
    /// The store's invariants: ids are assigned below the counter and
    /// are unique, and no two users share an email, however cased.
    pub open spec fn wf(&self) -> bool {
        &&& 1 <= self.next_id
        &&& forall|i: int|
            0 <= i < self@.len() ==> 0 <= (#[trigger] self@[i]).id < self.next_id as int
        &&& forall|i: int, j: int|
            0 <= i < j < self@.len() ==> (#[trigger] self@[i]).id != (#[trigger] self@[j]).id
        &&& forall|i: int, j: int|
            0 <= i < j < self@.len() ==> !eq_ignore_case(
                (#[trigger] self@[i]).email,
                (#[trigger] self@[j]).email,
            )
    }

    /// Ids are assigned from a counter; one more can be assigned only
    /// while the counter has room.
    pub open spec fn has_capacity(&self) -> bool {
        self.next_id < i64::MAX
    }

    /// An empty store.
    pub fn new() -> (s: Self)
        ensures
            s.wf(),
            s.has_capacity(),
            s@ == Seq::<UserView>::empty(),
    {
        let s = AccountStore { users: Vec::new(), next_id: 1 };
        proof {
            assert(s@ =~= Seq::<UserView>::empty());
        }
        s
    }

    /// The index of the user with the given email, if any, compared
    /// without regard to ASCII case.
    fn find_email_index(&self, email: &str) -> (r: Option<usize>)
        ensures
            match r {
                Some(i) => i < self@.len() && eq_ignore_case(self@[i as int].email, email@),
                None => !has_email(self@, email@),
            },
    {
        let n = self.users.len();
        for i in 0..n
            invariant
                n == self.users@.len(),
                forall|j: int| 0 <= j < i ==> !eq_ignore_case((#[trigger] self@[j]).email, email@),
        {
            if str_eq_ignore_case(self.users[i].email.as_str(), email) {
                assert(eq_ignore_case(self@[i as int].email, email@));
                return Some(i);
            }
        }
        None
    }

    /// Register a new account: taken emails are reported as already
    /// existing; otherwise the password is hashed and a record is
    /// appended with a fresh id and with both timestamps set to the
    /// same reading of the clock.  A failure of the hashing primitive
    /// is unexpected and reported as such.
    pub fn register(&mut self, form: &LoginPost) -> (r: Result<User, ServiceError>)
        requires
            old(self).wf(),
            old(self).has_capacity(),
        ensures
            final(self).wf(),
            (r == Err::<User, ServiceError>(ServiceError::AlreadyExists)) <==> has_email(
                old(self)@,
                form@.email,
            ),
            r is Err ==> final(self)@ == old(self)@ && (r == Err::<User, ServiceError>(
                ServiceError::AlreadyExists,
            ) || r == Err::<User, ServiceError>(ServiceError::HashingError)),
            r matches Ok(u) ==> {
                &&& !has_email(old(self)@, form@.email)
                &&& u@.email == form@.email
                &&& password_matches(form@.password, u@.hashed_password)
                &&& u@.inserted_at == u@.updated_at
                &&& forall|i: int| 0 <= i < old(self)@.len() ==> (#[trigger] old(self)@[i]).id != u@.id
                &&& final(self)@ == old(self)@.push(u@)
            },
    {
        if self.find_email_index(form.email.as_str()).is_some() {
            return Err(ServiceError::AlreadyExists);
        }
        let hashed = match hash_password(form.password.as_str(), HASH_COST) {
            Some(h) => h,
            None => {
                return Err(ServiceError::HashingError);
            },
        };
        let now = now_timestamp();
        let record = User {
            id: self.next_id,
            email: form.email.clone(),
            hashed_password: hashed,
            inserted_at: now,
            updated_at: now,
        };
        let result = record.duplicate();
        let ghost prior = self@;
        self.users.push(record);
        self.next_id = self.next_id + 1;
        proof {
            assert(self@ =~= prior.push(result@));
            assert forall|i: int| 0 <= i < self@.len() implies 0 <= (#[trigger] self@[i]).id
                < self.next_id as int by {
                if i < self@.len() - 1 {
                    assert(0 <= prior[i].id < old(self).next_id as int);
                }
            }
            assert forall|i: int, j: int| 0 <= i < j < self@.len() implies (#[trigger] self@[i]).id
                != (#[trigger] self@[j]).id by {
                if j == self@.len() - 1 {
                    assert(0 <= prior[i].id < old(self).next_id as int);
                }
            }
            assert forall|i: int, j: int| 0 <= i < j < self@.len() implies !eq_ignore_case(
                (#[trigger] self@[i]).email,
                (#[trigger] self@[j]).email,
            ) by {
                if j == self@.len() - 1 {
                    assert(!has_email(prior, self@[j].email));
                }
            }
        }
        Ok(result)
    }

    /// The stored user with the given email, compared without regard to
    /// ASCII case; an unknown email is reported as not found.
    pub fn find_by_email(&self, email: &str) -> (r: Result<User, ServiceError>)
        ensures
            r is Ok <==> has_email(self@, email@),
            r matches Ok(u) ==> stored_user(self@, u@) && eq_ignore_case(u@.email, email@),
            r is Err ==> r == Err::<User, ServiceError>(ServiceError::NotFound),
    {
        match self.find_email_index(email) {
            Some(i) => {
                let found = self.users[i].duplicate();
                assert(has_email(self@, email@));
                assert(stored_user(self@, found@));
                Ok(found)
            },
            None => Err(ServiceError::NotFound),
        }
    }

    /// Authenticate: succeeds exactly when a user with the form's email
    /// is stored and the form's password matches that user's stored
    /// hash, and then returns that user.  An unknown email, a wrong
    /// password and a malformed stored hash are all reported as the
    /// same credential error, so the outcome does not reveal whether
    /// the account exists.
    pub fn authenticate(&self, form: &LoginPost) -> (r: Result<User, ServiceError>)
        requires
            self.wf(),
        ensures
            r is Ok <==> credentials_valid(self@, form@.email, form@.password),
            r matches Ok(u) ==> stored_user(self@, u@) && eq_ignore_case(u@.email, form@.email)
                && password_matches(form@.password, u@.hashed_password),
            r is Err ==> r == Err::<User, ServiceError>(ServiceError::InvalidCredentials),
    {
        let index = match self.find_email_index(form.email.as_str()) {
            Some(i) => i,
            None => {
                return Err(ServiceError::InvalidCredentials);
            },
        };
        let user = &self.users[index];
        let verified = verify_password(form.password.as_str(), user.hashed_password.as_str());
        match verified {
            Some(true) => {
                let found = user.duplicate();
                assert(credentials_valid(self@, form@.email, form@.password));
                assert(stored_user(self@, found@));
                Ok(found)
            },
            _ => {
                proof {
                    assert forall|i: int|
                        0 <= i < self@.len() && eq_ignore_case(
                            (#[trigger] self@[i]).email,
                            form@.email,
                        ) implies !password_matches(form@.password, self@[i].hashed_password) by {
                        if i != index as int {
                            assert(!eq_ignore_case(self@[index as int].email, self@[i].email));
                        }
                    }
                }
                Err(ServiceError::InvalidCredentials)
            },
        }
    }
}

} // verus!
