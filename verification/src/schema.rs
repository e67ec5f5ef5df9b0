//! The forms a request hands to the service: the paste submission and
//! the login/registration form.

use vstd::prelude::*;

verus! {

/// A submitted paste: its content and, when the submitter chose one,
/// a custom identifier.
pub struct PasteForm {
    pub content: String,
    pub custom_url: Option<String>,
}

/// The mathematical view of a paste submission.
pub ghost struct PasteFormView {
    pub content: Seq<char>,
    pub custom_url: Option<Seq<char>>,
}

impl View for PasteForm {
    type V = PasteFormView;

    open spec fn view(&self) -> PasteFormView {
        PasteFormView {
            content: self.content@,
            custom_url: match self.custom_url {
                Some(ref u) => Some(u@),
                None => None,
            },
        }
    }
}

/// The login and registration form: an email address, a password, and
/// whether the session should outlive the browser.
pub struct LoginPost {
    pub email: String,
    pub password: String,
    pub remember_me: Option<bool>,
}

/// The mathematical view of a login form.
pub ghost struct LoginPostView {
    pub email: Seq<char>,
    pub password: Seq<char>,
    pub remember_me: Option<bool>,
}

impl View for LoginPost {
    type V = LoginPostView;

    open spec fn view(&self) -> LoginPostView {
        LoginPostView {
            email: self.email@,
            password: self.password@,
            remember_me: self.remember_me,
        }
    }
}

} // verus!
