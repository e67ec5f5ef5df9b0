//! The authorization policy.  Anyone may create a paste (only an
//! authenticated caller may fix its identifier) and anyone may view any
//! paste; a paste classified as a URL is served as a redirect to its
//! content unless the explicit view path was requested.  Editing is
//! allowed only to an identity matching the paste's owner; every other
//! edit attempt — anonymous, foreign, or on an ownerless paste — is
//! deflected to the paste's view page rather than reported as an error.

use vstd::prelude::*;

use crate::models::{caller_id, Paste, User};

verus! {

/// The viewer owns the paste: both ids are present and equal.  A paste
/// with no owner can be edited by nobody.
pub open spec fn may_edit(paste_owner: Option<int>, viewer: Option<int>) -> bool {
    match (paste_owner, viewer) {
        (Some(owner), Some(viewer_id)) => owner == viewer_id,
        _ => false,
    }
}

/// What an edit attempt is answered with.
#[derive(Clone, Copy, Debug, PartialEq, Eq, Structural)]
pub enum EditDecision {
    Allow,
    RedirectToView,
}

/// What a view request is answered with: a redirect to the stored
/// content, or a rendering of the paste, with or without its edit
/// controls.
#[derive(Clone, Copy, Debug, PartialEq, Eq, Structural)]
pub enum ViewDecision {
    RedirectToContent,
    Render { show_edit: bool },
}

/// Decide an edit attempt: allowed exactly when the caller is
/// authenticated and owns the paste, deflected to the view page in
/// every other case.
pub fn edit_decision(paste: &Paste, current_user: Option<&User>) -> (r: EditDecision)
    ensures
        (r == EditDecision::Allow) <==> may_edit(paste@.belongs_to, caller_id(current_user)),
        !may_edit(paste@.belongs_to, caller_id(current_user)) ==> r
            == EditDecision::RedirectToView,
{
    match (paste.belongs_to, current_user) {
        (Some(owner), Some(user)) => if owner == user.id {
            EditDecision::Allow
        } else {
            EditDecision::RedirectToView
        },
        _ => EditDecision::RedirectToView,
    }
}

/// Decide a view request: a paste classified as a URL redirects to its
/// content unless the explicit view path was requested; otherwise the
/// paste is rendered, with edit controls exactly for its owner.
pub fn view_decision(paste: &Paste, requested_view_path: bool, current_user: Option<&User>) -> (r:
    ViewDecision)
    ensures
        r == (if paste@.is_url && !requested_view_path {
            ViewDecision::RedirectToContent
        } else {
            (ViewDecision::Render { show_edit: may_edit(paste@.belongs_to, caller_id(current_user)) })
        }),
{
    if paste.is_url && !requested_view_path {
        ViewDecision::RedirectToContent
    } else {
        let show_edit = match (paste.belongs_to, current_user) {
            (Some(owner), Some(user)) => owner == user.id,
            _ => false,
        };
        ViewDecision::Render { show_edit }
    }
}

} // verus!
