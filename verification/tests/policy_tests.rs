use katbin::models::{Paste, User};
use katbin::policy::{edit_decision, view_decision, EditDecision, ViewDecision};

fn paste(owner: Option<i64>, is_url: bool) -> Paste {
    Paste {
        id: String::from("abc"),
        content: String::from(if is_url { "https://example.com/x" } else { "text" }),
        is_url,
        belongs_to: owner,
    }
}

fn user(id: i64) -> User {
    User {
        id,
        email: String::from("u@example.com"),
        hashed_password: String::from("opaque"),
        inserted_at: 0,
        updated_at: 0,
    }
}

#[test]
fn owner_may_edit() {
    let p = paste(Some(5), false);
    let u = user(5);
    assert_eq!(edit_decision(&p, Some(&u)), EditDecision::Allow);
}

#[test]
fn foreign_identity_is_redirected_to_view() {
    let p = paste(Some(5), false);
    let u = user(6);
    assert_eq!(edit_decision(&p, Some(&u)), EditDecision::RedirectToView);
}

#[test]
fn anonymous_edit_is_redirected_to_view() {
    let p = paste(Some(5), false);
    assert_eq!(edit_decision(&p, None), EditDecision::RedirectToView);
}

#[test]
fn ownerless_paste_cannot_be_edited() {
    let p = paste(None, false);
    let u = user(5);
    assert_eq!(edit_decision(&p, Some(&u)), EditDecision::RedirectToView);
    assert_eq!(edit_decision(&p, None), EditDecision::RedirectToView);
}

#[test]
fn url_paste_redirects_off_the_view_path() {
    let p = paste(None, true);
    assert_eq!(view_decision(&p, false, None), ViewDecision::RedirectToContent);
}

#[test]
fn url_paste_renders_on_the_view_path() {
    let p = paste(None, true);
    assert_eq!(view_decision(&p, true, None), ViewDecision::Render { show_edit: false });
}

#[test]
fn text_paste_renders_everywhere() {
    let p = paste(None, false);
    assert_eq!(view_decision(&p, false, None), ViewDecision::Render { show_edit: false });
    assert_eq!(view_decision(&p, true, None), ViewDecision::Render { show_edit: false });
}

#[test]
fn edit_controls_show_only_for_the_owner() {
    let p = paste(Some(5), false);
    let owner = user(5);
    let visitor = user(6);
    assert_eq!(
        view_decision(&p, false, Some(&owner)),
        ViewDecision::Render { show_edit: true }
    );
    assert_eq!(
        view_decision(&p, false, Some(&visitor)),
        ViewDecision::Render { show_edit: false }
    );
}
