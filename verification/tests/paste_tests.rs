use katbin::models::User;
use katbin::mutation::Mutation;
use katbin::paste_store::PasteStore;
use katbin::query::Query;
use katbin::schema::PasteForm;
use katbin::ServiceError;

const VOWELS: &str = "aeiou";
const CONSONANTS: &str = "bcdfghjklmnpqrstvwxyz";

fn some_user(id: i64) -> User {
    User {
        id,
        email: String::from("owner@example.com"),
        hashed_password: String::from("opaque"),
        inserted_at: 0,
        updated_at: 0,
    }
}

#[test]
fn anonymous_create_without_slug() {
    let mut store = PasteStore::new();
    let form = PasteForm { content: String::from("not a url"), custom_url: None };
    let paste = Mutation::create_paste(&mut store, &form, None).unwrap();
    assert!(!paste.is_url);
    assert_eq!(paste.belongs_to, None);
    assert_eq!(paste.id.chars().count(), 10);
    for c in paste.id.chars() {
        assert!(VOWELS.contains(c) || CONSONANTS.contains(c));
    }
    assert_eq!(paste.content, "not a url");
}

#[test]
fn authenticated_create_uses_custom_slug() {
    let mut store = PasteStore::new();
    let user = some_user(3);
    let form = PasteForm {
        content: String::from("some text"),
        custom_url: Some(String::from("my-slug")),
    };
    let paste = Mutation::create_paste(&mut store, &form, Some(&user)).unwrap();
    assert_eq!(paste.id, "my-slug");
    assert_eq!(paste.belongs_to, Some(3));
}

#[test]
fn anonymous_caller_cannot_fix_the_slug() {
    let mut store = PasteStore::new();
    let form = PasteForm {
        content: String::from("some text"),
        custom_url: Some(String::from("my-slug")),
    };
    let paste = Mutation::create_paste(&mut store, &form, None).unwrap();
    assert_ne!(paste.id, "my-slug");
    assert_eq!(paste.id.chars().count(), 10);
}

#[test]
fn empty_custom_slug_falls_back_to_generated_key() {
    let mut store = PasteStore::new();
    let user = some_user(3);
    let form = PasteForm { content: String::from("some text"), custom_url: Some(String::new()) };
    let paste = Mutation::create_paste(&mut store, &form, Some(&user)).unwrap();
    assert_eq!(paste.id.chars().count(), 10);
}

#[test]
fn second_create_with_same_slug_is_a_duplicate() {
    let mut store = PasteStore::new();
    let user = some_user(3);
    let form = PasteForm {
        content: String::from("first body"),
        custom_url: Some(String::from("taken")),
    };
    assert!(Mutation::create_paste(&mut store, &form, Some(&user)).is_ok());
    let form2 = PasteForm {
        content: String::from("second body"),
        custom_url: Some(String::from("taken")),
    };
    let second = Mutation::create_paste(&mut store, &form2, Some(&user));
    assert!(matches!(second, Err(ServiceError::DuplicateId)));
    let kept = Query::get_paste_by_id(&store, "taken").unwrap();
    assert_eq!(kept.content, "first body");
}

#[test]
fn get_by_id_finds_the_stored_paste() {
    let mut store = PasteStore::new();
    let user = some_user(9);
    let form = PasteForm {
        content: String::from("https://example.com/x"),
        custom_url: Some(String::from("link")),
    };
    Mutation::create_paste(&mut store, &form, Some(&user)).unwrap();
    let found = Query::get_paste_by_id(&store, "link").unwrap();
    assert_eq!(found.id, "link");
    assert_eq!(found.content, "https://example.com/x");
    assert!(found.is_url);
    assert_eq!(found.belongs_to, Some(9));
}

#[test]
fn get_unknown_id_is_not_found() {
    let store = PasteStore::new();
    let missing = Query::get_paste_by_id(&store, "absent");
    assert!(matches!(missing, Err(ServiceError::NotFound)));
}

#[test]
fn update_recomputes_classification_to_url() {
    let mut store = PasteStore::new();
    let user = some_user(4);
    let form = PasteForm {
        content: String::from("plain words"),
        custom_url: Some(String::from("p")),
    };
    let created = Mutation::create_paste(&mut store, &form, Some(&user)).unwrap();
    assert!(!created.is_url);
    let replacement = PasteForm {
        content: String::from("https://example.com/x"),
        custom_url: None,
    };
    let updated =
        Mutation::update_paste_content(&mut store, &replacement, Some(&user), "p").unwrap();
    assert!(updated.is_url);
    assert_eq!(updated.id, "p");
    assert_eq!(updated.belongs_to, Some(4));
    let fetched = Query::get_paste_by_id(&store, "p").unwrap();
    assert!(fetched.is_url);
    assert_eq!(fetched.content, "https://example.com/x");
}

#[test]
fn update_recomputes_classification_to_text() {
    let mut store = PasteStore::new();
    let user = some_user(4);
    let form = PasteForm {
        content: String::from("https://example.com/x"),
        custom_url: Some(String::from("q")),
    };
    assert!(Mutation::create_paste(&mut store, &form, Some(&user)).unwrap().is_url);
    let replacement = PasteForm { content: String::from("now plain"), custom_url: None };
    let updated = Mutation::update_paste_content(&mut store, &replacement, None, "q").unwrap();
    assert!(!updated.is_url);
}

#[test]
fn update_of_unknown_id_is_not_found() {
    let mut store = PasteStore::new();
    let form = PasteForm { content: String::from("anything"), custom_url: None };
    let missing = Mutation::update_paste_content(&mut store, &form, None, "nope");
    assert!(matches!(missing, Err(ServiceError::NotFound)));
}
