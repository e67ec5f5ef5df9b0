use katbin::account_store::AccountStore;
use katbin::mutation::Mutation;
use katbin::query::Query;
use katbin::schema::LoginPost;
use katbin::ServiceError;

fn login_form(email: &str, password: &str) -> LoginPost {
    LoginPost {
        email: String::from(email),
        password: String::from(password),
        remember_me: None,
    }
}

#[test]
fn register_then_authenticate() {
    let mut accounts = AccountStore::new();
    let form = login_form("a@example.com", "hunter2secret");
    let user = Mutation::register(&mut accounts, &form).unwrap();
    assert_eq!(user.email, "a@example.com");
    assert_ne!(user.hashed_password, "hunter2secret");
    assert_eq!(user.inserted_at, user.updated_at);
    let logged_in = Query::login(&accounts, &form).unwrap();
    assert_eq!(logged_in.id, user.id);
    assert_eq!(logged_in.email, "a@example.com");
}

#[test]
fn registered_users_get_distinct_ids() {
    let mut accounts = AccountStore::new();
    let first = Mutation::register(&mut accounts, &login_form("a@example.com", "pw-one")).unwrap();
    let second = Mutation::register(&mut accounts, &login_form("b@example.com", "pw-two")).unwrap();
    assert_ne!(first.id, second.id);
}

#[test]
fn duplicate_email_already_exists() {
    let mut accounts = AccountStore::new();
    Mutation::register(&mut accounts, &login_form("a@example.com", "pw-one")).unwrap();
    let again = Mutation::register(&mut accounts, &login_form("a@example.com", "pw-two"));
    assert!(matches!(again, Err(ServiceError::AlreadyExists)));
}

#[test]
fn duplicate_email_is_case_insensitive() {
    let mut accounts = AccountStore::new();
    Mutation::register(&mut accounts, &login_form("Mixed@Example.COM", "pw-one")).unwrap();
    let again = Mutation::register(&mut accounts, &login_form("mixed@example.com", "pw-two"));
    assert!(matches!(again, Err(ServiceError::AlreadyExists)));
}

#[test]
fn wrong_password_and_unknown_email_look_alike() {
    let mut accounts = AccountStore::new();
    Mutation::register(&mut accounts, &login_form("a@example.com", "right-password")).unwrap();
    let wrong_password = Query::login(&accounts, &login_form("a@example.com", "wrong-password"));
    let unknown_email = Query::login(&accounts, &login_form("b@example.com", "right-password"));
    assert!(matches!(wrong_password, Err(ServiceError::InvalidCredentials)));
    assert!(matches!(unknown_email, Err(ServiceError::InvalidCredentials)));
}

#[test]
fn login_matches_email_case_insensitively() {
    let mut accounts = AccountStore::new();
    Mutation::register(&mut accounts, &login_form("a@example.com", "pw")).unwrap();
    let logged_in = Query::login(&accounts, &login_form("A@EXAMPLE.COM", "pw")).unwrap();
    assert_eq!(logged_in.email, "a@example.com");
}

#[test]
fn find_by_email_ignores_case() {
    let mut accounts = AccountStore::new();
    Mutation::register(&mut accounts, &login_form("a@example.com", "pw")).unwrap();
    let found = Query::get_user_by_email(&accounts, "A@Example.Com").unwrap();
    assert_eq!(found.email, "a@example.com");
}

#[test]
fn find_unknown_email_is_not_found() {
    let accounts = AccountStore::new();
    let missing = Query::get_user_by_email(&accounts, "nobody@example.com");
    assert!(matches!(missing, Err(ServiceError::NotFound)));
}

#[test]
fn malformed_stored_hash_reads_as_invalid_credentials() {
    let accounts = AccountStore {
        users: vec![katbin::models::User {
            id: 1,
            email: String::from("a@example.com"),
            hashed_password: String::from("not a bcrypt hash"),
            inserted_at: 0,
            updated_at: 0,
        }],
        next_id: 2,
    };
    let attempt = Query::login(&accounts, &login_form("a@example.com", "pw"));
    assert!(matches!(attempt, Err(ServiceError::InvalidCredentials)));
}
