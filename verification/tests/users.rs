use auth_core::environment::Config;
use auth_core::errors::{ErrorKind, GenericError, InvalidToken};
use auth_core::security::verify_password;
use auth_core::store::{Lookup, UserStore};
use auth_core::users::models::{
    clone_optional_string, clone_optional_tokens, clone_roles, CreateUser, Role, Tokens, User, UserView,
};
use auth_core::users::service::{new_user_record, UserService};

fn create(email: &str, username: &str, password: &str) -> CreateUser {
    CreateUser {
        email: email.to_string(),
        username: username.to_string(),
        password: password.to_string(),
        roles: vec![Role::User],
    }
}

#[test]
fn error_kinds_and_messages() {
    assert_eq!(GenericError::not_found(), GenericError { kind: ErrorKind::NotFound, message: "Not found" });
    assert_eq!(
        GenericError::invalid_credentials(),
        GenericError { kind: ErrorKind::Unauthorized, message: "Invalid credentials" }
    );
    assert_eq!(
        GenericError::invalid_token(),
        GenericError { kind: ErrorKind::Unauthorized, message: "Error validating token" }
    );
    assert_eq!(GenericError::forbidden(), GenericError { kind: ErrorKind::Forbidden, message: "Forbidden" });
    assert_eq!(
        GenericError::already_exists(),
        GenericError { kind: ErrorKind::Conflict, message: "User already exists" }
    );
    assert_eq!(
        GenericError::token_not_issued(),
        GenericError { kind: ErrorKind::Internal, message: "Token could not be issued" }
    );
    assert_eq!(
        GenericError::password_not_hashed(),
        GenericError { kind: ErrorKind::Internal, message: "Password could not be hashed" }
    );
}

#[test]
fn error_message_as_string() {
    assert_eq!(GenericError::not_found().to_string(), "Not found");
    assert_eq!(GenericError::invalid_credentials().to_string(), "Invalid credentials");
}

#[test]
fn not_found_and_unauthorized_stay_distinct() {
    assert_ne!(GenericError::not_found().kind, GenericError::invalid_credentials().kind);
    assert_ne!(InvalidToken::Expired, InvalidToken::Untrusted);
}

#[test]
fn config_keeps_its_settings() {
    let config = Config::new("users_db".to_string(), "0.0.0.0:80".to_string(), "key".to_string());
    assert_eq!(config.db_name(), "users_db");
    assert_eq!(config.host(), "0.0.0.0:80");
    assert_eq!(config.host, "0.0.0.0:80");
    assert_eq!(config.jwt_secret(), "key");
}

#[test]
fn anonymous_user_is_empty() {
    let user = User::anonymous();
    assert_eq!(user.id, None);
    assert_eq!(user.email, "");
    assert_eq!(user.username, "");
    assert_eq!(user.password, "");
    assert_eq!(user.roles, vec![]);
    assert_eq!(user.tokens, None);
    assert_eq!(user.created_at, None);
    assert_eq!(user.updated_at, None);
    assert!(!user.is_authenticated());
}

#[test]
fn copies_are_equal() {
    let tokens = Tokens { access_token: Some("a".to_string()), refresh_token: None };
    assert_eq!(tokens.clone(), tokens);
    assert_eq!(clone_optional_tokens(&Some(tokens.clone())), Some(tokens.clone()));
    assert_eq!(clone_optional_tokens(&None), None);
    assert_eq!(clone_optional_string(&Some("x".to_string())), Some("x".to_string()));
    assert_eq!(clone_optional_string(&None), None);
    assert_eq!(clone_roles(&vec![Role::Admin, Role::User]), vec![Role::Admin, Role::User]);
    let mut user = User::anonymous();
    user.id = Some(9);
    user.email = "e".to_string();
    user.roles = vec![Role::Admin];
    user.tokens = Some(tokens);
    user.created_at = Some(4);
    assert_eq!(user.clone(), user);
}

#[test]
fn new_record_has_no_identifier_and_no_tokens() {
    let user = new_user_record(create("a@x", "a", "pw"), "HASH".to_string(), 42);
    assert_eq!(
        user,
        User {
            id: None,
            email: "a@x".to_string(),
            username: "a".to_string(),
            password: "HASH".to_string(),
            roles: vec![Role::User],
            tokens: None,
            created_at: Some(42),
            updated_at: None,
        }
    );
}

#[test]
fn create_assigns_positions_as_identifiers() {
    let mut store = UserStore::new();
    let users = UserService::new();
    assert_eq!(users.create_at(&mut store, create("a@x", "a", "pw"), 1), Ok(0));
    assert_eq!(users.create_at(&mut store, create("b@x", "b", "pw"), 2), Ok(1));
    assert_eq!(users.create(&mut store, create("c@x", "c", "pw")), Ok(2));
    assert_eq!(store.len(), 3);
    assert_eq!(store.find(&Lookup::Username("b".to_string())).unwrap().id, Some(1));
}

#[test]
fn create_stores_a_hash_of_the_password() {
    let mut store = UserStore::new();
    UserService::new().create_at(&mut store, create("a@x", "a", "pw"), 7).unwrap();
    let stored = store.find(&Lookup::Email("a@x".to_string())).unwrap();
    assert_ne!(stored.password, "pw");
    assert!(verify_password("pw", &stored.password));
    assert_eq!(stored.created_at, Some(7));
    assert_eq!(stored.updated_at, None);
    assert_eq!(stored.tokens, None);
    assert_eq!(stored.roles, vec![Role::User]);
}

#[test]
fn duplicate_username_is_a_conflict() {
    let mut store = UserStore::new();
    let users = UserService::new();
    users.create_at(&mut store, create("a@x", "a", "pw"), 1).unwrap();
    let result = users.create_at(&mut store, create("other@x", "a", "pw"), 2);
    assert_eq!(result, Err(GenericError::already_exists()));
    assert_eq!(result.unwrap_err().kind, ErrorKind::Conflict);
    assert_eq!(store.len(), 1);
}

#[test]
fn duplicate_email_is_a_conflict() {
    let mut store = UserStore::new();
    let users = UserService::new();
    users.create_at(&mut store, create("a@x", "a", "pw"), 1).unwrap();
    let result = users.create_at(&mut store, create("a@x", "other", "pw"), 2);
    assert_eq!(result, Err(GenericError::already_exists()));
    assert_eq!(store.len(), 1);
    assert!(store.is_taken("a@x", "zzz"));
    assert!(store.is_taken("zzz", "a"));
    assert!(!store.is_taken("a", "a@x"));
}

#[test]
fn public_part_of_a_user() {
    let mut store = UserStore::new();
    let users = UserService::new();
    users.create_at(&mut store, create("a@x", "a", "pw"), 11).unwrap();
    let view = users.get_by_username(&store, "a").unwrap();
    assert_eq!(
        view,
        UserView {
            email: "a@x".to_string(),
            username: "a".to_string(),
            roles: vec![Role::User],
            created_at: Some(11),
            updated_at: None,
        }
    );
    assert_eq!(users.get_by_username(&store, "a@x"), Err(GenericError::not_found()));
}

#[test]
fn store_lookups() {
    let mut store = UserStore::new();
    assert_eq!(store.len(), 0);
    assert_eq!(store.find(&Lookup::Email("a@x".to_string())), None);
    let mut user = new_user_record(create("a@x", "a", "pw"), "HASH".to_string(), 1);
    user.tokens = Some(Tokens { access_token: Some("A".to_string()), refresh_token: Some("R".to_string()) });
    assert_eq!(store.insert(user.clone()), Ok(0));
    user.id = Some(0);
    assert_eq!(store.find(&Lookup::Email("a@x".to_string())), Some(user.clone()));
    assert_eq!(store.find(&Lookup::Username("a".to_string())), Some(user.clone()));
    assert_eq!(store.find(&Lookup::AccessToken("A".to_string())), Some(user.clone()));
    assert_eq!(store.find(&Lookup::RefreshToken("R".to_string())), Some(user.clone()));
    assert_eq!(store.find(&Lookup::AccessToken("R".to_string())), None);
    assert_eq!(store.find(&Lookup::RefreshToken("A".to_string())), None);
    assert_eq!(store.find(&Lookup::Email("a".to_string())), None);
    assert!(Lookup::Email("a@x".to_string()).matches(&user));
    assert!(!Lookup::Username("a@x".to_string()).matches(&user));
}

#[test]
fn lookup_returns_the_first_holder() {
    let mut store = UserStore::new();
    let mut first = new_user_record(create("a@x", "a", "pw"), "H".to_string(), 1);
    first.tokens = Some(Tokens { access_token: Some("SAME".to_string()), refresh_token: None });
    let mut second = new_user_record(create("b@x", "b", "pw"), "H".to_string(), 1);
    second.tokens = Some(Tokens { access_token: Some("SAME".to_string()), refresh_token: None });
    store.insert(first).unwrap();
    store.insert(second).unwrap();
    assert_eq!(store.find(&Lookup::AccessToken("SAME".to_string())).unwrap().username, "a");
    assert_eq!(store.find(&Lookup::RefreshToken("SAME".to_string())), None);
}

#[test]
fn persist_writes_only_the_pair_and_the_update_instant() {
    let mut store = UserStore::new();
    store.insert(new_user_record(create("a@x", "a", "pw"), "H".to_string(), 1)).unwrap();
    store.insert(new_user_record(create("b@x", "b", "pw"), "H".to_string(), 2)).unwrap();
    let untouched = store.find(&Lookup::Username("a".to_string()));
    let mut changed = User::anonymous();
    changed.id = Some(1);
    changed.email = "ignored".to_string();
    changed.username = "ignored".to_string();
    changed.tokens = Some(Tokens { access_token: Some("A".to_string()), refresh_token: Some("R".to_string()) });
    changed.updated_at = Some(99);
    store.persist_tokens(&changed);
    let stored = store.find(&Lookup::Username("b".to_string())).unwrap();
    assert_eq!(stored.email, "b@x");
    assert_eq!(stored.password, "H");
    assert_eq!(stored.created_at, Some(2));
    assert_eq!(stored.updated_at, Some(99));
    assert_eq!(stored.tokens, changed.tokens);
    assert_eq!(store.find(&Lookup::Username("a".to_string())), untouched);
    assert_eq!(store.find(&Lookup::Username("ignored".to_string())), None);
}

#[test]
fn persist_for_an_unknown_identifier_changes_nothing() {
    let mut store = UserStore::new();
    store.insert(new_user_record(create("a@x", "a", "pw"), "H".to_string(), 1)).unwrap();
    let before = store.find(&Lookup::Username("a".to_string()));
    let mut ghost = User::anonymous();
    ghost.tokens = Some(Tokens { access_token: Some("A".to_string()), refresh_token: None });
    store.persist_tokens(&ghost);
    ghost.id = Some(1);
    store.persist_tokens(&ghost);
    ghost.id = Some(u128::MAX);
    store.persist_tokens(&ghost);
    assert_eq!(store.find(&Lookup::Username("a".to_string())), before);
    assert_eq!(store.len(), 1);
}

#[test]
fn fresh_email_and_username_are_no_conflict() {
    let mut store = UserStore::new();
    let users = UserService::new();
    users.create_at(&mut store, create("a@x", "a", "pw"), 1).unwrap();
    assert_eq!(users.create_at(&mut store, create("b@x", "b", "pw"), 2), Ok(1));
    assert_eq!(users.create(&mut store, create("c@x", "c", "")), Ok(2));
    let stored = store.find(&Lookup::Username("c".to_string())).unwrap();
    assert!(stored.password.starts_with("$2b$06$"));
    assert!(stored.created_at.unwrap() >= 0);
}
