use auth_core::auth::models::{AuthRequest, AuthResponse, TokenRefreshRequest};
use auth_core::environment::Config;
use auth_core::errors::GenericError;
use auth_core::http::{session_status, status_of, STATUS_BAD_REQUEST, STATUS_OK};
use auth_core::users::models::{Role, Tokens, User};

#[test]
fn status_values() {
    assert_eq!(STATUS_OK, 200);
    assert_eq!(STATUS_BAD_REQUEST, 400);
}

#[test]
fn success_is_answered_with_ok() {
    assert_eq!(status_of(&Ok::<u8, GenericError>(1)), 200);
}

#[test]
fn every_failure_is_answered_alike() {
    assert_eq!(status_of(&Err::<u8, GenericError>(GenericError::not_found())), 400);
    assert_eq!(status_of(&Err::<u8, GenericError>(GenericError::invalid_credentials())), 400);
    assert_eq!(status_of(&Err::<u8, GenericError>(GenericError::token_not_issued())), 400);
}

#[test]
fn session_probe_is_served_for_a_resolved_user_only() {
    let mut user = User::anonymous();
    assert_eq!(session_status(&user), 400);
    user.id = Some(0);
    assert_eq!(session_status(&user), 200);
}

#[test]
fn requests_and_responses_can_be_copied() {
    let request = AuthRequest { email: "e".to_string(), password: "p".to_string() };
    assert_eq!(request.clone(), request);
    let refresh = TokenRefreshRequest { refresh_token: "r".to_string() };
    assert_eq!(refresh.clone(), refresh);
    let response = AuthResponse {
        email: "e".to_string(),
        username: "u".to_string(),
        roles: vec![Role::Admin, Role::User],
        tokens: Tokens { access_token: Some("a".to_string()), refresh_token: Some("r".to_string()) },
    };
    assert_eq!(response.clone(), response);
    let config = Config::new("d".to_string(), "h".to_string(), "s".to_string());
    let copy = config.clone();
    assert_eq!(copy.db_name(), "d");
    assert_eq!(copy.host(), "h");
    assert_eq!(copy.jwt_secret(), "s");
}
