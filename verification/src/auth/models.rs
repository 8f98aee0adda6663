//! Requests, responses and the signed payload of a token.

use vstd::prelude::*;
use crate::users::models::{clone_roles, Role, Tokens, TokensModel};

verus! {

/// A login request. `password` is the plaintext secret.
#[derive(Debug, PartialEq, Eq)]
pub struct AuthRequest {
    pub email: String,
    pub password: String,
}

impl Clone for AuthRequest {
    fn clone(&self) -> (res: Self)
        ensures
            res.email@ == self.email@,
            res.password@ == self.password@,
    {
        AuthRequest { email: self.email.clone(), password: self.password.clone() }
    }
}

/// The mathematical value of an [`AuthResponse`].
pub struct AuthResponseModel {
    pub email: Seq<char>,
    pub username: Seq<char>,
    pub roles: Seq<Role>,
    pub tokens: TokensModel,
}

/// What a successful login or refresh hands back.
#[derive(Debug, PartialEq, Eq)]
pub struct AuthResponse {
    pub email: String,
    pub username: String,
    pub roles: Vec<Role>,
    pub tokens: Tokens,
}

impl View for AuthResponse {
    type V = AuthResponseModel;

    open spec fn view(&self) -> AuthResponseModel {
        AuthResponseModel {
            email: self.email@,
            username: self.username@,
            roles: self.roles@,
            tokens: self.tokens@,
        }
    }
}

impl Clone for AuthResponse {
    fn clone(&self) -> (res: Self)
        ensures
            res@ == self@,
    {
        AuthResponse {
            email: self.email.clone(),
            username: self.username.clone(),
            roles: clone_roles(&self.roles),
            tokens: self.tokens.clone(),
        }
    }
}

/// The mathematical value of a [`Claims`].
pub struct ClaimsModel {
    pub sub: Seq<char>,
    pub role: Seq<char>,
    pub exp: usize,
}

/// The payload signed inside a token: the subject's username, the role
/// names joined by commas, and the expiry instant in seconds since the Unix
/// epoch.
#[derive(Debug, PartialEq, Eq)]
pub struct Claims {
    pub sub: String,
    pub role: String,
    pub exp: usize,
}

impl View for Claims {
    type V = ClaimsModel;

    open spec fn view(&self) -> ClaimsModel {
        ClaimsModel { sub: self.sub@, role: self.role@, exp: self.exp }
    }
}

impl Clone for Claims {
    fn clone(&self) -> (res: Self)
        ensures
            res@ == self@,
    {
        Claims { sub: self.sub.clone(), role: self.role.clone(), exp: self.exp }
    }
}

/// A refresh request carrying the refresh token as the client holds it.
#[derive(Debug, PartialEq, Eq)]
pub struct TokenRefreshRequest {
    pub refresh_token: String,
}

impl Clone for TokenRefreshRequest {
    fn clone(&self) -> (res: Self)
        ensures
            res.refresh_token@ == self.refresh_token@,
    {
        TokenRefreshRequest { refresh_token: self.refresh_token.clone() }
    }
}

} // verus!
