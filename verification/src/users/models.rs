//! The identity record and the values derived from it.

use vstd::prelude::*;

verus! {

/// The closed set of roles a user can hold.
#[derive(Clone, Copy, Debug, PartialEq, Eq, Structural)]
pub enum Role {
    User,
    Admin,
}

impl Role {
    /// The role's name as it is written into a token.
    pub open spec fn name(self) -> Seq<char> {
        match self {
            Role::User => "User"@,
            Role::Admin => "Admin"@,
        }
    }

    /// The role's name as an owned string.
    pub fn to_string(&self) -> (s: String)
        ensures
            s@ == self.name(),
    {
        match self {
            Role::User => "User".to_owned(),
            Role::Admin => "Admin".to_owned(),
        }
    }
}

/// The mathematical value of a [`Tokens`].
pub struct TokensModel {
    pub access_token: Option<Seq<char>>,
    pub refresh_token: Option<Seq<char>>,
}

/// The token pair that is live for a user. A new pair replaces the old one
/// as a whole.
#[derive(Debug, PartialEq, Eq)]
pub struct Tokens {
    pub access_token: Option<String>,
    pub refresh_token: Option<String>,
}

impl View for Tokens {
    type V = TokensModel;

    open spec fn view(&self) -> TokensModel {
        TokensModel {
            access_token: self.access_token.deep_view(),
            refresh_token: self.refresh_token.deep_view(),
        }
    }
}

impl Clone for Tokens {
    fn clone(&self) -> (res: Self)
        ensures
            res@ == self@,
    {
        Tokens {
            access_token: clone_optional_string(&self.access_token),
            refresh_token: clone_optional_string(&self.refresh_token),
        }
    }
}

/// A copy of an optional string with the same characters.
pub fn clone_optional_string(value: &Option<String>) -> (res: Option<String>)
    ensures
        res.deep_view() == value.deep_view(),
{
    match value {
        Some(s) => Some(s.clone()),
        None => None,
    }
}

/// A copy of an optional token pair with the same value.
pub fn clone_optional_tokens(value: &Option<Tokens>) -> (res: Option<Tokens>)
    ensures
        tokens_view(res) == tokens_view(*value),
{
    match value {
        Some(t) => Some(t.clone()),
        None => None,
    }
}

/// A copy of a role list with the same roles in the same order.
pub fn clone_roles(roles: &Vec<Role>) -> (res: Vec<Role>)
    ensures
        res@ == roles@,
{
    let mut res: Vec<Role> = Vec::new();
    let mut i: usize = 0;
    while i < roles.len()
        invariant
            i <= roles.len(),
            res@ == roles@.subrange(0, i as int),
        decreases roles.len() - i,
    {
        res.push(roles[i]);
        i = i + 1;
    }
    res
}

/// The mathematical value of an optional token pair.
pub open spec fn tokens_view(tokens: Option<Tokens>) -> Option<TokensModel> {
    match tokens {
        Some(t) => Some(t@),
        None => None,
    }
}

/// The mathematical value of a [`User`].
pub struct UserModel {
    pub id: Option<u128>,
    pub email: Seq<char>,
    pub username: Seq<char>,
    pub password: Seq<char>,
    pub roles: Seq<Role>,
    pub tokens: Option<TokensModel>,
    pub created_at: Option<i64>,
    pub updated_at: Option<i64>,
}

impl UserModel {
    /// The access token the record holds, if any.
    pub open spec fn access_token(self) -> Option<Seq<char>> {
        match self.tokens {
            Some(t) => t.access_token,
            None => None,
        }
    }

    /// The refresh token the record holds, if any.
    pub open spec fn refresh_token(self) -> Option<Seq<char>> {
        match self.tokens {
            Some(t) => t.refresh_token,
            None => None,
        }
    }

    /// The record with its token pair replaced and its update instant set.
    pub open spec fn with_tokens(self, tokens: TokensModel, at: i64) -> UserModel {
        UserModel { tokens: Some(tokens), updated_at: Some(at), ..self }
    }

    /// The value of the record that stands for "nobody".
    pub open spec fn anonymous() -> UserModel {
        UserModel {
            id: None,
            email: Seq::empty(),
            username: Seq::empty(),
            password: Seq::empty(),
            roles: Seq::empty(),
            tokens: None,
            created_at: None,
            updated_at: None,
        }
    }
}

/// An identity record. `id` is assigned by the store; `password` holds the
/// stored hash; timestamps are seconds since the Unix epoch.
#[derive(Debug, PartialEq, Eq)]
pub struct User {
    pub id: Option<u128>,
    pub email: String,
    pub username: String,
    pub password: String,
    pub roles: Vec<Role>,
    pub tokens: Option<Tokens>,
    pub created_at: Option<i64>,
    pub updated_at: Option<i64>,
}

impl View for User {
    type V = UserModel;

    open spec fn view(&self) -> UserModel {
        UserModel {
            id: self.id,
            email: self.email@,
            username: self.username@,
            password: self.password@,
            roles: self.roles@,
            tokens: tokens_view(self.tokens),
            created_at: self.created_at,
            updated_at: self.updated_at,
        }
    }
}

impl Clone for User {
    fn clone(&self) -> (res: Self)
        ensures
            res@ == self@,
    {
        User {
            id: self.id,
            email: self.email.clone(),
            username: self.username.clone(),
            password: self.password.clone(),
            roles: clone_roles(&self.roles),
            tokens: clone_optional_tokens(&self.tokens),
            created_at: self.created_at,
            updated_at: self.updated_at,
        }
    }
}

impl User {
    /// The record that stands for "nobody": no identifier, empty strings, no
    /// roles. A handler that finds no resolved identity works on this value.
    pub fn anonymous() -> (user: User)
        ensures
            user@ == UserModel::anonymous(),
    {
        User {
            id: None,
            email: String::new(),
            username: String::new(),
            password: String::new(),
            roles: Vec::new(),
            tokens: None,
            created_at: None,
            updated_at: None,
        }
    }

    /// Whether the record was resolved from the store, which is the case
    /// exactly when it carries an identifier.
    pub fn is_authenticated(&self) -> (b: bool)
        ensures
            b == self@.id.is_some(),
    {
        self.id.is_some()
    }
}

/// The mathematical value of a [`UserView`].
pub struct UserViewModel {
    pub email: Seq<char>,
    pub username: Seq<char>,
    pub roles: Seq<Role>,
    pub created_at: Option<i64>,
    pub updated_at: Option<i64>,
}

/// What of a user is shown to other users: no identifier, hash or tokens.
#[derive(Debug, PartialEq, Eq)]
pub struct UserView {
    pub email: String,
    pub username: String,
    pub roles: Vec<Role>,
    pub created_at: Option<i64>,
    pub updated_at: Option<i64>,
}

impl View for UserView {
    type V = UserViewModel;

    open spec fn view(&self) -> UserViewModel {
        UserViewModel {
            email: self.email@,
            username: self.username@,
            roles: self.roles@,
            created_at: self.created_at,
            updated_at: self.updated_at,
        }
    }
}

impl UserView {
    /// The public part of a user's mathematical value.
    pub open spec fn of(user: UserModel) -> UserViewModel {
        UserViewModel {
            email: user.email,
            username: user.username,
            roles: user.roles,
            created_at: user.created_at,
            updated_at: user.updated_at,
        }
    }

    /// The public part of a user record.
    pub fn from_user(user: &User) -> (view: UserView)
        ensures
            view@ == UserView::of(user@),
    {
        UserView {
            email: user.email.clone(),
            username: user.username.clone(),
            roles: clone_roles(&user.roles),
            created_at: user.created_at,
            updated_at: user.updated_at,
        }
    }
}

/// The mathematical value of a [`CreateUser`].
pub struct CreateUserModel {
    pub email: Seq<char>,
    pub username: Seq<char>,
    pub password: Seq<char>,
    pub roles: Seq<Role>,
}

/// A registration request. `password` is the plaintext secret.
#[derive(Debug, PartialEq, Eq)]
pub struct CreateUser {
    pub email: String,
    pub username: String,
    pub password: String,
    pub roles: Vec<Role>,
}

impl View for CreateUser {
    type V = CreateUserModel;

    open spec fn view(&self) -> CreateUserModel {
        CreateUserModel {
            email: self.email@,
            username: self.username@,
            password: self.password@,
            roles: self.roles@,
        }
    }
}

} // verus!
