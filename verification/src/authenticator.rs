//! The request authenticator: from the token a request presents to the
//! identity and the grants it runs with.
//!
//! A request ends in one of three states. Without a token it is anonymous.
//! With a token that the codec refuses it is rejected. With a token that
//! the codec accepts it is authenticated as the user that holds the token
//! in the store, or anonymous where no user holds it any longer.

use vstd::prelude::*;
use vstd::string::*;
use crate::auth::service::{
    holds_own_tokens,
    tokens_signed,
    user_result_view,
    validate_outcome,
    AuthService,
};
use crate::errors::GenericError;
use crate::grants::{derive_grants, grants_of};
use crate::security::{decode_at, decode_outcome, jwt_verified, utc_now};
use crate::store::{first_match, found, lemma_first_match, LookupKey, UserStore};
use crate::users::models::{User, UserModel};

verus! {

/// The name of the cookie that carries a token.
pub const TOKEN_COOKIE: &'static str = "token";

/// The number of characters of the scheme prefix `Bearer ` that is
/// stripped from an Authorization header.
pub const BEARER_PREFIX_LEN: usize = 7;

/// The token in an Authorization header: what follows the first
/// [`BEARER_PREFIX_LEN`] characters, whatever they are. A shorter header
/// holds no token.
pub open spec fn bearer_token(header: Seq<char>) -> Option<Seq<char>> {
    if header.len() >= BEARER_PREFIX_LEN {
        Some(header.skip(BEARER_PREFIX_LEN as int))
    } else {
        None
    }
}

/// The token a request presents: the cookie where there is one, otherwise
/// the token in the Authorization header.
pub open spec fn presented_token(
    cookie: Option<Seq<char>>,
    authorization: Option<Seq<char>>,
) -> Option<Seq<char>> {
    match cookie {
        Some(token) => Some(token),
        None => match authorization {
            Some(header) => bearer_token(header),
            None => None,
        },
    }
}

/// The characters of an optional string slice.
pub open spec fn text(value: Option<&str>) -> Option<Seq<char>> {
    match value {
        Some(s) => Some(s@),
        None => None,
    }
}

/// Takes the token out of an Authorization header.
pub fn strip_bearer(header: &str) -> (token: Option<String>)
    ensures
        token.deep_view() == bearer_token(header@),
{
    let n: usize = header.unicode_len();
    if n >= BEARER_PREFIX_LEN {
        let rest = header.substring_char(BEARER_PREFIX_LEN, n);
        assert(rest@ == header@.skip(BEARER_PREFIX_LEN as int));
        Some(rest.to_owned())
    } else {
        None
    }
}

/// Takes the token out of a request's cookie and Authorization header.
pub fn extract_token(cookie: Option<&str>, authorization: Option<&str>) -> (token: Option<String>)
    ensures
        token.deep_view() == presented_token(text(cookie), text(authorization)),
{
    match cookie {
        Some(value) => Some(value.to_owned()),
        None => match authorization {
            Some(header) => strip_bearer(header),
            None => None,
        },
    }
}

/// The mathematical value of an [`Identity`].
pub struct IdentityModel {
    pub user: Option<UserModel>,
    pub grants: Seq<Seq<char>>,
}

impl IdentityModel {
    /// Nobody, with no grants.
    pub open spec fn anonymous() -> IdentityModel {
        IdentityModel { user: None, grants: Seq::empty() }
    }

    /// A resolved user with the grants derived from the user's roles.
    pub open spec fn of(user: UserModel) -> IdentityModel {
        IdentityModel { user: Some(user), grants: grants_of(user.roles) }
    }

    /// The identity a request runs with once the revocation check is
    /// answered: the user it found, or nobody where it found none.
    pub open spec fn resolved(validated: Result<UserModel, GenericError>) -> IdentityModel {
        match validated {
            Ok(user) => IdentityModel::of(user),
            Err(_) => IdentityModel::anonymous(),
        }
    }
}

/// Who a request runs as, and with which grants. An anonymous request has
/// no user and no grants.
#[derive(Debug, PartialEq, Eq)]
pub struct Identity {
    pub user: Option<User>,
    pub grants: Vec<String>,
}

impl View for Identity {
    type V = IdentityModel;

    open spec fn view(&self) -> IdentityModel {
        IdentityModel {
            user: match self.user {
                Some(u) => Some(u@),
                None => None,
            },
            grants: self.grants.deep_view(),
        }
    }
}

impl Identity {
    /// The identity of a request that presents no live token.
    pub fn anonymous() -> (identity: Identity)
        ensures
            identity@ == IdentityModel::anonymous(),
    {
        let identity = Identity { user: None, grants: Vec::new() };
        assert(identity.grants.deep_view() =~= Seq::<Seq<char>>::empty());
        identity
    }

    /// The identity of a resolved user.
    pub fn of(user: User) -> (identity: Identity)
        ensures
            identity@ == IdentityModel::of(user@),
    {
        let grants = derive_grants(&user.roles);
        Identity { user: Some(user), grants }
    }

    /// The user a handler works on: the resolved user, or the record that
    /// stands for nobody.
    pub fn current_user(&self) -> (user: User)
        ensures
            user@ == match self@.user {
                Some(u) => u,
                None => UserModel::anonymous(),
            },
    {
        match &self.user {
            Some(u) => u.clone(),
            None => User::anonymous(),
        }
    }
}

/// The mathematical value of an authenticator's result.
pub open spec fn identity_view(result: Result<Identity, GenericError>) -> Result<
    IdentityModel,
    GenericError,
> {
    match result {
        Ok(identity) => Ok(identity@),
        Err(e) => Err(e),
    }
}

/// What the codec's answer at `now` means for a request that presents the
/// given token: no token needs no lookup, an accepted token is looked up,
/// a refused one rejects the request.
pub open spec fn screening_outcome(token: Option<Seq<char>>, secret: Seq<char>, now: i64) -> Result<
    Option<Seq<char>>,
    GenericError,
> {
    match token {
        None => Ok(None),
        Some(t) => if decode_outcome(jwt_verified(t, secret), now) is Ok {
            Ok(Some(t))
        } else {
            Err(GenericError::spec_invalid_token())
        },
    }
}

/// The state a request ends in at `now`.
pub open spec fn authentication_outcome(
    users: Seq<UserModel>,
    cookie: Option<Seq<char>>,
    authorization: Option<Seq<char>>,
    secret: Seq<char>,
    now: i64,
) -> Result<IdentityModel, GenericError> {
    match screening_outcome(presented_token(cookie, authorization), secret, now) {
        Err(e) => Err(e),
        Ok(None) => Ok(IdentityModel::anonymous()),
        Ok(Some(token)) => Ok(IdentityModel::resolved(validate_outcome(users, token))),
    }
}

/// The mathematical value of a screening's result.
pub open spec fn screening_view(result: Result<Option<String>, GenericError>) -> Result<
    Option<Seq<char>>,
    GenericError,
> {
    match result {
        Ok(token) => Ok(token.deep_view()),
        Err(e) => Err(e),
    }
}

/// Hands the presented token to the codec at `now`. `Ok(None)`: the
/// request is anonymous. `Ok(Some(token))`: the token is well signed and
/// not expired, and the store is to be asked who holds it. `Err`: the
/// request is rejected.
pub fn screen_token(token: Option<String>, secret: &str, now: i64) -> (result: Result<
    Option<String>,
    GenericError,
>)
    ensures
        screening_view(result) == screening_outcome(token.deep_view(), secret@, now),
{
    match token {
        None => Ok(None),
        Some(t) => match decode_at(t.as_str(), secret, now) {
            Ok(_) => Ok(Some(t)),
            Err(_) => Err(GenericError::invalid_token()),
        },
    }
}

/// Turns the answer of the revocation check into the request's identity. A
/// token that no user holds any longer downgrades the request to
/// anonymous; it does not reject it.
pub fn resolve_identity(validated: Result<User, GenericError>) -> (identity: Identity)
    ensures
        identity@ == IdentityModel::resolved(user_result_view(validated)),
{
    match validated {
        Ok(user) => Identity::of(user),
        Err(_) => Identity::anonymous(),
    }
}

/// Authenticates a request at `now` from its token cookie and its
/// Authorization header.
pub fn jwt_middleware_at(
    cookie: Option<&str>,
    authorization: Option<&str>,
    service: &AuthService,
    store: &UserStore,
    now: i64,
) -> (result: Result<Identity, GenericError>)
    ensures
        identity_view(result) == authentication_outcome(
            store@,
            text(cookie),
            text(authorization),
            service.secret(),
            now,
        ),
{
    let presented = extract_token(cookie, authorization);
    match screen_token(presented, service.signing_secret(), now) {
        Err(e) => Err(e),
        Ok(None) => Ok(Identity::anonymous()),
        Ok(Some(token)) => Ok(resolve_identity(service.validate(store, token.as_str()))),
    }
}

/// Authenticates a request at the current instant of the system clock.
pub fn jwt_middleware(
    cookie: Option<&str>,
    authorization: Option<&str>,
    service: &AuthService,
    store: &UserStore,
) -> (result: Result<Identity, GenericError>)
    ensures
        exists|now: i64|
            0 <= now && #[trigger]
            authentication_outcome(
                store@,
                text(cookie),
                text(authorization),
                service.secret(),
                now,
            ) == identity_view(result),
{
    let now: i64 = utc_now();
    jwt_middleware_at(cookie, authorization, service, store, now)
}

/// A request without a cookie whose Authorization header is missing or
/// shorter than the scheme prefix is anonymous, at every instant and
/// whatever the store holds.
pub proof fn lemma_missing_or_short_header_is_anonymous(
    users: Seq<UserModel>,
    authorization: Option<Seq<char>>,
    secret: Seq<char>,
    now: i64,
)
    requires
        authorization matches Some(header) ==> header.len() < BEARER_PREFIX_LEN,
    ensures
        authentication_outcome(users, None, authorization, secret, now) == Ok::<
            IdentityModel,
            GenericError,
        >(IdentityModel::anonymous()),
{
}

/// A request is rejected only when it presents a token that the codec
/// refuses; in every other case it gets an identity.
pub proof fn lemma_rejected_only_on_refused_token(
    users: Seq<UserModel>,
    cookie: Option<Seq<char>>,
    authorization: Option<Seq<char>>,
    secret: Seq<char>,
    now: i64,
)
    ensures
        authentication_outcome(users, cookie, authorization, secret, now) is Err <==> (
        presented_token(cookie, authorization) matches Some(token) && decode_outcome(
            jwt_verified(token, secret),
            now,
        ) is Err),
        authentication_outcome(users, cookie, authorization, secret, now) matches Err(e) ==> e
            == GenericError::spec_invalid_token(),
{
}

/// A request is authenticated exactly when it presents a token that the
/// codec accepts and that a user holds as access token; it then runs as the
/// first such user, with the grants of that user's roles.
pub proof fn lemma_authenticated_request(
    users: Seq<UserModel>,
    cookie: Option<Seq<char>>,
    authorization: Option<Seq<char>>,
    secret: Seq<char>,
    now: i64,
)
    ensures
        match authentication_outcome(users, cookie, authorization, secret, now) {
            Ok(identity) => match identity.user {
                Some(user) => {
                    &&& presented_token(cookie, authorization) matches Some(token)
                    &&& decode_outcome(jwt_verified(token, secret), now) is Ok
                    &&& found(users, LookupKey::AccessToken(token)) == Some(user)
                    &&& identity.grants == grants_of(user.roles)
                },
                None => identity.grants.len() == 0,
            },
            Err(_) => true,
        },
{
}

/// In a store whose tokens were all signed for their holders, the user a
/// request is authenticated as is the subject of the token it presents.
pub proof fn lemma_identity_matches_subject(
    users: Seq<UserModel>,
    cookie: Option<Seq<char>>,
    authorization: Option<Seq<char>>,
    secret: Seq<char>,
    now: i64,
)
    requires
        tokens_signed(users, secret),
        authentication_outcome(users, cookie, authorization, secret, now) matches Ok(identity)
            && identity.user is Some,
    ensures
        ({
            let identity = authentication_outcome(users, cookie, authorization, secret, now)->Ok_0;
            let token = presented_token(cookie, authorization).unwrap();
            jwt_verified(token, secret) matches Some(claims) && claims.sub
                == identity.user.unwrap().username
        }),
{
    let token = presented_token(cookie, authorization).unwrap();
    lemma_first_match(users, LookupKey::AccessToken(token));
    let i = first_match(users, LookupKey::AccessToken(token)).unwrap();
    assert(holds_own_tokens(users[i], secret));
}

} // verus!
