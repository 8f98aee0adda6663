//! Login, refresh and the revocation check, over the identity store.
//!
//! Every operation is one read of the store, a decision, and at most one
//! write. The decisions are functions of their own
//! ([`check_credentials`], [`require_found`],
//! [`AuthService::issue_token_pair`]), so that a caller whose store lives
//! elsewhere can make the read and the write itself.

use vstd::prelude::*;
use crate::auth::models::{AuthRequest, AuthResponse, AuthResponseModel};
use crate::environment::Config;
use crate::errors::GenericError;
use crate::security::{
    claims_of,
    decode_outcome,
    expiry_always_fits,
    expiry_at,
    jwt_for_user_at,
    jwt_verified,
    lemma_issued_token_decodes,
    password_matches,
    token_for,
    token_names,
    utc_now,
    verify_password,
    TOKEN_VALIDITY_SECS,
};
use crate::store::{
    first_match,
    found,
    lemma_first_match,
    persisted,
    records_wf,
    stored_at,
    user_view,
    Lookup,
    LookupKey,
    UserStore,
};
use crate::users::models::{clone_roles, Tokens, TokensModel, User, UserModel};

verus! {

/// The pair in which both tokens are the given one.
pub open spec fn token_pair(token: Seq<char>) -> TokensModel {
    TokensModel { access_token: Some(token), refresh_token: Some(token) }
}

/// A user record after a token was issued for it at `now`: the pair is
/// replaced as a whole and the update instant is `now`.
pub open spec fn issued_user(user: UserModel, token: Seq<char>, now: i64) -> UserModel {
    user.with_tokens(token_pair(token), now)
}

/// What is handed back for a user whose new token is the given one.
pub open spec fn response_for(user: UserModel, token: Seq<char>) -> AuthResponseModel {
    AuthResponseModel {
        email: user.email,
        username: user.username,
        roles: user.roles,
        tokens: token_pair(token),
    }
}

/// Whether a token is the one issued for a user at `now`: it verifies under
/// the secret to the user's claims with the expiry instant of `now`.
pub open spec fn issued_for(token: Seq<char>, secret: Seq<char>, user: UserModel, now: i64) -> bool {
    expiry_at(now) matches Some(exp) && jwt_verified(token, secret) == Some(claims_of(user, exp))
}

/// Whether the access token of a response is accepted by the codec at the
/// instant `at` and names the response's user as its subject.
pub open spec fn access_token_accepted(
    response: AuthResponseModel,
    secret: Seq<char>,
    at: i64,
) -> bool {
    response.tokens.access_token matches Some(token) && decode_outcome(
        jwt_verified(token, secret),
        at,
    ) matches Ok(claims) && claims.sub == response.username
}

/// Whether the access token of a response verifies under the secret and
/// names the response's user as its subject.
pub open spec fn access_token_names_user(response: AuthResponseModel, secret: Seq<char>) -> bool {
    response.tokens.access_token matches Some(token) && token_names(
        token,
        secret,
        response.username,
    )
}

/// The mathematical value of an operation's result.
pub open spec fn response_view(result: Result<AuthResponse, GenericError>) -> Result<
    AuthResponseModel,
    GenericError,
> {
    match result {
        Ok(response) => Ok(response@),
        Err(e) => Err(e),
    }
}

/// The mathematical value of a lookup's result.
pub open spec fn user_result_view(result: Result<User, GenericError>) -> Result<
    UserModel,
    GenericError,
> {
    match result {
        Ok(user) => Ok(user@),
        Err(e) => Err(e),
    }
}

/// A lookup that found nothing is a `NotFound` failure.
pub open spec fn found_outcome(found: Option<UserModel>) -> Result<UserModel, GenericError> {
    match found {
        Some(user) => Ok(user),
        None => Err(GenericError::spec_not_found()),
    }
}

/// The decision of a login once the lookup by email is answered: `NotFound`
/// without a user, `Unauthorized` where the password does not match the
/// user's stored hash, the user otherwise.
pub open spec fn credentials_outcome(found: Option<UserModel>, password: Seq<char>) -> Result<
    UserModel,
    GenericError,
> {
    match found {
        None => Err(GenericError::spec_not_found()),
        Some(user) => if password_matches(password, user.password) {
            Ok(user)
        } else {
            Err(GenericError::spec_invalid_credentials())
        },
    }
}

/// Whether a stored user has the email and the password matches the hash
/// of the first such user.
pub open spec fn credentials_hold(
    users: Seq<UserModel>,
    email: Seq<char>,
    password: Seq<char>,
) -> bool {
    found(users, LookupKey::Email(email)) matches Some(user) && password_matches(
        password,
        user.password,
    )
}

/// The records and the result after a token pair was issued at `now` for a
/// user and written to the store. Where no token can be issued nothing is
/// written.
pub open spec fn issue_outcome(
    users: Seq<UserModel>,
    user: UserModel,
    secret: Seq<char>,
    now: i64,
) -> (Seq<UserModel>, Result<AuthResponseModel, GenericError>) {
    match token_for(user, secret, now) {
        Some(token) => (
            persisted(users, issued_user(user, token, now)),
            Ok(response_for(user, token)),
        ),
        None => (users, Err(GenericError::spec_token_not_issued())),
    }
}

/// The records and the result after a login at `now`.
pub open spec fn login_outcome(
    users: Seq<UserModel>,
    email: Seq<char>,
    password: Seq<char>,
    secret: Seq<char>,
    now: i64,
) -> (Seq<UserModel>, Result<AuthResponseModel, GenericError>) {
    match credentials_outcome(found(users, LookupKey::Email(email)), password) {
        Ok(user) => issue_outcome(users, user, secret, now),
        Err(e) => (users, Err(e)),
    }
}

/// The records and the result after a refresh at `now`. The refresh token
/// is only compared with the stored ones; it is not decoded.
pub open spec fn refresh_outcome(
    users: Seq<UserModel>,
    token: Seq<char>,
    secret: Seq<char>,
    now: i64,
) -> (Seq<UserModel>, Result<AuthResponseModel, GenericError>) {
    match found(users, LookupKey::RefreshToken(token)) {
        Some(user) => issue_outcome(users, user, secret, now),
        None => (users, Err(GenericError::spec_not_found())),
    }
}

/// The result of the revocation check: the user that holds the access
/// token now, or `NotFound`.
pub open spec fn validate_outcome(users: Seq<UserModel>, token: Seq<char>) -> Result<
    UserModel,
    GenericError,
> {
    found_outcome(found(users, LookupKey::AccessToken(token)))
}

/// Whether every stored token was signed for the user that holds it: it
/// verifies under the secret to claims whose subject is the holder's
/// username.
pub open spec fn tokens_signed(users: Seq<UserModel>, secret: Seq<char>) -> bool {
    forall|i: int| 0 <= i < users.len() ==> holds_own_tokens(#[trigger] users[i], secret)
}

/// Whether the tokens a record holds were signed for its user.
pub open spec fn holds_own_tokens(user: UserModel, secret: Seq<char>) -> bool {
    &&& user.access_token() matches Some(token) ==> token_names(token, secret, user.username)
    &&& user.refresh_token() matches Some(token) ==> token_names(token, secret, user.username)
}

/// Whether a user's identifier, where it names a stored record, names one
/// with the user's username.
pub open spec fn names_own_record(users: Seq<UserModel>, user: UserModel) -> bool {
    user.id matches Some(id) ==> (id < users.len() ==> users[id as int].username == user.username)
}

/// Whether a user record stands in the store under its own identifier.
pub open spec fn is_stored(users: Seq<UserModel>, user: UserModel) -> bool {
    user.id matches Some(id) && id < users.len() && users[id as int] == user
}

/// Whether, in the records `after`, the session of a user was replaced by
/// the one that the token `fresh` opened at `now`: the revocation check
/// finds the user by `fresh`, and finds nobody by the access token the
/// user held before, where that is another token.
pub open spec fn session_replaced(
    after: Seq<UserModel>,
    user: UserModel,
    fresh: Seq<char>,
    now: i64,
) -> bool {
    &&& validate_outcome(after, fresh) == Ok::<UserModel, GenericError>(
        issued_user(user, fresh, now),
    )
    &&& user.access_token() matches Some(previous) ==> (previous != fresh ==> validate_outcome(
        after,
        previous,
    ) == Err::<UserModel, GenericError>(GenericError::spec_not_found()))
}

/// Issuing a token pair for a stored user replaces the user's session,
/// in a store whose tokens were all signed for their holders, before and
/// after.
pub proof fn lemma_issue_replaces_session(
    users: Seq<UserModel>,
    user: UserModel,
    secret: Seq<char>,
    now: i64,
)
    requires
        records_wf(users),
        tokens_signed(users, secret),
        is_stored(users, user),
        token_for(user, secret, now) is Some,
        tokens_signed(issue_outcome(users, user, secret, now).0, secret),
    ensures
        session_replaced(
            issue_outcome(users, user, secret, now).0,
            user,
            token_for(user, secret, now).unwrap(),
            now,
        ),
{
    let at = user.id.unwrap() as int;
    let after = issue_outcome(users, user, secret, now).0;
    let fresh = token_for(user, secret, now).unwrap();
    assert(after == users.update(at, issued_user(user, fresh, now)));
    assert(after[at] == issued_user(user, fresh, now));
    assert(holds_own_tokens(after[at], secret));
    assert(holds_own_tokens(users[at], secret));
    assert forall|j: int| 0 <= j < after.len() && j != at implies after[j].access_token() != Some(
        fresh,
    ) && (user.access_token() is Some ==> after[j].access_token() != user.access_token()) by {
        assert(after[j] == users[j]);
        assert(holds_own_tokens(users[j], secret));
    }
    lemma_first_match(after, LookupKey::AccessToken(fresh));
    if let Some(previous) = user.access_token() {
        lemma_first_match(after, LookupKey::AccessToken(previous));
    }
}

/// A record found in a well-formed store stands there under its own
/// identifier.
pub proof fn lemma_found_is_stored(users: Seq<UserModel>, key: LookupKey)
    requires
        records_wf(users),
    ensures
        found(users, key) matches Some(user) ==> {
            &&& key.matches(user)
            &&& names_own_record(users, user)
            &&& is_stored(users, user)
        },
{
    lemma_first_match(users, key);
    if let Some(i) = first_match(users, key) {
        assert(stored_at(users[i], i));
    }
}

/// Turns the answer of a lookup into a result: `NotFound` without a user.
pub fn require_found(found: Option<User>) -> (result: Result<User, GenericError>)
    ensures
        user_result_view(result) == found_outcome(user_view(found)),
{
    match found {
        Some(user) => Ok(user),
        None => Err(GenericError::not_found()),
    }
}

/// Decides a login once the lookup by email is answered.
pub fn check_credentials(found: Option<User>, password: &str) -> (result: Result<
    User,
    GenericError,
>)
    ensures
        user_result_view(result) == credentials_outcome(user_view(found), password@),
{
    match found {
        None => Err(GenericError::not_found()),
        Some(user) => {
            if verify_password(password, user.password.as_str()) {
                Ok(user)
            } else {
                Err(GenericError::invalid_credentials())
            }
        },
    }
}

/// The service that issues, refreshes and validates token pairs. It holds
/// the signing secret; the store is handed to each operation.
pub struct AuthService {
    secret: String,
}

impl AuthService {
    /// The secret that tokens are signed with.
    pub closed spec fn secret(&self) -> Seq<char> {
        self.secret@
    }

    /// A service that signs with the configured secret.
    pub fn new(config: &Config) -> (service: AuthService)
        ensures
            service.secret() == config.spec_jwt_secret(),
    {
        AuthService { secret: config.jwt_secret().to_owned() }
    }

    /// The secret that tokens are signed with.
    pub fn signing_secret(&self) -> (secret: &str)
        ensures
            secret@ == self.secret(),
    {
        self.secret.as_str()
    }

    /// Issues a fresh token pair for a user at `now`, without touching a
    /// store: the user comes back with the pair and the update instant
    /// set, beside the response. Both tokens of the pair are the token
    /// issued for the user at `now`. This succeeds whatever the user holds;
    /// it fails only where the expiry instant cannot be represented.
    pub fn issue_token_pair(&self, user: User, now: i64) -> (result: Result<
        (User, AuthResponse),
        GenericError,
    >)
        ensures
            match token_for(user@, self.secret(), now) {
                Some(token) => result matches Ok((updated, response)) && updated@ == issued_user(
                    user@,
                    token,
                    now,
                ) && response@ == response_for(user@, token) && issued_for(
                    token,
                    self.secret(),
                    user@,
                    now,
                ),
                None => result matches Err(e) && e == GenericError::spec_token_not_issued(),
            },
            result is Ok <==> expiry_at(now) is Some,
    {
        let token = match jwt_for_user_at(&user, self.secret.as_str(), now) {
            Some(token) => token,
            None => { return Err(GenericError::token_not_issued()); },
        };
        let response = AuthResponse {
            email: user.email.clone(),
            username: user.username.clone(),
            roles: clone_roles(&user.roles),
            tokens: Tokens {
                access_token: Some(token.clone()),
                refresh_token: Some(token.clone()),
            },
        };
        let updated = User {
            id: user.id,
            email: user.email,
            username: user.username,
            password: user.password,
            roles: user.roles,
            tokens: Some(
                Tokens { access_token: Some(token.clone()), refresh_token: Some(token) },
            ),
            created_at: user.created_at,
            updated_at: Some(now),
        };
        Ok((updated, response))
    }

    /// Issues a fresh token pair for a user at `now` and writes it to the
    /// record with the user's identifier, replacing the pair that was live.
    /// This succeeds exactly when the expiry instant can be represented.
    pub fn generate_tokens_and_update_at(&self, store: &mut UserStore, user: User, now: i64) -> (result:
        Result<AuthResponse, GenericError>)
        requires
            old(store).wf(),
        ensures
            final(store).wf(),
            (final(store)@, response_view(result)) == issue_outcome(
                old(store)@,
                user@,
                self.secret(),
                now,
            ),
            result is Ok <==> expiry_at(now) is Some,
            result matches Ok(response) ==> response@.tokens.access_token matches Some(token)
                && issued_for(token, self.secret(), user@, now),
            tokens_signed(old(store)@, self.secret()) && names_own_record(old(store)@, user@)
                ==> tokens_signed(final(store)@, self.secret()),
            tokens_signed(old(store)@, self.secret()) && is_stored(old(store)@, user@) ==> (
            result matches Ok(response) ==> session_replaced(
                final(store)@,
                user@,
                response@.tokens.access_token.unwrap(),
                now,
            )),
    {
        let ghost user_model = user@;
        match self.issue_token_pair(user, now) {
            Ok((updated, response)) => {
                store.persist_tokens(&updated);
                proof {
                    if tokens_signed(old(store)@, self.secret()) && is_stored(
                        old(store)@,
                        user_model,
                    ) {
                        lemma_issue_replaces_session(old(store)@, user_model, self.secret(), now);
                    }
                }
                Ok(response)
            },
            Err(e) => Err(e),
        }
    }

    /// As [`AuthService::generate_tokens_and_update_at`], at the current
    /// instant of the system clock, which is not before the epoch. The
    /// pair is owed whatever the user holds; the only failure left is an
    /// expiry instant that does not fit the claim, which cannot
    /// happen where `usize` has 64 bits.
    pub fn generate_tokens_and_update(&self, store: &mut UserStore, user: User) -> (result: Result<
        AuthResponse,
        GenericError,
    >)
        requires
            old(store).wf(),
        ensures
            final(store).wf(),
            exists|now: i64|
                0 <= now && #[trigger]
                issue_outcome(old(store)@, user@, self.secret(), now) == (
                    final(store)@,
                    response_view(result),
                ),
            expiry_always_fits() ==> result is Ok,
            result matches Ok(response) ==> access_token_names_user(response@, self.secret()),
            result matches Err(e) ==> e == GenericError::spec_token_not_issued() && final(store)@
                == old(store)@,
            tokens_signed(old(store)@, self.secret()) && names_own_record(old(store)@, user@)
                ==> tokens_signed(final(store)@, self.secret()),
    {
        let now: i64 = utc_now();
        self.generate_tokens_and_update_at(store, user, now)
    }

    /// Logs a user in at `now`: the user is looked up by email and the
    /// password is checked against the stored hash; on success a fresh
    /// token pair is issued and stored. The login succeeds exactly when a
    /// stored user has the email, the password matches the user's hash and
    /// the expiry instant can be represented; the access token is then
    /// accepted by the codec up to its expiry and names the user. On any
    /// failure the store is unchanged and no token is issued.
    pub fn login_at(&self, store: &mut UserStore, request: AuthRequest, now: i64) -> (result: Result<
        AuthResponse,
        GenericError,
    >)
        requires
            old(store).wf(),
        ensures
            final(store).wf(),
            (final(store)@, response_view(result)) == login_outcome(
                old(store)@,
                request.email@,
                request.password@,
                self.secret(),
                now,
            ),
            result is Ok <==> credentials_hold(old(store)@, request.email@, request.password@)
                && expiry_at(now) is Some,
            credentials_hold(old(store)@, request.email@, request.password@) && expiry_at(now)
                is Some ==> (result matches Ok(response) && access_token_accepted(
                response@,
                self.secret(),
                now,
            )),
            result matches Ok(response) ==> forall|at: i64|
                at <= now + TOKEN_VALIDITY_SECS ==> #[trigger] access_token_accepted(
                    response@,
                    self.secret(),
                    at,
                ),
            tokens_signed(old(store)@, self.secret()) ==> tokens_signed(
                final(store)@,
                self.secret(),
            ),
            tokens_signed(old(store)@, self.secret()) ==> (result matches Ok(response)
                ==> session_replaced(
                final(store)@,
                found(old(store)@, LookupKey::Email(request.email@)).unwrap(),
                response@.tokens.access_token.unwrap(),
                now,
            )),
    {
        let key = Lookup::Email(request.email);
        let found = store.find(&key);
        proof {
            lemma_found_is_stored(store@, key@);
        }
        match check_credentials(found, request.password.as_str()) {
            Ok(user) => {
                let ghost user_model = user@;
                let result = self.generate_tokens_and_update_at(store, user, now);
                proof {
                    if result is Ok {
                        let response = result->Ok_0;
                        let token = response@.tokens.access_token.unwrap();
                        assert forall|at: i64| at <= now + TOKEN_VALIDITY_SECS implies
                            #[trigger] access_token_accepted(response@, self.secret(), at) by {
                            lemma_issued_token_decodes(user_model, token, self.secret(), now, at);
                        }
                    }
                }
                result
            },
            Err(e) => Err(e),
        }
    }

    /// As [`AuthService::login_at`], at the current instant of the system
    /// clock, which is not before the epoch. With the email of a stored
    /// user and a matching password a token pair is owed; the only failure
    /// left is an expiry instant that does not fit the claim, which cannot
    /// happen where `usize` has 64 bits.
    pub fn login(&self, store: &mut UserStore, request: AuthRequest) -> (result: Result<
        AuthResponse,
        GenericError,
    >)
        requires
            old(store).wf(),
        ensures
            final(store).wf(),
            exists|now: i64|
                0 <= now && #[trigger]
                login_outcome(
                    old(store)@,
                    request.email@,
                    request.password@,
                    self.secret(),
                    now,
                ) == (final(store)@, response_view(result)),
            result matches Ok(response) ==> access_token_names_user(response@, self.secret()),
            result is Ok ==> credentials_hold(old(store)@, request.email@, request.password@),
            expiry_always_fits() && credentials_hold(
                old(store)@,
                request.email@,
                request.password@,
            ) ==> result is Ok,
            result matches Err(e) ==> final(store)@ == old(store)@ && (e
                == GenericError::spec_token_not_issued() <==> credentials_hold(
                old(store)@,
                request.email@,
                request.password@,
            )),
            tokens_signed(old(store)@, self.secret()) ==> tokens_signed(
                final(store)@,
                self.secret(),
            ),
    {
        let now: i64 = utc_now();
        let result = self.login_at(store, request, now);
        proof {
            if result is Ok {
                assert(access_token_accepted(result->Ok_0@, self.secret(), now));
            }
        }
        result
    }

    /// The revocation check: finds the user that holds the access token
    /// now. The token is only compared with the stored ones.
    pub fn validate(&self, store: &UserStore, token: &str) -> (result: Result<User, GenericError>)
        ensures
            user_result_view(result) == validate_outcome(store@, token@),
    {
        let key = Lookup::AccessToken(token.to_owned());
        require_found(store.find(&key))
    }

    /// Refreshes at `now`: the user that holds the refresh token gets a
    /// fresh pair, which replaces the stored one. `NotFound`, with the store
    /// unchanged, where no user holds that token.
    pub fn refresh_at(&self, store: &mut UserStore, token: &str, now: i64) -> (result: Result<
        AuthResponse,
        GenericError,
    >)
        requires
            old(store).wf(),
        ensures
            final(store).wf(),
            (final(store)@, response_view(result)) == refresh_outcome(
                old(store)@,
                token@,
                self.secret(),
                now,
            ),
            result is Ok <==> found(old(store)@, LookupKey::RefreshToken(token@)) is Some
                && expiry_at(now) is Some,
            result matches Ok(response) ==> forall|at: i64|
                at <= now + TOKEN_VALIDITY_SECS ==> #[trigger] access_token_accepted(
                    response@,
                    self.secret(),
                    at,
                ),
            tokens_signed(old(store)@, self.secret()) ==> tokens_signed(
                final(store)@,
                self.secret(),
            ),
            tokens_signed(old(store)@, self.secret()) ==> (result matches Ok(response)
                ==> session_replaced(
                final(store)@,
                found(old(store)@, LookupKey::RefreshToken(token@)).unwrap(),
                response@.tokens.access_token.unwrap(),
                now,
            )),
    {
        let key = Lookup::RefreshToken(token.to_owned());
        let found = store.find(&key);
        proof {
            lemma_found_is_stored(store@, key@);
        }
        match require_found(found) {
            Ok(user) => {
                let ghost user_model = user@;
                let result = self.generate_tokens_and_update_at(store, user, now);
                proof {
                    if result is Ok {
                        let response = result->Ok_0;
                        let token = response@.tokens.access_token.unwrap();
                        assert forall|at: i64| at <= now + TOKEN_VALIDITY_SECS implies
                            #[trigger] access_token_accepted(response@, self.secret(), at) by {
                            lemma_issued_token_decodes(user_model, token, self.secret(), now, at);
                        }
                    }
                }
                result
            },
            Err(e) => Err(e),
        }
    }

    /// As [`AuthService::refresh_at`], at the current instant of the
    /// system clock, which is not before the epoch. For a stored refresh
    /// token a fresh pair is owed; the only failure left is an expiry
    /// instant that does not fit the claim, which cannot
    /// happen where `usize` has 64 bits.
    pub fn refresh(&self, store: &mut UserStore, token: &str) -> (result: Result<
        AuthResponse,
        GenericError,
    >)
        requires
            old(store).wf(),
        ensures
            final(store).wf(),
            exists|now: i64|
                0 <= now && #[trigger]
                refresh_outcome(old(store)@, token@, self.secret(), now) == (
                    final(store)@,
                    response_view(result),
                ),
            result matches Ok(response) ==> access_token_names_user(response@, self.secret()),
            result is Ok ==> found(old(store)@, LookupKey::RefreshToken(token@)) is Some,
            expiry_always_fits() && found(old(store)@, LookupKey::RefreshToken(token@)) is Some
                ==> result is Ok,
            result matches Err(e) ==> final(store)@ == old(store)@ && (e
                == GenericError::spec_token_not_issued() <==> found(
                old(store)@,
                LookupKey::RefreshToken(token@),
            ) is Some),
            tokens_signed(old(store)@, self.secret()) ==> tokens_signed(
                final(store)@,
                self.secret(),
            ),
    {
        let now: i64 = utc_now();
        let result = self.refresh_at(store, token, now);
        proof {
            if result is Ok {
                assert(access_token_accepted(result->Ok_0@, self.secret(), now));
            }
        }
        result
    }
}

} // verus!
