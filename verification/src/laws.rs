//! What holds of the service across its operations.

use vstd::prelude::*;
use crate::auth::service::{
    credentials_hold,
    holds_own_tokens,
    is_stored,
    issue_outcome,
    issued_user,
    lemma_found_is_stored,
    lemma_issue_replaces_session,
    login_outcome,
    refresh_outcome,
    tokens_signed,
    validate_outcome,
};
use crate::auth::models::AuthResponseModel;
use crate::errors::{ErrorKind, GenericError};
use crate::security::{expiry_always_fits, expiry_at, password_matches, token_for, token_names};
use crate::store::{first_match, found, lemma_first_match, records_wf, stored_at, LookupKey};
use crate::users::models::UserModel;

verus! {

/// A login with the email of a stored user and a password that does not
/// match the user's hash fails as `Unauthorized`; the store is unchanged,
/// so no token was issued.
pub proof fn lemma_wrong_password_is_unauthorized(
    users: Seq<UserModel>,
    email: Seq<char>,
    password: Seq<char>,
    secret: Seq<char>,
    now: i64,
)
    requires
        found(users, LookupKey::Email(email)) matches Some(user) && !password_matches(
            password,
            user.password,
        ),
    ensures
        login_outcome(users, email, password, secret, now).0 == users,
        login_outcome(users, email, password, secret, now).1 matches Err(e) && e.kind
            == ErrorKind::Unauthorized,
{
}

/// A login with an email that no stored user has fails as `NotFound`; the
/// store is unchanged.
pub proof fn lemma_unknown_email_is_not_found(
    users: Seq<UserModel>,
    email: Seq<char>,
    password: Seq<char>,
    secret: Seq<char>,
    now: i64,
)
    requires
        forall|i: int| 0 <= i < users.len() ==> (#[trigger] users[i]).email != email,
    ensures
        login_outcome(users, email, password, secret, now).0 == users,
        login_outcome(users, email, password, secret, now).1 matches Err(e) && e.kind
            == ErrorKind::NotFound,
{
    lemma_first_match(users, LookupKey::Email(email));
}

/// A login succeeds exactly when a stored user has the email, the password
/// matches the user's hash and the expiry instant can be represented. From
/// the epoch on, where the claim is wide enough, it succeeds exactly when
/// the credentials hold.
pub proof fn lemma_login_succeeds(
    users: Seq<UserModel>,
    email: Seq<char>,
    password: Seq<char>,
    secret: Seq<char>,
    now: i64,
)
    ensures
        login_outcome(users, email, password, secret, now).1 is Ok <==> credentials_hold(
            users,
            email,
            password,
        ) && expiry_at(now) is Some,
        expiry_always_fits() && 0 <= now ==> (login_outcome(
            users,
            email,
            password,
            secret,
            now,
        ).1 is Ok <==> credentials_hold(users, email, password)),
{
}

/// A refresh succeeds exactly when a user holds the refresh token and the
/// expiry instant can be represented.
pub proof fn lemma_refresh_succeeds(
    users: Seq<UserModel>,
    token: Seq<char>,
    secret: Seq<char>,
    now: i64,
)
    ensures
        refresh_outcome(users, token, secret, now).1 is Ok <==> found(
            users,
            LookupKey::RefreshToken(token),
        ) is Some && expiry_at(now) is Some,
{
}

/// A refresh with a string that equals no stored refresh token fails as
/// `NotFound`; the store is unchanged.
pub proof fn lemma_unknown_refresh_token_is_not_found(
    users: Seq<UserModel>,
    token: Seq<char>,
    secret: Seq<char>,
    now: i64,
)
    requires
        forall|i: int| 0 <= i < users.len() ==> (#[trigger] users[i]).refresh_token() != Some(token),
    ensures
        refresh_outcome(users, token, secret, now).0 == users,
        refresh_outcome(users, token, secret, now).1 matches Err(e) && e.kind
            == ErrorKind::NotFound,
{
    lemma_first_match(users, LookupKey::RefreshToken(token));
}

/// In a store whose tokens were all signed for their holders, no two users
/// hold the same access token.
pub proof fn lemma_access_tokens_are_distinct(
    users: Seq<UserModel>,
    secret: Seq<char>,
    i: int,
    j: int,
)
    requires
        records_wf(users),
        tokens_signed(users, secret),
        0 <= i < users.len(),
        0 <= j < users.len(),
        i != j,
        users[i].access_token() is Some,
    ensures
        users[i].access_token() != users[j].access_token(),
{
    assert(holds_own_tokens(users[i], secret));
    assert(holds_own_tokens(users[j], secret));
}

/// After a successful refresh the token pair that was live before is gone:
/// the revocation check finds the user by the new access token, and no
/// longer finds anybody by the previous one. This holds where the new token
/// differs from the previous one, in a store whose tokens were all signed
/// for their holders.
pub proof fn lemma_refresh_revokes_previous_token(
    users: Seq<UserModel>,
    refresh_token: Seq<char>,
    previous: Seq<char>,
    secret: Seq<char>,
    now: i64,
)
    requires
        records_wf(users),
        tokens_signed(users, secret),
        tokens_signed(refresh_outcome(users, refresh_token, secret, now).0, secret),
        refresh_outcome(users, refresh_token, secret, now).1 is Ok,
        found(users, LookupKey::RefreshToken(refresh_token)) matches Some(user)
            && user.access_token() == Some(previous),
        refresh_outcome(users, refresh_token, secret, now).1 matches Ok(response)
            && response.tokens.access_token != Some(previous),
    ensures
        ({
            let (after, result) = refresh_outcome(users, refresh_token, secret, now);
            let user = found(users, LookupKey::RefreshToken(refresh_token)).unwrap();
            let fresh = result.unwrap().tokens.access_token.unwrap();
            &&& validate_outcome(after, previous) == Err::<UserModel, GenericError>(
                GenericError::spec_not_found(),
            )
            &&& validate_outcome(after, fresh) == Ok::<UserModel, GenericError>(
                issued_user(user, fresh, now),
            )
        }),
{
    let key = LookupKey::RefreshToken(refresh_token);
    lemma_found_is_stored(users, key);
    let user = found(users, key).unwrap();
    lemma_issue_replaces_session(users, user, secret, now);
}

/// Of two token pairs issued one after the other for the same record, the
/// one written last is the one the record holds, and the store is as if
/// the first had never been written. Both issuances succeed. This is the
/// last-writer-wins rule of concurrent refreshes.
pub proof fn lemma_last_write_wins(
    users: Seq<UserModel>,
    user: UserModel,
    secret: Seq<char>,
    first: i64,
    second: i64,
)
    requires
        records_wf(users),
        user.id matches Some(id) && id < users.len(),
        expiry_at(first) is Some,
        expiry_at(second) is Some,
    ensures
        ({
            let once = issue_outcome(users, user, secret, first).0;
            let twice = issue_outcome(once, user, secret, second).0;
            let at = user.id.unwrap() as int;
            let last = token_for(user, secret, second).unwrap();
            &&& issue_outcome(users, user, secret, first).1 is Ok
            &&& issue_outcome(once, user, secret, second).1 is Ok
            &&& twice == issue_outcome(users, user, secret, second).0
            &&& twice[at].access_token() == Some(last)
            &&& twice[at].refresh_token() == Some(last)
        }),
{
    let once = issue_outcome(users, user, secret, first).0;
    let twice = issue_outcome(once, user, secret, second).0;
    assert(twice =~= issue_outcome(users, user, secret, second).0);
}

/// The response of a successful login or refresh carries the user's email,
/// username and roles as they are stored, and a pair of two tokens.
pub proof fn lemma_response_describes_user(
    users: Seq<UserModel>,
    user: UserModel,
    secret: Seq<char>,
    now: i64,
    response: AuthResponseModel,
)
    requires
        issue_outcome(users, user, secret, now).1 == Ok::<AuthResponseModel, GenericError>(response),
    ensures
        response.email == user.email,
        response.username == user.username,
        response.roles == user.roles,
        response.tokens.access_token is Some,
        response.tokens.refresh_token is Some,
{
}

/// The empty store is one whose tokens were all signed for their holders.
/// Registration, login and refresh keep a store so, which their contracts
/// state; so every store that they built from the empty one is so.
pub proof fn lemma_empty_store_is_signed(secret: Seq<char>)
    ensures
        records_wf(Seq::<UserModel>::empty()),
        tokens_signed(Seq::<UserModel>::empty(), secret),
{
}

/// After a token pair was issued for a stored user, the access token the
/// user held before no longer leads to that user, where the new token is
/// another one. This holds of every well-formed store.
pub proof fn lemma_previous_token_leaves_the_user(
    users: Seq<UserModel>,
    user: UserModel,
    previous: Seq<char>,
    secret: Seq<char>,
    now: i64,
)
    requires
        records_wf(users),
        is_stored(users, user),
        token_for(user, secret, now) matches Some(fresh) && fresh != previous,
    ensures
        validate_outcome(issue_outcome(users, user, secret, now).0, previous) matches Ok(holder)
            ==> holder.id != user.id,
{
    let after = issue_outcome(users, user, secret, now).0;
    let at = user.id.unwrap() as int;
    let fresh = token_for(user, secret, now).unwrap();
    assert(after == users.update(at, issued_user(user, fresh, now)));
    lemma_first_match(after, LookupKey::AccessToken(previous));
    if let Some(i) = first_match(after, LookupKey::AccessToken(previous)) {
        if i != at {
            assert(after[i] == users[i]);
            assert(stored_at(users[i], i));
        }
    }
}

/// Of two different token pairs issued one after the other for a stored
/// user, the first is dead once the second is written: no user is found by
/// its token, neither as access token nor as refresh token. This holds in
/// a store whose tokens were all signed for their holders, for a first
/// token that was signed for the user.
pub proof fn lemma_overwritten_pair_is_dead(
    users: Seq<UserModel>,
    user: UserModel,
    secret: Seq<char>,
    first: i64,
    second: i64,
)
    requires
        records_wf(users),
        tokens_signed(users, secret),
        is_stored(users, user),
        expiry_at(first) is Some,
        expiry_at(second) is Some,
        token_for(user, secret, first) != token_for(user, secret, second),
        token_names(token_for(user, secret, first).unwrap(), secret, user.username),
    ensures
        ({
            let once = issue_outcome(users, user, secret, first).0;
            let twice = issue_outcome(once, user, secret, second).0;
            let dead = token_for(user, secret, first).unwrap();
            &&& found(twice, LookupKey::AccessToken(dead)) is None
            &&& found(twice, LookupKey::RefreshToken(dead)) is None
        }),
{
    let once = issue_outcome(users, user, secret, first).0;
    let twice = issue_outcome(once, user, secret, second).0;
    let at = user.id.unwrap() as int;
    let dead = token_for(user, secret, first).unwrap();
    let last = token_for(user, secret, second).unwrap();
    assert(twice =~= users.update(at, issued_user(user, last, second)));
    assert forall|j: int| 0 <= j < twice.len() implies twice[j].access_token() != Some(dead)
        && twice[j].refresh_token() != Some(dead) by {
        if j != at {
            assert(twice[j] == users[j]);
            assert(holds_own_tokens(users[j], secret));
        }
    }
    lemma_first_match(twice, LookupKey::AccessToken(dead));
    lemma_first_match(twice, LookupKey::RefreshToken(dead));
}

} // verus!
