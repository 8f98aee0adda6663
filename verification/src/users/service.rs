//! Registration and lookup of users.

use vstd::prelude::*;
use crate::auth::service::tokens_signed;
use crate::errors::GenericError;
use crate::security::{get_hashed_password, hashed_at, password_matches, utc_now, HASH_COST};
use crate::store::{found, taken, Lookup, LookupKey, UserStore};
use crate::users::models::{CreateUser, CreateUserModel, User, UserModel, UserView, UserViewModel};

verus! {

/// The record of a newly registered user: the request's fields with the
/// password replaced by its hash, no tokens, created at `now`.
pub open spec fn registered(
    request: CreateUserModel,
    password_hash: Seq<char>,
    id: Option<u128>,
    now: i64,
) -> UserModel {
    UserModel {
        id,
        email: request.email,
        username: request.username,
        password: password_hash,
        roles: request.roles,
        tokens: None,
        created_at: Some(now),
        updated_at: None,
    }
}

/// Builds the record of a newly registered user from the request and the
/// hash of its password. The store assigns the identifier later.
pub fn new_user_record(request: CreateUser, password_hash: String, now: i64) -> (user: User)
    ensures
        user@ == registered(request@, password_hash@, None, now),
{
    User {
        id: None,
        email: request.email,
        username: request.username,
        password: password_hash,
        roles: request.roles,
        tokens: None,
        created_at: Some(now),
        updated_at: None,
    }
}

/// What a registration at `now` does to the records and returns.
///
/// With a taken email or username: `Conflict`, and nothing changes. With
/// a fresh email and username, either the new record stands at the end of
/// the records under its position as identifier, with a hash made at the
/// fixed cost that matches the request's password, or the password could
/// not be hashed and nothing changes.
pub open spec fn creation_outcome(
    before: Seq<UserModel>,
    after: Seq<UserModel>,
    request: CreateUserModel,
    now: i64,
    result: Result<u128, GenericError>,
) -> bool {
    if taken(before, request.email, request.username) {
        result == Err::<u128, GenericError>(GenericError::spec_already_exists()) && after == before
    } else {
        match result {
            Ok(id) => {
                &&& id == before.len()
                &&& after.len() == before.len() + 1
                &&& after.drop_last() == before
                &&& after.last() == registered(request, after.last().password, Some(id), now)
                &&& password_matches(request.password, after.last().password)
                &&& hashed_at(after.last().password, HASH_COST)
            },
            Err(e) => e == GenericError::spec_password_not_hashed() && after == before,
        }
    }
}

/// The mathematical value of a lookup's public result.
pub open spec fn view_result(result: Result<UserView, GenericError>) -> Result<
    UserViewModel,
    GenericError,
> {
    match result {
        Ok(view) => Ok(view@),
        Err(e) => Err(e),
    }
}

/// The public part of the user with a username, or `NotFound`.
pub open spec fn profile_outcome(users: Seq<UserModel>, username: Seq<char>) -> Result<
    UserViewModel,
    GenericError,
> {
    match found(users, LookupKey::Username(username)) {
        Some(user) => Ok(UserView::of(user)),
        None => Err(GenericError::spec_not_found()),
    }
}

/// The service that registers users and shows their public part.
pub struct UserService {}

impl UserService {
    /// The service.
    pub fn new() -> (service: UserService) {
        UserService {  }
    }

    /// Registers a user at `now`. `Conflict`, with the store unchanged,
    /// exactly when the email or the username is taken. Otherwise the
    /// password is hashed with a fresh salt at the fixed cost and the new
    /// record is added at the end of the store, whose position is its
    /// identifier; the stored hash matches the request's password. The
    /// only failure left for a fresh email and username is that the
    /// password cannot be hashed, which the hashing call decides; the store
    /// is then unchanged.
    pub fn create_at(&self, store: &mut UserStore, request: CreateUser, now: i64) -> (result: Result<
        u128,
        GenericError,
    >)
        requires
            old(store).wf(),
        ensures
            final(store).wf(),
            creation_outcome(old(store)@, final(store)@, request@, now, result),
            forall|secret: Seq<char>| #[trigger]
                tokens_signed(old(store)@, secret) ==> tokens_signed(final(store)@, secret),
    {
        if store.is_taken(request.email.as_str(), request.username.as_str()) {
            return Err(GenericError::already_exists());
        }
        let password_hash = match get_hashed_password(request.password.as_str()) {
            Some(hash) => hash,
            None => { return Err(GenericError::password_not_hashed()); },
        };
        let user = new_user_record(request, password_hash, now);
        let result = store.insert(user);
        proof {
            if result is Ok {
                assert(store@.drop_last() == old(store)@);
            }
        }
        result
    }

    /// As [`UserService::create_at`], at the current instant of the system
    /// clock, which is not before the epoch.
    pub fn create(&self, store: &mut UserStore, request: CreateUser) -> (result: Result<
        u128,
        GenericError,
    >)
        requires
            old(store).wf(),
        ensures
            final(store).wf(),
            exists|now: i64|
                0 <= now && #[trigger] creation_outcome(
                    old(store)@,
                    final(store)@,
                    request@,
                    now,
                    result,
                ),
            result matches Err(e) && e == GenericError::spec_already_exists() <==> taken(
                old(store)@,
                request@.email,
                request@.username,
            ),
            forall|secret: Seq<char>| #[trigger]
                tokens_signed(old(store)@, secret) ==> tokens_signed(final(store)@, secret),
    {
        let now: i64 = utc_now();
        self.create_at(store, request, now)
    }

    /// The public part of the user with a username.
    pub fn get_by_username(&self, store: &UserStore, username: &str) -> (result: Result<
        UserView,
        GenericError,
    >)
        ensures
            view_result(result) == profile_outcome(store@, username@),
    {
        let key = Lookup::Username(username.to_owned());
        match store.find(&key) {
            Some(user) => Ok(UserView::from_user(&user)),
            None => Err(GenericError::not_found()),
        }
    }
}

} // verus!
