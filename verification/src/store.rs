//! The identity store: user records with unique emails and usernames, found
//! by email, username or a stored token, whose token pairs can be replaced.
//! Records are never removed.

use vstd::prelude::*;
use crate::errors::GenericError;
use crate::users::models::{clone_optional_tokens, clone_roles, User, UserModel};

verus! {

/// The mathematical value of a [`Lookup`].
pub enum LookupKey {
    Email(Seq<char>),
    Username(Seq<char>),
    AccessToken(Seq<char>),
    RefreshToken(Seq<char>),
}

impl LookupKey {
    /// Whether a record answers the key. A token key is compared with the
    /// stored token character by character; it is not decoded.
    pub open spec fn matches(self, user: UserModel) -> bool {
        match self {
            LookupKey::Email(email) => user.email == email,
            LookupKey::Username(username) => user.username == username,
            LookupKey::AccessToken(token) => user.access_token() == Some(token),
            LookupKey::RefreshToken(token) => user.refresh_token() == Some(token),
        }
    }
}

/// What a record is looked up by.
#[derive(Debug, PartialEq, Eq)]
pub enum Lookup {
    Email(String),
    Username(String),
    AccessToken(String),
    RefreshToken(String),
}

impl View for Lookup {
    type V = LookupKey;

    open spec fn view(&self) -> LookupKey {
        match self {
            Lookup::Email(s) => LookupKey::Email(s@),
            Lookup::Username(s) => LookupKey::Username(s@),
            Lookup::AccessToken(s) => LookupKey::AccessToken(s@),
            Lookup::RefreshToken(s) => LookupKey::RefreshToken(s@),
        }
    }
}

/// Whether an optional stored string equals a given one.
pub fn holds(stored: &Option<String>, value: &String) -> (b: bool)
    ensures
        b == (stored.deep_view() == Some(value@)),
{
    match stored {
        Some(s) => *s == *value,
        None => false,
    }
}

impl Lookup {
    /// Whether a record answers the key.
    pub fn matches(&self, user: &User) -> (b: bool)
        ensures
            b == self@.matches(user@),
    {
        match self {
            Lookup::Email(email) => user.email == *email,
            Lookup::Username(username) => user.username == *username,
            Lookup::AccessToken(token) => match &user.tokens {
                Some(tokens) => holds(&tokens.access_token, token),
                None => false,
            },
            Lookup::RefreshToken(token) => match &user.tokens {
                Some(tokens) => holds(&tokens.refresh_token, token),
                None => false,
            },
        }
    }
}

/// The position of the first record at or after `from` that answers the key.
pub open spec fn first_match_from(users: Seq<UserModel>, key: LookupKey, from: int) -> Option<int>
    decreases users.len() - from,
{
    if from < 0 || from >= users.len() {
        None
    } else if key.matches(users[from]) {
        Some(from)
    } else {
        first_match_from(users, key, from + 1)
    }
}

/// The position of the first record that answers the key.
pub open spec fn first_match(users: Seq<UserModel>, key: LookupKey) -> Option<int> {
    first_match_from(users, key, 0)
}

/// The first record that answers the key.
pub open spec fn found(users: Seq<UserModel>, key: LookupKey) -> Option<UserModel> {
    match first_match(users, key) {
        Some(i) => Some(users[i]),
        None => None,
    }
}

/// What the positions found by [`first_match_from`] are: the least
/// position from `from` on whose record answers the key, and none exactly
/// when no record from `from` on answers it.
pub proof fn lemma_first_match_from(users: Seq<UserModel>, key: LookupKey, from: int)
    requires
        0 <= from,
    ensures
        match first_match_from(users, key, from) {
            Some(i) => from <= i < users.len() && key.matches(users[i]) && forall|j: int|
                from <= j < i ==> !key.matches(#[trigger] users[j]),
            None => forall|j: int| from <= j < users.len() ==> !key.matches(#[trigger] users[j]),
        },
    decreases users.len() - from,
{
    if from < users.len() && !key.matches(users[from]) {
        lemma_first_match_from(users, key, from + 1);
    }
}

/// What [`first_match`] finds: the least position whose record answers the
/// key, and none exactly when no record answers it.
pub proof fn lemma_first_match(users: Seq<UserModel>, key: LookupKey)
    ensures
        match first_match(users, key) {
            Some(i) => 0 <= i < users.len() && key.matches(users[i]) && forall|j: int|
                0 <= j < i ==> !key.matches(#[trigger] users[j]),
            None => forall|j: int| 0 <= j < users.len() ==> !key.matches(#[trigger] users[j]),
        },
{
    lemma_first_match_from(users, key, 0);
}

/// Whether a record's identifier is the position `i`.
pub open spec fn stored_at(user: UserModel, i: int) -> bool {
    user.id matches Some(id) && id == i
}

/// The invariant of the store's records: each record's identifier is its
/// position, and no two records share an email or a username.
pub open spec fn records_wf(users: Seq<UserModel>) -> bool {
    &&& forall|i: int| 0 <= i < users.len() ==> stored_at(#[trigger] users[i], i)
    &&& forall|i: int, j: int|
        0 <= i < users.len() && 0 <= j < users.len() && i != j ==> (#[trigger] users[i]).email != (
        #[trigger] users[j]).email
    &&& forall|i: int, j: int|
        0 <= i < users.len() && 0 <= j < users.len() && i != j ==> (#[trigger] users[i]).username
            != (#[trigger] users[j]).username
}

/// Whether a new record with this email and username would collide with a
/// stored one.
pub open spec fn taken(users: Seq<UserModel>, email: Seq<char>, username: Seq<char>) -> bool {
    first_match(users, LookupKey::Email(email)) is Some || first_match(
        users,
        LookupKey::Username(username),
    ) is Some
}

/// The records after a user's token pair and update instant were written
/// to the record with the user's identifier; unchanged where no record has
/// that identifier.
pub open spec fn persisted(users: Seq<UserModel>, user: UserModel) -> Seq<UserModel> {
    match user.id {
        Some(id) => if id < users.len() {
            users.update(
                id as int,
                UserModel { tokens: user.tokens, updated_at: user.updated_at, ..users[id as int] },
            )
        } else {
            users
        },
        None => users,
    }
}

/// The mathematical value of an optional record.
pub open spec fn user_view(user: Option<User>) -> Option<UserModel> {
    match user {
        Some(u) => Some(u@),
        None => None,
    }
}

/// An in-memory identity store.
pub struct UserStore {
    users: Vec<User>,
}

impl View for UserStore {
    type V = Seq<UserModel>;

    closed spec fn view(&self) -> Seq<UserModel> {
        Seq::new(self.users@.len(), |i: int| self.users@[i]@)
    }
}

impl UserStore {
    /// Whether the store's records meet [`records_wf`].
    pub open spec fn wf(&self) -> bool {
        records_wf(self@)
    }

    /// An empty store.
    pub fn new() -> (store: UserStore)
        ensures
            store@ == Seq::<UserModel>::empty(),
            store.wf(),
    {
        UserStore { users: Vec::new() }
    }

    /// The number of records.
    pub fn len(&self) -> (n: usize)
        ensures
            n == self@.len(),
    {
        self.users.len()
    }

    /// The position of the first record that answers the key.
    fn position(&self, key: &Lookup) -> (at: Option<usize>)
        ensures
            match at {
                Some(i) => first_match(self@, key@) == Some(i as int) && i < self@.len(),
                None => first_match(self@, key@) is None,
            },
    {
        let mut i: usize = 0;
        while i < self.users.len()
            invariant
                i <= self.users.len(),
                first_match(self@, key@) == first_match_from(self@, key@, i as int),
            decreases self.users.len() - i,
        {
            if key.matches(&self.users[i]) {
                return Some(i);
            }
            i = i + 1;
        }
        None
    }

    /// The first record that answers the key, as a copy.
    pub fn find(&self, key: &Lookup) -> (user: Option<User>)
        ensures
            user_view(user) == found(self@, key@),
    {
        match self.position(key) {
            Some(i) => Some(self.users[i].clone()),
            None => None,
        }
    }

    /// Whether a new record with this email and username would collide
    /// with a stored one.
    pub fn is_taken(&self, email: &str, username: &str) -> (b: bool)
        ensures
            b == taken(self@, email@, username@),
    {
        let by_email = Lookup::Email(email.to_owned());
        let by_username = Lookup::Username(username.to_owned());
        self.position(&by_email).is_some() || self.position(&by_username).is_some()
    }

    /// Adds a record for a new user. The store assigns the identifier: the
    /// record's position. Refused, with the store unchanged, where the email
    /// or the username is already taken.
    pub fn insert(&mut self, user: User) -> (result: Result<u128, GenericError>)
        requires
            old(self).wf(),
        ensures
            final(self).wf(),
            match result {
                Ok(id) => !taken(old(self)@, user@.email, user@.username) && id == old(self)@.len()
                    && final(self)@ == old(self)@.push(UserModel { id: Some(id), ..user@ }),
                Err(e) => taken(old(self)@, user@.email, user@.username) && e
                    == GenericError::spec_already_exists() && final(self)@ == old(self)@,
            },
    {
        if self.is_taken(user.email.as_str(), user.username.as_str()) {
            return Err(GenericError::already_exists());
        }
        proof {
            lemma_first_match(self@, LookupKey::Email(user@.email));
            lemma_first_match(self@, LookupKey::Username(user@.username));
        }
        let id: u128 = self.users.len() as u128;
        let record = User { id: Some(id), ..user };
        self.users.push(record);
        assert(self@ == old(self)@.push(UserModel { id: Some(id), ..user@ }));
        Ok(id)
    }

    /// Writes a user's token pair and update instant to the record with the
    /// user's identifier. Every other field of that record, and every other
    /// record, stays as it is; where no record has that identifier nothing
    /// changes.
    pub fn persist_tokens(&mut self, user: &User)
        requires
            old(self).wf(),
        ensures
            final(self).wf(),
            final(self)@ == persisted(old(self)@, user@),
    {
        match user.id {
            Some(id) => {
                if id < self.users.len() as u128 {
                    let at: usize = id as usize;
                    let stored = &self.users[at];
                    let record = User {
                        id: stored.id,
                        email: stored.email.clone(),
                        username: stored.username.clone(),
                        password: stored.password.clone(),
                        roles: clone_roles(&stored.roles),
                        tokens: clone_optional_tokens(&user.tokens),
                        created_at: stored.created_at,
                        updated_at: user.updated_at,
                    };
                    self.users.set(at, record);
                    assert(self@ == persisted(old(self)@, user@));
                }
            },
            None => {},
        }
    }
}

} // verus!
