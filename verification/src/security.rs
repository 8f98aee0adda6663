//! The credential verifier and the token codec.

use vstd::prelude::*;
use crate::auth::models::{Claims, ClaimsModel};
use crate::errors::InvalidToken;
use crate::users::models::{Role, User, UserModel};

verus! {

/// The bcrypt cost every password is hashed with.
pub const HASH_COST: u32 = 6;

/// Seconds for which an issued token stays valid: eight hours.
pub const TOKEN_VALIDITY_SECS: i64 = 28800;

//
// hashing
//

/// What `bcrypt::verify` returns for a password and a stored hash: `None`
/// where it reports an error (the hash is not a well-formed bcrypt hash),
/// otherwise whether the password matches.
pub uninterp spec fn bcrypt_verdict(password: Seq<char>, hash: Seq<char>) -> Option<bool>;

/// Calls `bcrypt::verify`. The contract only names the result: it is
/// assumed, not proved, that the call is a function of its two arguments,
/// which holds because the salt and the cost are read from the hash.
#[verifier::external_body]
fn bcrypt_verify(password: &str, password_hash: &str) -> (verdict: Option<bool>)
    ensures
        verdict == bcrypt_verdict(password@, password_hash@),
{
    bcrypt::verify(password, password_hash).ok()
}

/// The character of a decimal digit.
pub open spec fn digit_char(digit: int) -> char {
    ((48 + digit) as u8) as char
}

/// How a hash made at a cost begins: the version `2b` and the cost in two
/// decimal digits, each closed by a dollar sign.
pub open spec fn bcrypt_prefix(cost: u32) -> Seq<char> {
    "$2b$"@ + seq![digit_char(cost as int / 10), digit_char(cost as int % 10)] + "$"@
}

/// Whether a hash is one that was made at a cost: the cost is one that
/// bcrypt accepts, and the hash begins as hashes of that cost do.
pub open spec fn hashed_at(hash: Seq<char>, cost: u32) -> bool {
    4 <= cost <= 31 && bcrypt_prefix(cost).is_prefix_of(hash)
}

/// Calls `bcrypt::hash`, which draws a fresh random salt, so two calls on
/// one password differ and the result has no name. Two things are assumed,
/// not proved, of a hash that comes back. It verifies against the password
/// it was made from: `bcrypt::verify` re-hashes the password with the salt
/// and cost found in the hash and compares. And it was made at the given
/// cost: `bcrypt::hash` refuses a cost outside 4..=31 and writes the hash
/// as `$2b$`, the cost in two digits, `$`, the salt and the digest. `None`
/// stands for an error of the call (such a cost, or no randomness
/// available).
#[verifier::external_body]
fn bcrypt_hash(password: &str, cost: u32) -> (hash: Option<String>)
    ensures
        hash matches Some(h) ==> bcrypt_verdict(password@, h@) == Some(true),
        hash matches Some(h) ==> hashed_at(h@, cost),
{
    bcrypt::hash(password, cost).ok()
}

/// Whether a password matches a stored hash.
pub open spec fn password_matches(password: Seq<char>, hash: Seq<char>) -> bool {
    bcrypt_verdict(password, hash) == Some(true)
}

/// Turns the verifier's verdict into a decision: only a confirmed match
/// counts; a mismatch and an internal failure both fail closed.
pub fn password_accepted(verdict: Option<bool>) -> (accepted: bool)
    ensures
        accepted == (verdict == Some(true)),
{
    match verdict {
        Some(matched) => matched,
        None => false,
    }
}

/// Checks a plaintext secret against a stored hash. Never fails: a hash
/// that cannot be parsed is a mismatch.
pub fn verify_password(password: &str, password_hash: &str) -> (ok: bool)
    ensures
        ok == password_matches(password@, password_hash@),
{
    password_accepted(bcrypt_verify(password, password_hash))
}

/// Hashes a plaintext secret with a fresh salt at [`HASH_COST`]. The hash
/// differs from call to call; whatever comes back matches the password
/// and was made at the fixed cost, so it begins with `$2b$06$`. `None`
/// when the hash could not be produced, which the hashing call decides.
pub fn get_hashed_password(password: &str) -> (hash: Option<String>)
    ensures
        hash matches Some(h) ==> password_matches(password@, h@),
        hash matches Some(h) ==> hashed_at(h@, HASH_COST),
        hash matches Some(h) ==> "$2b$06$"@.is_prefix_of(h@),
{
    let hash = bcrypt_hash(password, HASH_COST);
    proof {
        lemma_fixed_cost_prefix();
    }
    hash
}

/// Hashes made at [`HASH_COST`] begin with `$2b$06$`.
pub proof fn lemma_fixed_cost_prefix()
    ensures
        bcrypt_prefix(HASH_COST) == "$2b$06$"@,
{
    reveal_strlit("$2b$");
    reveal_strlit("$");
    reveal_strlit("$2b$06$");
    assert(bcrypt_prefix(HASH_COST) =~= "$2b$06$"@);
}

//
// token codec
//

/// The compact token that `jsonwebtoken::encode` produces for the claims
/// `{sub, role, exp}` under the default header (HS256) and an HMAC key made
/// of the secret's bytes.
pub uninterp spec fn jwt_signed(sub: Seq<char>, role: Seq<char>, exp: usize, secret: Seq<char>)
    -> Seq<char>;

/// The mathematical value of a [`Payload`].
pub struct PayloadModel {
    pub sub: Option<Seq<char>>,
    pub role: Option<Seq<char>>,
    pub exp: Option<u64>,
}

/// What a verified token's payload holds of the three members that claims
/// are made of: `sub` where it is a string, `role` where it is a string,
/// `exp` where it is an unsigned integer.
#[derive(Debug, PartialEq, Eq)]
pub struct Payload {
    pub sub: Option<String>,
    pub role: Option<String>,
    pub exp: Option<u64>,
}

impl View for Payload {
    type V = PayloadModel;

    open spec fn view(&self) -> PayloadModel {
        PayloadModel { sub: self.sub.deep_view(), role: self.role.deep_view(), exp: self.exp }
    }
}

/// The mathematical value of an optional [`Payload`].
pub open spec fn payload_view(payload: Option<Payload>) -> Option<PayloadModel> {
    match payload {
        Some(p) => Some(p@),
        None => None,
    }
}

/// The payload that `jsonwebtoken::decode` hands back for a token under an
/// HMAC key made of the secret's bytes, with the default validation (HS256)
/// but the expiry test switched off; `None` where the call reports an error
/// (malformed token, other algorithm, signature mismatch, no `exp`).
pub uninterp spec fn jwt_payload(token: Seq<char>, secret: Seq<char>) -> Option<PayloadModel>;

/// The payload that holds exactly the given claims.
pub open spec fn payload_of(claims: ClaimsModel) -> PayloadModel {
    PayloadModel { sub: Some(claims.sub), role: Some(claims.role), exp: Some(claims.exp as u64) }
}

/// The claims in a payload: all three members must be there, and the
/// expiry instant must fit the claim.
pub open spec fn claims_from(payload: Option<PayloadModel>) -> Option<ClaimsModel> {
    match payload {
        Some(p) => match (p.sub, p.role, p.exp) {
            (Some(sub), Some(role), Some(exp)) => if exp <= usize::MAX {
                Some(ClaimsModel { sub, role, exp: exp as usize })
            } else {
                None
            },
            _ => None,
        },
        None => None,
    }
}

/// The claims that a token verifies to under a secret, if it does.
pub open spec fn jwt_verified(token: Seq<char>, secret: Seq<char>) -> Option<ClaimsModel> {
    claims_from(jwt_payload(token, secret))
}

/// The mathematical value of an optional [`Claims`].
pub open spec fn claims_view(claims: Option<Claims>) -> Option<ClaimsModel> {
    match claims {
        Some(c) => Some(c@),
        None => None,
    }
}

/// Calls `jsonwebtoken::encode` on a JSON object with the members `sub`,
/// `role` and `exp`, in this order. Three things are assumed, not proved.
/// A token comes back: with the default header and a key made by
/// `EncodingKey::from_secret` the families agree, a header and a JSON
/// object of strings and a number always serialise, and HMAC signing has
/// no error path. The token is a function of the claims and the secret,
/// which the contract names. And it verifies under the same secret to a
/// payload with the same three members: `decode` recomputes the HMAC over
/// the first two segments and parses the JSON that `encode` wrote.
#[verifier::external_body]
fn jwt_encode(claims: &Claims, secret: &str) -> (token: Option<String>)
    ensures
        token.deep_view() == Some(jwt_signed(claims@.sub, claims@.role, claims@.exp, secret@)),
        token matches Some(t) ==> jwt_payload(t@, secret@) == Some(payload_of(claims@)),
{
    let mut payload = serde_json::Map::new();
    payload.insert("sub".to_string(), serde_json::Value::from(claims.sub.clone()));
    payload.insert("role".to_string(), serde_json::Value::from(claims.role.clone()));
    payload.insert("exp".to_string(), serde_json::Value::from(claims.exp));
    let key = jsonwebtoken::EncodingKey::from_secret(secret.as_bytes());
    jsonwebtoken::encode(&jsonwebtoken::Header::default(), &payload, &key).ok()
}

/// Calls `jsonwebtoken::decode` with the expiry test switched off, so that
/// the call reads no clock and its result is a function of the token and
/// the secret, and moves the three members out of the payload. The
/// contract only names the result.
#[verifier::external_body]
fn jwt_verify(token: &str, secret: &str) -> (payload: Option<Payload>)
    ensures
        payload_view(payload) == jwt_payload(token@, secret@),
{
    let mut validation = jsonwebtoken::Validation::default();
    validation.validate_exp = false;
    let key = jsonwebtoken::DecodingKey::from_secret(secret.as_bytes());
    let data = jsonwebtoken::decode::<serde_json::Value>(token, &key, &validation).ok()?;
    Some(Payload {
        sub: data.claims.get("sub").and_then(serde_json::Value::as_str).map(str::to_string),
        role: data.claims.get("role").and_then(serde_json::Value::as_str).map(str::to_string),
        exp: data.claims.get("exp").and_then(serde_json::Value::as_u64),
    })
}

/// Makes claims of a verified payload: `None` where the token did not
/// verify, where a member is missing, or where the expiry instant does not
/// fit the claim.
pub fn claims_from_payload(payload: Option<Payload>) -> (claims: Option<Claims>)
    ensures
        claims_view(claims) == claims_from(payload_view(payload)),
{
    match payload {
        Some(Payload { sub: Some(sub), role: Some(role), exp: Some(exp) }) => {
            if exp <= usize::MAX as u64 {
                Some(Claims { sub, role, exp: exp as usize })
            } else {
                None
            }
        },
        _ => None,
    }
}

/// Calls `chrono::Utc::now` and takes the instant's whole seconds since the
/// Unix epoch. The result is whatever the system clock says; all that is
/// assumed of it is that it is not negative, because `Utc::now` measures
/// the time since the epoch and does not return when the clock stands
/// before it.
#[verifier::external_body]
pub(crate) fn utc_now() -> (seconds: i64)
    ensures
        0 <= seconds,
{
    chrono::Utc::now().timestamp()
}

/// Signs claims with the secret. A token always comes back; it is a
/// function of the claims and the secret, and verifies under the same
/// secret to the same claims.
pub fn issue(claims: &Claims, secret: &str) -> (token: Option<String>)
    ensures
        token.deep_view() == Some(jwt_signed(claims@.sub, claims@.role, claims@.exp, secret@)),
        token matches Some(t) ==> jwt_verified(t@, secret@) == Some(claims@),
{
    let token = jwt_encode(claims, secret);
    proof {
        lemma_payload_round_trip(claims@);
    }
    token
}

/// The claims in the payload that holds given claims are those claims.
pub proof fn lemma_payload_round_trip(claims: ClaimsModel)
    ensures
        claims_from(Some(payload_of(claims))) == Some(claims),
{
}

/// Whether claims that expire at `exp` are past at `now`.
pub open spec fn expired(exp: usize, now: i64) -> bool {
    exp < now
}

/// What decoding yields for the verified payload of a token at `now`:
/// a token that did not verify is untrusted, one whose expiry instant lies
/// before `now` is expired, any other yields its claims.
pub open spec fn decode_outcome(verified: Option<ClaimsModel>, now: i64) -> Result<
    ClaimsModel,
    InvalidToken,
> {
    match verified {
        None => Err(InvalidToken::Untrusted),
        Some(claims) => if expired(claims.exp, now) {
            Err(InvalidToken::Expired)
        } else {
            Ok(claims)
        },
    }
}

/// The mathematical value of a decoding result.
pub open spec fn decoded_view(result: Result<Claims, InvalidToken>) -> Result<
    ClaimsModel,
    InvalidToken,
> {
    match result {
        Ok(claims) => Ok(claims@),
        Err(e) => Err(e),
    }
}

/// Applies the expiry test at `now` to the verified payload of a token.
pub fn check_expiry(verified: Option<Claims>, now: i64) -> (result: Result<Claims, InvalidToken>)
    ensures
        decoded_view(result) == decode_outcome(claims_view(verified), now),
{
    match verified {
        None => Err(InvalidToken::Untrusted),
        Some(claims) => {
            if now > 0 && (claims.exp as u64) < (now as u64) {
                Err(InvalidToken::Expired)
            } else {
                Ok(claims)
            }
        },
    }
}

/// Decodes a token at the instant `now`: the signature must match the
/// secret and the expiry instant must not lie before `now`.
pub fn decode_at(token: &str, secret: &str, now: i64) -> (result: Result<Claims, InvalidToken>)
    ensures
        decoded_view(result) == decode_outcome(jwt_verified(token@, secret@), now),
        result matches Ok(claims) ==> !expired(claims@.exp, now),
{
    check_expiry(claims_from_payload(jwt_verify(token, secret)), now)
}

/// Decodes a token at the current instant of the system clock, which is
/// not before the epoch.
pub fn decode(token: &str, secret: &str) -> (result: Result<Claims, InvalidToken>)
    ensures
        exists|now: i64|
            0 <= now && #[trigger] decode_outcome(jwt_verified(token@, secret@), now)
                == decoded_view(result),
        jwt_verified(token@, secret@) is None ==> result == Err::<Claims, InvalidToken>(
            InvalidToken::Untrusted,
        ),
{
    let now: i64 = utc_now();
    decode_at(token, secret, now)
}

/// A token whose payload expires before `now` is refused at `now`, whether
/// or not its signature matches.
pub proof fn lemma_expired_token_is_refused(verified: Option<ClaimsModel>, now: i64)
    requires
        verified matches Some(claims) ==> expired(claims.exp, now),
    ensures
        decode_outcome(verified, now) is Err,
{
}

/// A token is accepted at `now` exactly when it verifies and its expiry
/// instant is `now` or later; the claims are then those that were signed.
pub proof fn lemma_decode_accepts(verified: Option<ClaimsModel>, now: i64)
    ensures
        decode_outcome(verified, now) is Ok <==> (verified matches Some(claims) && claims.exp
            >= now),
        decode_outcome(verified, now) matches Ok(claims) ==> verified == Some(claims),
{
}

//
// issuing a token for a user
//

/// The role names of a user joined by commas, in the order the user holds
/// them.
pub open spec fn joined_role_names(roles: Seq<Role>) -> Seq<char>
    decreases roles.len(),
{
    if roles.len() == 0 {
        Seq::empty()
    } else if roles.len() == 1 {
        roles[0].name()
    } else {
        joined_role_names(roles.drop_last()) + ","@ + roles.last().name()
    }
}

/// Joins the role names by commas.
pub fn join_role_names(roles: &Vec<Role>) -> (joined: String)
    ensures
        joined@ == joined_role_names(roles@),
{
    let mut joined = String::new();
    let mut i: usize = 0;
    while i < roles.len()
        invariant
            i <= roles.len(),
            joined@ == joined_role_names(roles@.subrange(0, i as int)),
        decreases roles.len() - i,
    {
        let name = roles[i].to_string();
        proof {
            let next = roles@.subrange(0, i as int + 1);
            assert(next.drop_last() == roles@.subrange(0, i as int));
            assert(next.last() == roles@[i as int]);
        }
        if i > 0 {
            joined.append(",");
        }
        joined.append(name.as_str());
        i = i + 1;
    }
    assert(roles@.subrange(0, roles.len() as int) == roles@);
    joined
}

/// The expiry instant of a token issued at `now`: [`TOKEN_VALIDITY_SECS`]
/// later, where that instant is not negative and fits the claim.
pub open spec fn expiry_at(now: i64) -> Option<usize> {
    if 0 <= now + TOKEN_VALIDITY_SECS <= usize::MAX {
        Some((now + TOKEN_VALIDITY_SECS) as usize)
    } else {
        None
    }
}

/// Whether the claim is wide enough for the expiry instant of every
/// instant that a clock can give, as it is where `usize` has 64 bits.
pub open spec fn expiry_always_fits() -> bool {
    i64::MAX + TOKEN_VALIDITY_SECS <= usize::MAX
}

/// Where the claim is wide enough, every instant from the epoch on has an
/// expiry instant; and it is wide enough where `usize` has 64 bits.
pub proof fn lemma_expiry_always_fits(now: i64)
    ensures
        expiry_always_fits() && 0 <= now ==> expiry_at(now) is Some,
        usize::BITS == 64 ==> expiry_always_fits(),
{
}

/// Computes the expiry instant of a token issued at `now`.
pub fn expiry_after(now: i64) -> (exp: Option<usize>)
    ensures
        exp == expiry_at(now),
{
    let at: i128 = now as i128 + TOKEN_VALIDITY_SECS as i128;
    if at < 0 || at > usize::MAX as i128 {
        None
    } else {
        Some(at as usize)
    }
}

/// The claims of a token for a user that expires at `exp`.
pub open spec fn claims_of(user: UserModel, exp: usize) -> ClaimsModel {
    ClaimsModel { sub: user.username, role: joined_role_names(user.roles), exp }
}

/// Builds the claims of a token for a user that expires at `exp`.
pub fn claims_for_user(user: &User, exp: usize) -> (claims: Claims)
    ensures
        claims@ == claims_of(user@, exp),
{
    Claims { sub: user.username.clone(), role: join_role_names(&user.roles), exp }
}

/// The token issued for a user at `now` under a secret; `None` exactly
/// where the expiry instant cannot be represented.
pub open spec fn token_for(user: UserModel, secret: Seq<char>, now: i64) -> Option<Seq<char>> {
    match expiry_at(now) {
        Some(exp) => Some(jwt_signed(user.username, joined_role_names(user.roles), exp, secret)),
        None => None,
    }
}

/// A token can be issued at every instant from the epoch on whose expiry
/// instant fits the claim, and at no instant more than the validity window
/// before the epoch.
pub proof fn lemma_token_is_owed(user: UserModel, secret: Seq<char>, now: i64)
    ensures
        token_for(user, secret, now) is Some <==> 0 <= now + TOKEN_VALIDITY_SECS <= usize::MAX,
        0 <= now && now + TOKEN_VALIDITY_SECS <= u32::MAX ==> token_for(user, secret, now) is Some,
{
}

/// Whether a token verifies under a secret to claims whose subject is the
/// given username.
pub open spec fn token_names(token: Seq<char>, secret: Seq<char>, username: Seq<char>) -> bool {
    jwt_verified(token, secret) matches Some(claims) && claims.sub == username
}

/// Issues the token for a user at the instant `now`. A token comes back
/// exactly when the expiry instant can be represented. It carries the
/// user's name and roles, expires [`TOKEN_VALIDITY_SECS`] after `now`, and
/// verifies under the same secret to exactly these claims.
pub fn jwt_for_user_at(user: &User, secret: &str, now: i64) -> (token: Option<String>)
    ensures
        token.deep_view() == token_for(user@, secret@, now),
        token is Some <==> expiry_at(now) is Some,
        token matches Some(t) ==> expiry_at(now) is Some && jwt_verified(t@, secret@) == Some(
            claims_of(user@, expiry_at(now).unwrap()),
        ),
{
    match expiry_after(now) {
        Some(exp) => {
            let claims = claims_for_user(user, exp);
            issue(&claims, secret)
        },
        None => None,
    }
}

/// Issues the token for a user at the current instant of the system
/// clock, which is not before the epoch. A token is owed whatever the user
/// and the secret hold; none comes back only where the expiry instant does
/// not fit the claim, which cannot happen where `usize` has 64 bits.
pub fn get_jwt_for_user(user: &User, secret: &str) -> (token: Option<String>)
    ensures
        exists|now: i64|
            0 <= now && #[trigger] token_for(user@, secret@, now) == token.deep_view(),
        expiry_always_fits() ==> token is Some,
        token matches Some(t) ==> token_names(t@, secret@, user@.username),
{
    let now: i64 = utc_now();
    jwt_for_user_at(user, secret, now)
}

/// A token issued for a user at `now` is accepted at every instant up to
/// its expiry, and names the user as its subject.
pub proof fn lemma_issued_token_decodes(
    user: UserModel,
    token: Seq<char>,
    secret: Seq<char>,
    now: i64,
    later: i64,
)
    requires
        expiry_at(now) is Some,
        jwt_verified(token, secret) == Some(claims_of(user, expiry_at(now).unwrap())),
        later <= now + TOKEN_VALIDITY_SECS,
    ensures
        decode_outcome(jwt_verified(token, secret), later) matches Ok(claims) && claims.sub
            == user.username,
{
}

} // verus!
