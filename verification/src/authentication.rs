//! Credential hashing, registration and login, and the request-time
//! authorization guard.
//!
//! Passwords are hashed with argon2 into a digest that embeds its own salt
//! and parameters, so verification needs no side state.  A credential
//! mismatch is the boolean `false` — failing closed into a declined login,
//! never a crash.  The guard turns the raw authorization header of a request
//! into a verified [`Session`], rejecting absent and empty headers, tokens
//! that do not decode, and tokens whose expiry is not strictly in the
//! future.

use vstd::prelude::*;
use vstd::utf8::encode_utf8;
use crate::account::Account;
use crate::account::AccountId;
use crate::account::NewAccount;
use crate::account::Session;
use crate::errors::Error;
use crate::token::TOKEN_KEY_LEN;
use crate::token::TOKEN_NONCE_LEN;
use crate::token::issue_token;
use crate::token::spec_expiry;
use crate::hex::spec_hex_decode;
use crate::token::spec_token_claims;
use crate::token::verify_token;

verus! {

/// Whether argon2 accepts the password `pwd` against the encoded digest
/// `digest`: the digest's embedded salt and parameters, applied to `pwd`,
/// reproduce the digest's hash.
pub uninterp spec fn argon_verifies(digest: Seq<char>, pwd: Seq<u8>) -> bool;

/// Whether an encoded digest can be checked at all: it decodes, and the
/// salt and parameters it embeds pass argon2's validation.  A function of
/// the digest alone; every digest the hasher produces satisfies it.
pub uninterp spec fn argon_digest_readable(digest: Seq<char>) -> bool;

/// Relies on rust-argon2's `hash_encoded` with the default configuration:
/// it succeeds whenever the salt is at least eight bytes and password and
/// salt fit the library's length limits; the digest it returns decodes
/// back, and `verify_encoded` accepts the hashed password against it.
#[verifier::external_body]
fn argon2_hash_encoded(pwd: &[u8], salt: &[u8]) -> (r: Result<String, ()>)
    requires
        8 <= salt@.len() < 0x1_0000_0000,
        pwd@.len() < 0x1_0000_0000,
    ensures
        r matches Ok(d) ==> argon_verifies(d@, pwd@) && argon_digest_readable(d@),
        r is Ok,
{
    argon2::hash_encoded(pwd, salt, &argon2::Config::default()).map_err(|_| ())
}

/// Relies on rust-argon2's `verify_encoded`: whether it accepts is a
/// function of the digest and the password alone, named [`argon_verifies`],
/// and for a password within the library's length limit it errors exactly
/// when the digest does not decode or embeds parameters out of range,
/// named [`argon_digest_readable`].
#[verifier::external_body]
fn argon2_verify_encoded(digest: &str, pwd: &[u8]) -> (r: Result<bool, ()>)
    ensures
        r matches Ok(b) ==> b == argon_verifies(digest@, pwd@),
        pwd@.len() < 0x1_0000_0000 ==> (r is Ok <==> argon_digest_readable(digest@)),
{
    argon2::verify_encoded(digest, pwd).map_err(|_| ())
}

/// Hashes a plaintext credential with the caller-supplied random salt into
/// a digest that verifies against that credential.  The digest embeds the
/// salt and the algorithm parameters.
pub fn hash_password(password: &[u8], salt: &[u8]) -> (r: String)
    requires
        8 <= salt@.len() < 0x1_0000_0000,
        password@.len() < 0x1_0000_0000,
    ensures
        argon_verifies(r@, password@),
        argon_digest_readable(r@),
{
    match argon2_hash_encoded(password, salt) {
        Ok(d) => d,
        Err(_) => vstd::pervasive::unreached(),
    }
}

/// What credential verification yields for a digest and a password
/// within argon2's length limit: whether the password reproduces a
/// readable digest, or the masked hashing failure for one that cannot
/// even be read.
pub open spec fn spec_verify_password(digest: Seq<char>, pwd: Seq<u8>) -> Result<bool, Error> {
    if argon_digest_readable(digest) {
        Ok(argon_verifies(digest, pwd))
    } else {
        Err(Error::ArgonLibraryError)
    }
}

/// Verifies a plaintext credential against a stored digest.  A mismatch is
/// `Ok(false)`, not an error; a digest that cannot even be read is the
/// masked hashing failure, and the check succeeds on every readable one.
pub fn verify_password(digest: &str, password: &[u8]) -> (r: Result<bool, Error>)
    ensures
        r matches Ok(b) ==> b == argon_verifies(digest@, password@),
        r is Err ==> r == Err::<bool, Error>(Error::ArgonLibraryError),
        password@.len() < 0x1_0000_0000 ==> r == spec_verify_password(digest@, password@),
{
    match argon2_verify_encoded(digest, password) {
        Ok(b) => Ok(b),
        Err(_) => Err(Error::ArgonLibraryError),
    }
}

/// Hash-then-verify accepts: every digest the hasher produces for a
/// password is readable and verifies against exactly that password, so
/// checking the password it came from is owed `Ok(true)`.
pub proof fn lemma_own_digest_accepted(digest: Seq<char>, pwd: Seq<u8>)
    requires
        argon_verifies(digest, pwd),
        argon_digest_readable(digest),
    ensures
        spec_verify_password(digest, pwd) == Ok::<bool, Error>(true),
{
}

/// Builds the identity record for a new registration: the submitted email
/// with the digest of the submitted password, and no id until the store
/// assigns one.  The plaintext password is not part of the record.
pub fn register(new_account: NewAccount, salt: &[u8]) -> (r: Result<Account, Error>)
    requires
        8 <= salt@.len() < 0x1_0000_0000,
    ensures
        r matches Ok(a) ==> a.id is None && a.email@ == new_account.email@ && argon_verifies(
            a.password@,
            encode_utf8(new_account.password@),
        ) && argon_digest_readable(a.password@),
        r is Ok <==> encode_utf8(new_account.password@).len() < 0x1_0000_0000,
        r is Err ==> r == Err::<Account, Error>(Error::ArgonLibraryError),
{
    if new_account.password.as_str().as_bytes().len() as u64 >= 0x1_0000_0000u64 {
        return Err(Error::ArgonLibraryError);
    }
    let digest: String = hash_password(new_account.password.as_str().as_bytes(), salt);
    Ok(Account { id: None, email: new_account.email, password: digest })
}

/// A record handed back by the store carries the id the store assigned.
pub open spec fn spec_stored_account_wf(a: Account) -> bool {
    match a.id {
        Some(id) => 0 <= id.0,
        None => false,
    }
}

/// The id of a stored account.
pub open spec fn spec_account_id(a: Account) -> i32 {
    a.id->Some_0.0
}

/// The login decision: takes the store's answer to the email lookup and
/// the submitted password, verifies the password against the stored
/// digest, and issues a fresh session token on success.  A failed lookup
/// propagates; a matching password against a readable digest is owed a
/// token; a mismatch declines with exactly the wrong-credential failure;
/// only a digest that cannot even be read is the masked hashing failure.
pub fn login(
    lookup: Result<Account, Error>,
    password: &str,
    key: &[u8],
    nonce: &[u8],
    now: i64,
    ttl: i64,
) -> (r: Result<String, Error>)
    requires
        key@.len() == TOKEN_KEY_LEN,
        nonce@.len() == TOKEN_NONCE_LEN,
        0 <= now,
        0 < ttl,
        encode_utf8(password@).len() < 0x1_0000_0000,
        lookup matches Ok(a) ==> spec_stored_account_wf(a),
    ensures
        match lookup {
            Err(e) => r == Err::<String, Error>(e),
            Ok(a) => {
                &&& (r matches Ok(t) ==> argon_verifies(a.password@, encode_utf8(password@))
                    && spec_token_claims(key@, t@) == Some(
                    (spec_account_id(a), spec_expiry(now, ttl)),
                ))
                &&& (argon_verifies(a.password@, encode_utf8(password@))
                    && argon_digest_readable(a.password@) ==> r is Ok)
                &&& (r is Err ==> r == Err::<String, Error>(Error::WrongPassword) || r == Err::<
                    String,
                    Error,
                >(Error::ArgonLibraryError))
                &&& (!argon_verifies(a.password@, encode_utf8(password@)) ==> r is Err)
                &&& (r == Err::<String, Error>(Error::WrongPassword) ==> !argon_verifies(
                    a.password@,
                    encode_utf8(password@),
                ))
                &&& (r == Err::<String, Error>(Error::ArgonLibraryError)
                    ==> !argon_digest_readable(a.password@))
            },
        },
{
    let account = match lookup {
        Ok(a) => a,
        Err(e) => return Err(e),
    };
    match verify_password(account.password.as_str(), password.as_bytes()) {
        Ok(true) => {
            let id: AccountId = match account.id {
                Some(id) => id,
                None => vstd::pervasive::unreached(),
            };
            Ok(issue_token(key, nonce, id, now, ttl))
        },
        Ok(false) => Err(Error::WrongPassword),
        Err(e) => Err(e),
    }
}

/// What the authorization guard decides for a raw header value under a
/// key at a moment: an absent or empty header and a token past or at its
/// expiry are unauthorized; a token that does not decode is the uniform
/// decode failure; otherwise the session the token encodes.
pub open spec fn spec_auth(key: Seq<u8>, header: Option<Seq<char>>, now: i64) -> Result<
    Session,
    Error,
> {
    match header {
        None => Err(Error::Unauthorized),
        Some(h) => if h.len() == 0 {
            Err(Error::Unauthorized)
        } else {
            match spec_token_claims(key, h) {
                Some((id, exp)) => if now < exp {
                    Ok(Session { exp, account_id: AccountId(id) })
                } else {
                    Err(Error::Unauthorized)
                },
                None => Err(Error::CannotDecryptToken),
            }
        },
    }
}

/// The request-time authorization guard: turns the raw value of the
/// authorization header into a verified session, or rejects the request.
/// Side-effect-free and safe to evaluate repeatedly; it runs before any
/// handler logic on every mutating route.
pub fn auth(key: &[u8], header: Option<&String>, now: i64) -> (r: Result<Session, Error>)
    requires
        key@.len() == TOKEN_KEY_LEN,
    ensures
        r == spec_auth(
            key@,
            match header {
                Some(h) => Some(h@),
                None => None::<Seq<char>>,
            },
            now,
        ),
{
    match header {
        None => Err(Error::Unauthorized),
        Some(h) => {
            if h.as_str().is_empty() {
                return Err(Error::Unauthorized);
            }
            match verify_token(key, h.as_str()) {
                Ok(session) => if now < session.exp {
                    Ok(session)
                } else {
                    Err(Error::Unauthorized)
                },
                Err(e) => Err(e),
            }
        },
    }
}

/// A token that reads back as account `a` with expiry `now + ttl` is
/// accepted by the guard immediately after issuance: the guard yields a
/// session for exactly `a`, and that expiry lies strictly in the future.
pub proof fn lemma_issued_token_verifies(
    key: Seq<u8>,
    token: Seq<char>,
    account_id: i32,
    now: i64,
    ttl: i64,
)
    requires
        0 <= now < i64::MAX,
        0 < ttl,
        spec_token_claims(key, token) == Some((account_id, spec_expiry(now, ttl))),
    ensures
        spec_auth(key, Some(token), now) == Ok::<Session, Error>(
            Session { exp: spec_expiry(now, ttl), account_id: AccountId(account_id) },
        ),
        now < spec_expiry(now, ttl),
{
    if token.len() == 0 {
        assert(spec_hex_decode(token) == Some(Seq::<u8>::empty()));
    }
}

/// Two tokens that fail to decode — whatever made them fail, under
/// whatever keys, at whatever times — are rejected by the guard with one
/// and the same decode failure, which the responder answers as 401: no
/// observable detail distinguishes a tampered token from one issued
/// under a different key.
pub proof fn lemma_failing_tokens_indistinguishable(
    key1: Seq<u8>,
    token1: Seq<char>,
    now1: i64,
    key2: Seq<u8>,
    token2: Seq<char>,
    now2: i64,
)
    requires
        token1.len() > 0,
        token2.len() > 0,
        spec_token_claims(key1, token1) is None,
        spec_token_claims(key2, token2) is None,
    ensures
        spec_auth(key1, Some(token1), now1) == spec_auth(key2, Some(token2), now2),
        spec_auth(key1, Some(token1), now1) == Err::<Session, Error>(Error::CannotDecryptToken),
        crate::errors::spec_status(Error::CannotDecryptToken)
            == crate::errors::STATUS_UNAUTHORIZED,
{
}

/// A token decoded after its expiry has elapsed is rejected by the guard
/// as unauthorized, even though the raw decode still succeeds and still
/// names the account.
pub proof fn lemma_expired_token_rejected(
    key: Seq<u8>,
    token: Seq<char>,
    account_id: i32,
    exp: i64,
    now: i64,
)
    requires
        spec_token_claims(key, token) == Some((account_id, exp)),
        exp <= now,
    ensures
        spec_auth(key, Some(token), now) == Err::<Session, Error>(Error::Unauthorized),
{
    if token.len() == 0 {
        assert(spec_hex_decode(token) == Some(Seq::<u8>::empty()));
    }
}

} // verus!
