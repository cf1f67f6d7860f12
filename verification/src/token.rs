//! The token codec: issuance and verification of encrypted,
//! integrity-protected session tokens.
//!
//! A token carries an account identity and an absolute expiry.  The twelve
//! claim bytes are encrypted and authenticated under a server-held symmetric
//! key with XChaCha20-Poly1305; the fresh nonce and the ciphertext travel
//! together as one lower-case hex string.  Verification fails with one
//! indistinguishable error for every cause — tampering, a wrong key,
//! malformed framing — and deliberately does not look at the expiry: the
//! authorization guard compares the expiry against the clock, so that
//! "expired" and "forged" remain separable in principle.

use vstd::prelude::*;
use vstd::bytes::lemma_auto_spec_u32_to_from_le_bytes;
use vstd::bytes::lemma_auto_spec_u64_to_from_le_bytes;
use vstd::bytes::spec_u32_from_le_bytes;
use vstd::bytes::spec_u32_to_le_bytes;
use vstd::bytes::spec_u64_from_le_bytes;
use vstd::bytes::spec_u64_to_le_bytes;
use vstd::bytes::u32_from_le_bytes;
use vstd::bytes::u32_to_le_bytes;
use vstd::bytes::u64_from_le_bytes;
use vstd::bytes::u64_to_le_bytes;
use vstd::slice::slice_subrange;
use vstd::slice::slice_to_vec;
use vstd::string::StringSliceAdditionalSpecFns;
use chacha20poly1305::aead::Aead;
use chacha20poly1305::KeyInit;
use crate::account::AccountId;
use crate::account::Session;
use crate::errors::Error;
use crate::hex::hex_decode;
use crate::hex::hex_encode;
use crate::hex::lemma_hex_round_trip;
use crate::hex::spec_hex_decode;

verus! {

/// Length in bytes of the server-held symmetric key.
pub const TOKEN_KEY_LEN: usize = 32;

/// Length in bytes of the per-token nonce.
pub const TOKEN_NONCE_LEN: usize = 24;

/// Length in bytes of the encoded claims: account id, then expiry.
pub const CLAIMS_LEN: usize = 12;

/// What XChaCha20-Poly1305 authenticated decryption yields for a key, a
/// nonce and a ciphertext: the plaintext when the ciphertext is genuine
/// under that key and nonce, nothing otherwise.
pub uninterp spec fn aead_open(key: Seq<u8>, nonce: Seq<u8>, ct: Seq<u8>) -> Option<Seq<u8>>;

/// Relies on chacha20poly1305's `XChaCha20Poly1305` encryption: decrypting
/// the produced ciphertext with the same key and nonce yields the plaintext
/// back, the ciphertext is the plaintext plus the 16-byte Poly1305 tag, and
/// only over-long messages are refused.
#[verifier::external_body]
fn aead_encrypt(key: &[u8], nonce: &[u8], pt: &[u8]) -> (r: Result<Vec<u8>, ()>)
    requires
        key@.len() == TOKEN_KEY_LEN,
        nonce@.len() == TOKEN_NONCE_LEN,
    ensures
        r matches Ok(ct) ==> aead_open(key@, nonce@, ct@) == Some(pt@) && ct@.len() == pt@.len()
            + 16,
        pt@.len() < 0x4000_0000 ==> r is Ok,
{
    let key = match chacha20poly1305::Key::try_from(key) {
        Ok(k) => k,
        Err(_) => return Err(()),
    };
    let nonce = match chacha20poly1305::XNonce::try_from(nonce) {
        Ok(n) => n,
        Err(_) => return Err(()),
    };
    let cipher = chacha20poly1305::XChaCha20Poly1305::new(&key);
    cipher.encrypt(&nonce, pt).map_err(|_| ())
}

/// Relies on chacha20poly1305's `XChaCha20Poly1305` decryption: what it
/// yields is a function of key, nonce and ciphertext alone, named
/// [`aead_open`], and it fails exactly where [`aead_open`] yields nothing.
#[verifier::external_body]
fn aead_decrypt(key: &[u8], nonce: &[u8], ct: &[u8]) -> (r: Result<Vec<u8>, ()>)
    requires
        key@.len() == TOKEN_KEY_LEN,
        nonce@.len() == TOKEN_NONCE_LEN,
    ensures
        r matches Ok(pt) ==> aead_open(key@, nonce@, ct@) == Some(pt@),
        r is Err ==> aead_open(key@, nonce@, ct@) is None,
{
    let key = match chacha20poly1305::Key::try_from(key) {
        Ok(k) => k,
        Err(_) => return Err(()),
    };
    let nonce = match chacha20poly1305::XNonce::try_from(nonce) {
        Ok(n) => n,
        Err(_) => return Err(()),
    };
    let cipher = chacha20poly1305::XChaCha20Poly1305::new(&key);
    cipher.decrypt(&nonce, ct).map_err(|_| ())
}

/// The fixed-size key the codec uses, derived from the configured
/// secret: the secret's first bytes, zero-padded or cut to the key
/// length.
pub fn token_key_bytes(secret: &str) -> (r: Vec<u8>)
    ensures
        r@.len() == TOKEN_KEY_LEN,
        forall|i: int|
            0 <= i < TOKEN_KEY_LEN ==> #[trigger] r@[i] == (if i < secret.spec_bytes().len() {
                secret.spec_bytes()[i]
            } else {
                0u8
            }),
{
    let bytes: &[u8] = secret.as_bytes();
    let mut key: Vec<u8> = Vec::new();
    let mut i: usize = 0;
    while i < TOKEN_KEY_LEN
        invariant
            0 <= i <= TOKEN_KEY_LEN,
            bytes@ == secret.spec_bytes(),
            key@.len() == i,
            forall|j: int|
                0 <= j < i ==> #[trigger] key@[j] == (if j < bytes@.len() {
                    bytes@[j]
                } else {
                    0u8
                }),
        decreases TOKEN_KEY_LEN - i,
    {
        if i < bytes.len() {
            let b: u8 = *vstd::slice::slice_index_get(bytes, i);
            key.push(b);
        } else {
            key.push(0);
        }
        i = i + 1;
    }
    key
}

/// The byte encoding of a session's claims: the account id as four
/// little-endian bytes, then the expiry as eight.
pub open spec fn spec_claims_bytes(account_id: i32, exp: i64) -> Seq<u8>
    recommends
        0 <= account_id,
        0 <= exp,
{
    spec_u32_to_le_bytes(account_id as u32) + spec_u64_to_le_bytes(exp as u64)
}

/// The claims a decrypted plaintext carries: twelve bytes whose two
/// fields are in range, or nothing.
pub open spec fn spec_parse_claims(pt: Seq<u8>) -> Option<(i32, i64)> {
    if pt.len() == CLAIMS_LEN {
        let id = spec_u32_from_le_bytes(pt.subrange(0, 4));
        let exp = spec_u64_from_le_bytes(pt.subrange(4, 12));
        if id <= i32::MAX as u32 && exp <= i64::MAX as u64 {
            Some((id as i32, exp as i64))
        } else {
            None
        }
    } else {
        None
    }
}

/// Parsing the claim bytes recovers the claims that produced them.
pub proof fn lemma_claims_round_trip(account_id: i32, exp: i64)
    requires
        0 <= account_id,
        0 <= exp,
    ensures
        spec_parse_claims(spec_claims_bytes(account_id, exp)) == Some((account_id, exp)),
{
    lemma_auto_spec_u32_to_from_le_bytes();
    lemma_auto_spec_u64_to_from_le_bytes();
    let b = spec_claims_bytes(account_id, exp);
    assert(b.subrange(0, 4) =~= spec_u32_to_le_bytes(account_id as u32));
    assert(b.subrange(4, 12) =~= spec_u64_to_le_bytes(exp as u64));
}

/// The claims a token string carries under a key: the hex unframing, the
/// nonce/ciphertext split, the authenticated decryption and the claims
/// parse, composed.  `None` for every token that is not the faithful
/// framing of a ciphertext genuine under `key`.
pub open spec fn spec_token_claims(key: Seq<u8>, token: Seq<char>) -> Option<(i32, i64)> {
    match spec_hex_decode(token) {
        Some(bytes) => if bytes.len() >= TOKEN_NONCE_LEN {
            match aead_open(
                key,
                bytes.subrange(0, TOKEN_NONCE_LEN as int),
                bytes.subrange(TOKEN_NONCE_LEN as int, bytes.len() as int),
            ) {
                Some(pt) => spec_parse_claims(pt),
                None => None,
            }
        } else {
            None
        },
        None => None,
    }
}

/// The absolute expiry of a token issued at `now` with life `ttl`,
/// saturating at the largest representable time.
pub open spec fn spec_expiry(now: i64, ttl: i64) -> i64 {
    if now + ttl <= i64::MAX {
        (now + ttl) as i64
    } else {
        i64::MAX
    }
}

/// Issues a session token: encrypts the account identity and the absolute
/// expiry `now + ttl` under the server key with the caller-supplied fresh
/// nonce, and frames nonce and ciphertext as one opaque hex string.  The
/// token it returns reads back, under the same key, as exactly those
/// claims.
pub fn issue_token(key: &[u8], nonce: &[u8], account_id: AccountId, now: i64, ttl: i64) -> (r:
    String)
    requires
        key@.len() == TOKEN_KEY_LEN,
        nonce@.len() == TOKEN_NONCE_LEN,
        0 <= account_id.0,
        0 <= now,
        0 < ttl,
    ensures
        spec_token_claims(key@, r@) == Some((account_id.0, spec_expiry(now, ttl))),
{
    let exp: i64 = if now > i64::MAX - ttl {
        i64::MAX
    } else {
        now + ttl
    };
    let mut pt: Vec<u8> = u32_to_le_bytes(account_id.0 as u32);
    let mut exp_bytes: Vec<u8> = u64_to_le_bytes(exp as u64);
    pt.append(&mut exp_bytes);
    proof {
        assert(pt@ =~= spec_claims_bytes(account_id.0, exp));
    }
    let ct: Vec<u8> = match aead_encrypt(key, nonce, pt.as_slice()) {
        Ok(c) => c,
        Err(_) => vstd::pervasive::unreached(),
    };
    let ghost ct_view = ct@;
    let mut token_bytes: Vec<u8> = slice_to_vec(nonce);
    let mut ct_tail: Vec<u8> = ct;
    token_bytes.append(&mut ct_tail);
    let token = hex_encode(&token_bytes);
    proof {
        lemma_hex_round_trip(token_bytes@);
        assert(token_bytes@.subrange(0, TOKEN_NONCE_LEN as int) =~= nonce@);
        assert(token_bytes@.subrange(TOKEN_NONCE_LEN as int, token_bytes@.len() as int)
            =~= ct_view);
        lemma_claims_round_trip(account_id.0, exp);
    }
    token
}

/// What verification yields for a token under a key: the session whose
/// claims the token carries, or the one decode failure.
pub open spec fn spec_verify_token(key: Seq<u8>, token: Seq<char>) -> Result<Session, Error> {
    match spec_token_claims(key, token) {
        Some((id, exp)) => Ok(Session { exp, account_id: AccountId(id) }),
        None => Err(Error::CannotDecryptToken),
    }
}

/// Verifies a session token: yields the session it encodes whenever the
/// token is genuine under `key`, and the one decode failure otherwise.
/// Expiry is deliberately not checked here; the authorization guard
/// compares it against the clock.
pub fn verify_token(key: &[u8], token: &str) -> (r: Result<Session, Error>)
    requires
        key@.len() == TOKEN_KEY_LEN,
    ensures
        r == spec_verify_token(key@, token@),
{
    let bytes: Vec<u8> = match hex_decode(token) {
        Some(b) => b,
        None => return Err(Error::CannotDecryptToken),
    };
    if bytes.len() < TOKEN_NONCE_LEN {
        return Err(Error::CannotDecryptToken);
    }
    let nonce: &[u8] = slice_subrange(bytes.as_slice(), 0, TOKEN_NONCE_LEN);
    let ct: &[u8] = slice_subrange(bytes.as_slice(), TOKEN_NONCE_LEN, bytes.len());
    let pt: Vec<u8> = match aead_decrypt(key, nonce, ct) {
        Ok(p) => p,
        Err(_) => return Err(Error::CannotDecryptToken),
    };
    if pt.len() != CLAIMS_LEN {
        return Err(Error::CannotDecryptToken);
    }
    let id_bits: u32 = u32_from_le_bytes(slice_subrange(pt.as_slice(), 0, 4));
    let exp_bits: u64 = u64_from_le_bytes(slice_subrange(pt.as_slice(), 4, 12));
    if id_bits > 0x7FFF_FFFF {
        return Err(Error::CannotDecryptToken);
    }
    if exp_bits > 0x7FFF_FFFF_FFFF_FFFF {
        return Err(Error::CannotDecryptToken);
    }
    Ok(Session { exp: exp_bits as i64, account_id: AccountId(id_bits as i32) })
}

/// Every failing token fails the same way: whatever made the claims
/// unreadable under whatever key — flipped bytes, a different key,
/// malformed framing — the verifier's answer is one and the same decode
/// failure, revealing nothing about the cause.
pub proof fn lemma_decode_failure_uniform(
    key1: Seq<u8>,
    token1: Seq<char>,
    key2: Seq<u8>,
    token2: Seq<char>,
)
    requires
        spec_token_claims(key1, token1) is None,
        spec_token_claims(key2, token2) is None,
    ensures
        spec_verify_token(key1, token1) == spec_verify_token(key2, token2),
        spec_verify_token(key1, token1) == Err::<Session, Error>(Error::CannotDecryptToken),
{
}

} // verus!
