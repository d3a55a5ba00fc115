//! The envelope codec: authenticated encryption of a byte blob under a
//! password, into the self-contained form `cost || salt || nonce ||
//! ciphertext`. Decryption re-derives the key from the envelope's own cost
//! and salt, so only the password is a variable.

use vstd::prelude::*;
use vstd::slice::slice_subrange;

use aes_gcm_siv::aead::{Aead, Generate, KeyInit};
use aes_gcm_siv::Aes256GcmSiv;
use sha2::Digest;

use crate::errors::SrpkError;

verus! {

/// Smallest cost byte an envelope may carry.
pub const COST_MIN: u8 = 5;

/// Largest cost byte an envelope may carry.
pub const COST_MAX: u8 = 31;

/// Bytes of random salt stored in every envelope.
pub const SALT_LEN: usize = 16;

/// Bytes of random nonce stored in every envelope.
pub const NONCE_LEN: usize = 12;

/// Cost byte, salt and nonce: everything before the ciphertext.
pub const ENVELOPE_MIN_LEN: usize = 29;

/// Bytes the authentication tag adds to the plaintext.
pub const TAG_LEN: usize = 16;

/// Largest plaintext the cipher accepts, in bytes.
pub const PLAINTEXT_MAX: u64 = 0x1000000000;

/// A decrypted payload together with the cost byte its envelope carried.
pub struct CryptValue {
    pub value: Vec<u8>,
    pub cost: u8,
}

/// The bcrypt hash string produced from a password, a cost and a 16-byte
/// salt; a deterministic function of the three.
pub uninterp spec fn bcrypt_hash_str(pass: Seq<char>, cost: u8, salt: Seq<u8>) -> Seq<char>;

/// The 32-byte SHA-256 digest of the UTF-8 encoding of a string.
pub uninterp spec fn sha256_utf8(text: Seq<char>) -> Seq<u8>;

/// What AES-256-GCM-SIV decryption yields for a key, a nonce and a
/// ciphertext: the sealed plaintext when the tag authenticates, `None`
/// otherwise.
pub uninterp spec fn aead_open(key: Seq<u8>, nonce: Seq<u8>, ciphertext: Seq<u8>) -> Option<Seq<u8>>;

/// A cost byte the codec accepts.
pub open spec fn cost_valid(cost: u8) -> bool {
    COST_MIN <= cost && cost <= COST_MAX
}

/// The symmetric key a password derives to: the SHA-256 digest of the
/// bcrypt hash string.
pub open spec fn derived_key(pass: Seq<char>, cost: u8, salt: Seq<u8>) -> Seq<u8> {
    sha256_utf8(bcrypt_hash_str(pass, cost, salt))
}

/// The cost byte of an envelope.
pub open spec fn envelope_cost(env: Seq<u8>) -> u8 {
    env[0]
}

/// The salt bytes of an envelope.
pub open spec fn envelope_salt(env: Seq<u8>) -> Seq<u8> {
    env.subrange(1, 1 + SALT_LEN as int)
}

/// The nonce bytes of an envelope.
pub open spec fn envelope_nonce(env: Seq<u8>) -> Seq<u8> {
    env.subrange(1 + SALT_LEN as int, ENVELOPE_MIN_LEN as int)
}

/// The ciphertext bytes of an envelope.
pub open spec fn envelope_ciphertext(env: Seq<u8>) -> Seq<u8> {
    env.subrange(ENVELOPE_MIN_LEN as int, env.len() as int)
}

/// What decrypting an envelope with a password yields, once the envelope
/// parses: the key is re-derived from the envelope's own cost and salt, so
/// only the password is a variable.
pub open spec fn envelope_plaintext(env: Seq<u8>, pass: Seq<char>) -> Option<Seq<u8>> {
    aead_open(
        derived_key(pass, envelope_cost(env), envelope_salt(env)),
        envelope_nonce(env),
        envelope_ciphertext(env),
    )
}

/// Decryption of `env` under `pass` succeeds: the envelope is long enough,
/// its cost byte is in range, and the tag authenticates.
pub open spec fn decrypt_ok(env: Seq<u8>, pass: Seq<char>) -> bool {
    &&& env.len() >= ENVELOPE_MIN_LEN
    &&& cost_valid(envelope_cost(env))
    &&& envelope_plaintext(env, pass) is Some
}

/// What every envelope returned by encryption satisfies: it parses, carries
/// the requested cost, and decrypting it with the same password yields the
/// original plaintext.
pub open spec fn encrypt_post(env: Seq<u8>, pt: Seq<u8>, pass: Seq<char>, cost: u8) -> bool {
    &&& env.len() >= ENVELOPE_MIN_LEN
    &&& envelope_cost(env) == cost
    &&& envelope_ciphertext(env).len() == pt.len() + TAG_LEN
    &&& envelope_plaintext(env, pass) == Some(pt)
}

/// Relies on `Generate::try_generate` for `[u8; 16]` (via getrandom): fills
/// the salt from the operating system's secure random source. Nothing is
/// assumed about the bytes drawn.
#[verifier::external_body]
fn random_salt() -> (r: Option<Vec<u8>>)
    ensures
        r matches Some(b) ==> b@.len() == SALT_LEN,
{
    <[u8; 16] as Generate>::try_generate().ok().map(|b| b.to_vec())
}

/// Relies on `Generate::try_generate` for `[u8; 12]` (via getrandom): fills
/// the nonce from the operating system's secure random source. Nothing is
/// assumed about the bytes drawn.
#[verifier::external_body]
fn random_nonce() -> (r: Option<Vec<u8>>)
    ensures
        r matches Some(b) ==> b@.len() == NONCE_LEN,
{
    <[u8; 12] as Generate>::try_generate().ok().map(|b| b.to_vec())
}

/// Relies on `bcrypt::hash_with_salt` and `HashParts`'s display form: the
/// hash string is a deterministic function of password, cost and salt, and
/// the call fails exactly when the cost lies outside bcrypt's 4..=31 range.
#[verifier::external_body]
fn bcrypt_hash(pass: &str, cost: u8, salt: &[u8]) -> (r: Option<String>)
    requires
        salt@.len() == SALT_LEN,
    ensures
        match r {
            Some(h) => 4 <= cost <= 31 && h@ == bcrypt_hash_str(pass@, cost, salt@),
            None => !(4 <= cost <= 31),
        },
{
    let salt16: [u8; 16] = salt.try_into().ok()?;
    bcrypt::hash_with_salt(pass, cost as u32, salt16).ok().map(|h| h.to_string())
}

/// Relies on `sha2::Sha256::digest`: a 32-byte digest, a deterministic
/// function of the input bytes (here the UTF-8 encoding of the string).
#[verifier::external_body]
fn sha256_str(text: &str) -> (r: Vec<u8>)
    ensures
        r@ == sha256_utf8(text@),
        r@.len() == 32,
{
    sha2::Sha256::digest(text.as_bytes()).as_slice().to_vec()
}

/// Relies on `Aes256GcmSiv::new` and `Aead::encrypt`: seals the plaintext
/// under the key and nonce, appending a 16-byte tag; decryption of the
/// result under the same key and nonce yields the plaintext back. The call
/// fails exactly when the plaintext exceeds the cipher's length bound.
#[verifier::external_body]
fn aead_encrypt(key: &[u8], nonce: &[u8], pt: &[u8]) -> (r: Option<Vec<u8>>)
    requires
        key@.len() == 32,
        nonce@.len() == NONCE_LEN,
    ensures
        match r {
            Some(ct) => {
                &&& ct@.len() == pt@.len() + TAG_LEN
                &&& aead_open(key@, nonce@, ct@) == Some(pt@)
                &&& pt@.len() <= PLAINTEXT_MAX
            },
            None => pt@.len() > PLAINTEXT_MAX,
        },
{
    let key = aes_gcm_siv::Key::<Aes256GcmSiv>::try_from(key).ok()?;
    let nonce = aes_gcm_siv::Nonce::try_from(nonce).ok()?;
    Aes256GcmSiv::new(&key).encrypt(&nonce, pt).ok()
}

/// Relies on `Aes256GcmSiv::new` and `Aead::decrypt`: returns the sealed
/// plaintext exactly when the authentication tag verifies, i.e. the value
/// of `aead_open`.
#[verifier::external_body]
fn aead_decrypt(key: &[u8], nonce: &[u8], ct: &[u8]) -> (r: Option<Vec<u8>>)
    requires
        key@.len() == 32,
        nonce@.len() == NONCE_LEN,
    ensures
        match r {
            Some(pt) => aead_open(key@, nonce@, ct@) == Some(pt@),
            None => aead_open(key@, nonce@, ct@) is None,
        },
{
    let key = aes_gcm_siv::Key::<Aes256GcmSiv>::try_from(key).ok()?;
    let nonce = aes_gcm_siv::Nonce::try_from(nonce).ok()?;
    Aes256GcmSiv::new(&key).decrypt(&nonce, ct).ok()
}

/// Encrypt `plaintext` into an envelope using the given salt and nonce.
///
/// Success is owed whenever the plaintext is within the cipher's length
/// bound: salt and nonce are arguments here, so no random source can fail.
pub fn aes256_encrypt_with(
    plaintext: &Vec<u8>,
    pass: &str,
    cost: u8,
    salt: Vec<u8>,
    nonce: Vec<u8>,
) -> (r: Result<Vec<u8>, SrpkError>)
    requires
        cost_valid(cost),
        salt@.len() == SALT_LEN,
        nonce@.len() == NONCE_LEN,
    ensures
        match r {
            Ok(env) => {
                &&& encrypt_post(env@, plaintext@, pass@, cost)
                &&& envelope_salt(env@) == salt@
                &&& envelope_nonce(env@) == nonce@
            },
            Err(e) => e matches SrpkError::AES256Encrypt && plaintext@.len() > PLAINTEXT_MAX,
        },
{
    let hash = match bcrypt_hash(pass, cost, salt.as_slice()) {
        Some(h) => h,
        None => {
            assert(false);
            return Err(SrpkError::BCryptHash);
        },
    };
    let key = sha256_str(hash.as_str());
    let ciphertext = match aead_encrypt(key.as_slice(), nonce.as_slice(), plaintext.as_slice()) {
        Some(ct) => ct,
        None => {
            return Err(SrpkError::AES256Encrypt);
        },
    };

    let ghost salt_view = salt@;
    let ghost nonce_view = nonce@;
    let ghost ciphertext_view = ciphertext@;
    let mut env: Vec<u8> = Vec::new();
    env.push(cost);
    let mut salt = salt;
    let mut nonce = nonce;
    let mut ciphertext = ciphertext;
    env.append(&mut salt);
    env.append(&mut nonce);
    env.append(&mut ciphertext);

    proof {
        assert(envelope_salt(env@) =~= salt_view);
        assert(envelope_nonce(env@) =~= nonce_view);
        assert(envelope_ciphertext(env@) =~= ciphertext_view);
    }
    Ok(env)
}

/// Turn a byte blob into its encrypted envelope form using `pass`.
///
/// A fresh random salt and nonce are drawn for every call, so two calls on
/// identical inputs produce structurally different envelopes.
pub fn aes256_encrypt(plaintext: &Vec<u8>, pass: &str, cost: u8) -> (r: Result<Vec<u8>, SrpkError>)
    requires
        cost_valid(cost),
    ensures
        match r {
            Ok(env) => encrypt_post(env@, plaintext@, pass@, cost),
            Err(e) => match e {
                SrpkError::AES256Encrypt => plaintext@.len() > PLAINTEXT_MAX,
                // the operating system's random source failed
                SrpkError::Unknown => true,
                _ => false,
            },
        },
{
    let salt = match random_salt() {
        Some(s) => s,
        None => {
            return Err(SrpkError::Unknown);
        },
    };
    let nonce = match random_nonce() {
        Some(n) => n,
        None => {
            return Err(SrpkError::Unknown);
        },
    };
    aes256_encrypt_with(plaintext, pass, cost, salt, nonce)
}

/// Parse an envelope and return the original bytes, together with the cost
/// byte the envelope carried.
///
/// The key is re-derived from the envelope's own cost and salt, so only the
/// password is a variable; an authentication failure is the sole signal for
/// a wrong password and is indistinguishable from corrupted ciphertext.
pub fn aes256_decrypt(bytes: &[u8], pass: &str) -> (r: Result<CryptValue, SrpkError>)
    ensures
        match r {
            Ok(cv) => {
                &&& decrypt_ok(bytes@, pass@)
                &&& cv.cost == envelope_cost(bytes@)
                &&& Some(cv.value@) == envelope_plaintext(bytes@, pass@)
            },
            Err(e) => match e {
                SrpkError::MalformedEnvelope => bytes@.len() < ENVELOPE_MIN_LEN,
                SrpkError::BCryptHash => bytes@.len() >= ENVELOPE_MIN_LEN && !cost_valid(
                    envelope_cost(bytes@),
                ),
                SrpkError::AES256Decrypt => {
                    &&& bytes@.len() >= ENVELOPE_MIN_LEN
                    &&& cost_valid(envelope_cost(bytes@))
                    &&& envelope_plaintext(bytes@, pass@) is None
                },
                _ => false,
            },
        },
{
    if bytes.len() < ENVELOPE_MIN_LEN {
        return Err(SrpkError::MalformedEnvelope);
    }
    let cost: u8 = bytes[0];
    if cost < COST_MIN || cost > COST_MAX {
        return Err(SrpkError::BCryptHash);
    }
    let salt: &[u8] = slice_subrange(bytes, 1, 1 + SALT_LEN);
    let nonce: &[u8] = slice_subrange(bytes, 1 + SALT_LEN, ENVELOPE_MIN_LEN);
    let ciphertext: &[u8] = slice_subrange(bytes, ENVELOPE_MIN_LEN, bytes.len());

    let hash = match bcrypt_hash(pass, cost, salt) {
        Some(h) => h,
        None => {
            assert(false);
            return Err(SrpkError::BCryptHash);
        },
    };
    let key = sha256_str(hash.as_str());
    match aead_decrypt(key.as_slice(), nonce, ciphertext) {
        Some(value) => Ok(CryptValue { value, cost }),
        None => Err(SrpkError::AES256Decrypt),
    }
}

/// Round trip: decrypting any envelope that encryption produced, with the
/// password that produced it, succeeds and yields the original plaintext.
pub proof fn lemma_encrypt_decrypt_round_trip(env: Seq<u8>, pt: Seq<u8>, pass: Seq<char>, cost: u8)
    requires
        cost_valid(cost),
        encrypt_post(env, pt, pass, cost),
    ensures
        decrypt_ok(env, pass),
        envelope_plaintext(env, pass) == Some(pt),
        envelope_cost(env) == cost,
{
}

/// Envelope uniqueness, the decryption half: however the fresh salts and
/// nonces turned out, any two envelopes encryption produced from the same
/// plaintext, password and cost each decrypt back to that plaintext.
pub proof fn lemma_envelopes_both_decrypt(
    env1: Seq<u8>,
    env2: Seq<u8>,
    pt: Seq<u8>,
    pass: Seq<char>,
    cost: u8,
)
    requires
        cost_valid(cost),
        encrypt_post(env1, pt, pass, cost),
        encrypt_post(env2, pt, pass, cost),
    ensures
        decrypt_ok(env1, pass) && envelope_plaintext(env1, pass) == Some(pt),
        decrypt_ok(env2, pass) && envelope_plaintext(env2, pass) == Some(pt),
{
    lemma_encrypt_decrypt_round_trip(env1, pt, pass, cost);
    lemma_encrypt_decrypt_round_trip(env2, pt, pass, cost);
}

} // verus!
