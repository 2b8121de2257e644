use vstd::prelude::*;
use vstd::string::{StringExecFns, StringSliceAdditionalSpecFns};
use vstd::utf8::{
    decode_utf8, decode_utf8_encode_utf8, encode_utf8, encode_utf8_decode_utf8, encode_utf8_valid_utf8,
    valid_utf8,
};

use aes_gcm::aead::Aead;
use aes_gcm::{Aes256Gcm, KeyInit, Nonce};
use argon2::{Argon2, PasswordHash, PasswordHasher, PasswordVerifier};
use argon2::password_hash::SaltString;
use base64::Engine;
use bip39::{Language, Mnemonic};
use rand::RngCore;

use crate::error::{AppError, Result};

verus! {

/// Rounds of PBKDF2 used to stretch a password into a cipher key.
pub const PBKDF2_ITERATIONS: u32 = 100_000;

/// Length of the symmetric key, in bytes.
pub const AES_KEY_SIZE: usize = 32;

/// Length of the cipher nonce, in bytes.
pub const NONCE_SIZE: usize = 12;

/// Length of every salt, in bytes.
pub const SALT_SIZE: usize = 32;

/// Length of the authentication tag that follows the ciphertext, in bytes.
pub const TAG_SIZE: usize = 16;

/// Length of the random entropy behind a fresh seed phrase, in bytes.
pub const ENTROPY_SIZE: usize = 32;

/// Longest plaintext the cipher seals, in bytes.
pub const MAX_PLAINTEXT: u64 = 0x10_0000_0000;

/// Length of the header (salt and nonce) in front of every ciphertext.
pub open spec fn header_len() -> int {
    SALT_SIZE + NONCE_SIZE
}

// ---------------------------------------------------------------------------
// Names for what the outside primitives compute.

/// What PBKDF2-HMAC-SHA256 yields for a password, a salt, a round count and an
/// output length.
pub uninterp spec fn pbkdf2_sha256(password: Seq<char>, salt: Seq<u8>, rounds: u32, len: usize) -> Seq<u8>;

/// What AES-256-GCM encryption yields for a key, a nonce and a plaintext: the
/// ciphertext followed by its tag.
pub uninterp spec fn aes_gcm_sealed(key: Seq<u8>, nonce: Seq<u8>, plaintext: Seq<u8>) -> Seq<u8>;

/// What AES-256-GCM decryption yields for a key, a nonce and a ciphertext with
/// its tag: the plaintext, or nothing when authentication fails.
pub uninterp spec fn aes_gcm_open(key: Seq<u8>, nonce: Seq<u8>, sealed: Seq<u8>) -> Option<Seq<u8>>;

/// What standard, padded base64 decoding yields for a text.
pub uninterp spec fn base64_decoded(text: Seq<char>) -> Option<Seq<u8>>;

/// Whether a text parses as a PHC password-hash string.
pub uninterp spec fn phc_parses(hash: Seq<char>) -> bool;

/// Whether Argon2 accepts a password against a PHC password-hash string.
pub uninterp spec fn argon2_accepts(password: Seq<char>, hash: Seq<char>) -> bool;

/// Whether a text is an English BIP39 phrase with a valid checksum.
pub uninterp spec fn bip39_parses(phrase: Seq<char>) -> bool;

/// The English BIP39 phrase that encodes the given entropy.
pub uninterp spec fn bip39_phrase(entropy: Seq<u8>) -> Seq<char>;

/// The 64-byte binary seed of a BIP39 phrase, with the empty passphrase.
pub uninterp spec fn bip39_seed(phrase: Seq<char>) -> Seq<u8>;

// ---------------------------------------------------------------------------
// What the library computes from them.

/// The cipher key for a password and a salt.
pub open spec fn derived_key(password: Seq<char>, salt: Seq<u8>) -> Seq<u8> {
    pbkdf2_sha256(password, salt, PBKDF2_ITERATIONS, AES_KEY_SIZE)
}

/// The plaintext inside a decoded frame `salt ‖ nonce ‖ ciphertext`, if the
/// frame is long enough and authenticates under the password.
pub open spec fn open_frame(frame: Seq<u8>, password: Seq<char>) -> Option<Seq<u8>> {
    if frame.len() < header_len() {
        None
    } else {
        aes_gcm_open(
            derived_key(password, frame.subrange(0, SALT_SIZE as int)),
            frame.subrange(SALT_SIZE as int, header_len()),
            frame.subrange(header_len(), frame.len() as int),
        )
    }
}

/// The plaintext bytes inside a base64 blob, under a password.
pub open spec fn open_blob(blob: Seq<char>, password: Seq<char>) -> Option<Seq<u8>> {
    match base64_decoded(blob) {
        Some(frame) => open_frame(frame, password),
        None => None,
    }
}

/// The text inside a base64 blob, under a password: its plaintext read as UTF-8.
pub open spec fn open_text(blob: Seq<char>, password: Seq<char>) -> Option<Seq<char>> {
    match open_blob(blob, password) {
        Some(p) => if valid_utf8(p) {
            Some(decode_utf8(p))
        } else {
            None
        },
        None => None,
    }
}

/// The frame `salt ‖ nonce ‖ ciphertext` that sealing `plaintext` under
/// `password` with the given salt and nonce produces.
pub open spec fn sealed_frame(salt: Seq<u8>, nonce: Seq<u8>, plaintext: Seq<u8>, password: Seq<char>) -> Seq<u8> {
    salt + nonce + aes_gcm_sealed(derived_key(password, salt), nonce, plaintext)
}

/// A blob is the base64 of the frame that sealing `plaintext` under `password`
/// produces with some salt and nonce of the right lengths.
pub open spec fn frames(blob: Seq<char>, plaintext: Seq<u8>, password: Seq<char>) -> bool {
    exists|salt: Seq<u8>, nonce: Seq<u8>|
        salt.len() == SALT_SIZE && nonce.len() == NONCE_SIZE && base64_decoded(blob) == Some(
            #[trigger] sealed_frame(salt, nonce, plaintext, password),
        )
}

/// The one error every failed decryption gives, whatever the cause.
pub open spec fn is_decryption_failure(e: AppError) -> bool {
    e is Cryptography && e.detail() == "Decryption failed"@
}

/// A blob is a well-formed sealing of `plaintext`: it decodes to a frame of
/// header, ciphertext and tag, and opens to the plaintext under the password.
pub open spec fn seals(blob: Seq<char>, plaintext: Seq<u8>, password: Seq<char>) -> bool {
    &&& base64_decoded(blob) is Some
    &&& base64_decoded(blob)->0.len() == header_len() + plaintext.len() + TAG_SIZE
    &&& open_blob(blob, password) == Some(plaintext)
}

/// What verifying a password against a stored hash yields: nothing when the
/// hash string is malformed, else whether the password matches.
pub open spec fn verify_outcome(password: Seq<char>, hash: Seq<char>) -> Option<bool> {
    if phc_parses(hash) {
        Some(argon2_accepts(password, hash))
    } else {
        None
    }
}

/// A hash string that was produced for `password`.
pub open spec fn hashes(hash: Seq<char>, password: Seq<char>) -> bool {
    phc_parses(hash) && argon2_accepts(password, hash)
}

/// Entropy lengths that BIP39 encodes: 16 to 32 bytes, in steps of 4.
pub open spec fn valid_entropy_len(n: nat) -> bool {
    16 <= n <= 32 && n % 4 == 0
}

// ---------------------------------------------------------------------------
// Trusted wrappers around the outside crates.

/// Relies on rand's `OsRng::try_fill_bytes`: on success, `len` bytes from the
/// operating system's generator.
#[verifier::external_body]
fn random_bytes(len: usize) -> (r: Option<Vec<u8>>)
    ensures
        r matches Some(b) ==> b@.len() == len,
{
    let mut b = vec![0u8; len];
    rand::rngs::OsRng.try_fill_bytes(&mut b).ok().map(|_| b)
}

/// Relies on pbkdf2's `pbkdf2_hmac::<Sha256>`: fills `len` bytes, the same for
/// the same password, salt and round count.
#[verifier::external_body]
fn pbkdf2_hmac_sha256(password: &str, salt: &[u8], rounds: u32, len: usize) -> (r: Vec<u8>)
    ensures
        r@ == pbkdf2_sha256(password@, salt@, rounds, len),
        r@.len() == len,
{
    let mut key = vec![0u8; len];
    pbkdf2::pbkdf2_hmac::<sha2::Sha256>(password.as_bytes(), salt, rounds, &mut key);
    key
}

/// Relies on aes_gcm's `Aead::encrypt` for `Aes256Gcm` (empty associated
/// data): it fails only past the plaintext limit, appends a 16-byte tag, and
/// what it returns opens again under the same key and nonce.
#[verifier::external_body]
fn aes_gcm_seal(key: &[u8], nonce: &[u8], plaintext: &[u8]) -> (r: Option<Vec<u8>>)
    requires
        key@.len() == AES_KEY_SIZE,
        nonce@.len() == NONCE_SIZE,
    ensures
        r is Some <==> plaintext@.len() <= MAX_PLAINTEXT,
        r matches Some(c) ==> c@ == aes_gcm_sealed(key@, nonce@, plaintext@),
        r matches Some(c) ==> c@.len() == plaintext@.len() + TAG_SIZE,
        r matches Some(c) ==> aes_gcm_open(key@, nonce@, c@) == Some(plaintext@),
{
    let cipher = Aes256Gcm::new(aes_gcm::Key::<Aes256Gcm>::from_slice(key));
    cipher.encrypt(Nonce::from_slice(nonce), plaintext).ok()
}

/// Relies on aes_gcm's `Aead::decrypt` for `Aes256Gcm` (empty associated
/// data): the plaintext, the input cut before its 16-byte tag, when the tag
/// authenticates; else an error.
#[verifier::external_body]
fn aes_gcm_decrypt(key: &[u8], nonce: &[u8], sealed: &[u8]) -> (r: Option<Vec<u8>>)
    requires
        key@.len() == AES_KEY_SIZE,
        nonce@.len() == NONCE_SIZE,
    ensures
        r matches Some(p) ==> p@.len() + TAG_SIZE == sealed@.len(),
        r is Some <==> aes_gcm_open(key@, nonce@, sealed@) is Some,
        r matches Some(p) ==> aes_gcm_open(key@, nonce@, sealed@) == Some(p@),
{
    let cipher = Aes256Gcm::new(aes_gcm::Key::<Aes256Gcm>::from_slice(key));
    cipher.decrypt(Nonce::from_slice(nonce), sealed).ok()
}

/// Relies on base64's `STANDARD` engine `encode`: the text decodes back to the
/// same bytes.
#[verifier::external_body]
pub(crate) fn base64_encode(b: &[u8]) -> (r: String)
    ensures
        base64_decoded(r@) == Some(b@),
{
    base64::engine::general_purpose::STANDARD.encode(b)
}

/// Relies on base64's `STANDARD` engine `decode`: the bytes, or an error for
/// text that is not padded standard base64.
#[verifier::external_body]
pub(crate) fn base64_decode(s: &str) -> (r: Option<Vec<u8>>)
    ensures
        r is Some <==> base64_decoded(s@) is Some,
        r matches Some(b) ==> base64_decoded(s@) == Some(b@),
{
    base64::engine::general_purpose::STANDARD.decode(s).ok()
}

/// Relies on `String::from_utf8`: succeeds exactly on valid UTF-8, and the
/// string holds the characters those bytes encode.
#[verifier::external_body]
fn string_from_utf8(b: Vec<u8>) -> (r: Option<String>)
    ensures
        r is Some <==> valid_utf8(b@),
        r matches Some(s) ==> s@ == decode_utf8(b@),
{
    String::from_utf8(b).ok()
}

/// Relies on argon2's `PasswordHasher::hash_password` with default parameters,
/// the salt given as base64 by `SaltString::encode_b64`: salts of 8 to 48 bytes
/// only (below 3 bytes the salt text is too short and hashing panics). It
/// succeeds for passwords under 4 GiB, and the PHC string it returns parses
/// and accepts the password.
#[verifier::external_body]
fn argon2_hash(password: &str, salt: &[u8]) -> (r: Option<String>)
    requires
        8 <= salt@.len() <= 48,
    ensures
        password.spec_bytes().len() <= 0xFFFF_FFFF ==> r is Some,
        r matches Some(h) ==> phc_parses(h@) && argon2_accepts(password@, h@),
{
    let salt = SaltString::encode_b64(salt).ok()?;
    let hash = Argon2::default().hash_password(password.as_bytes(), &salt).ok()?;
    Some(hash.to_string())
}

/// Relies on password_hash's `PasswordHash::new`, which parses the PHC string,
/// and argon2's `PasswordVerifier::verify_password`, which checks the password
/// against it.
#[verifier::external_body]
fn argon2_verify(password: &str, hash: &str) -> (r: Option<bool>)
    ensures
        r is Some <==> phc_parses(hash@),
        r matches Some(b) ==> b == argon2_accepts(password@, hash@),
{
    let parsed = PasswordHash::new(hash).ok()?;
    Some(Argon2::default().verify_password(password.as_bytes(), &parsed).is_ok())
}

/// Relies on bip39's `Mnemonic::from_entropy` and its `Display`: it accepts
/// 16 to 32 bytes in steps of 4, and the phrase it writes parses again.
#[verifier::external_body]
fn bip39_from_entropy(entropy: &[u8]) -> (r: Option<String>)
    ensures
        r is Some <==> valid_entropy_len(entropy@.len()),
        r matches Some(p) ==> p@ == bip39_phrase(entropy@),
        r matches Some(p) ==> bip39_parses(p@),
{
    Mnemonic::from_entropy(entropy).ok().map(|m| m.to_string())
}

/// Relies on bip39's `Mnemonic::parse_in_normalized` for English.
#[verifier::external_body]
fn bip39_parse(phrase: &str) -> (r: bool)
    ensures
        r == bip39_parses(phrase@),
{
    Mnemonic::parse_in_normalized(Language::English, phrase).is_ok()
}

/// Relies on bip39's `Mnemonic::parse_in_normalized` for English and
/// `Mnemonic::to_seed_normalized` with the empty passphrase: 64 bytes.
#[verifier::external_body]
fn bip39_to_seed(phrase: &str) -> (r: Option<Vec<u8>>)
    ensures
        r is Some <==> bip39_parses(phrase@),
        r matches Some(s) ==> s@ == bip39_seed(phrase@) && s@.len() == 64,
{
    let m = Mnemonic::parse_in_normalized(Language::English, phrase).ok()?;
    Some(m.to_seed_normalized("").to_vec())
}

// ---------------------------------------------------------------------------

/// Copies `b` onto the end of `out`.
fn append_bytes(out: &mut Vec<u8>, b: &[u8])
    ensures
        final(out)@ == old(out)@ + b@,
{
    let mut i: usize = 0;
    while i < b.len()
        invariant
            i <= b@.len(),
            out@ == old(out)@ + b@.subrange(0, i as int),
        decreases b@.len() - i,
    {
        out.push(b[i]);
        i = i + 1;
        assert(b@.subrange(0, i as int) == b@.subrange(0, i - 1) + seq![b@[i - 1]]);
    }
    assert(b@.subrange(0, b@.len() as int) == b@);
}

/// Copies the bytes `b[from..to]` into a fresh vector.
fn copy_range(b: &[u8], from: usize, to: usize) -> (r: Vec<u8>)
    requires
        from <= to <= b@.len(),
    ensures
        r@ == b@.subrange(from as int, to as int),
{
    let mut r: Vec<u8> = Vec::new();
    let mut i: usize = from;
    while i < to
        invariant
            from <= i <= to,
            to <= b@.len(),
            r@ == b@.subrange(from as int, i as int),
        decreases to - i,
    {
        r.push(b[i]);
        i = i + 1;
        assert(b@.subrange(from as int, i as int) == b@.subrange(from as int, i - 1) + seq![b@[i - 1]]);
    }
    r
}

fn decryption_failed() -> (e: AppError)
    ensures
        is_decryption_failure(e),
{
    proof {
        reveal_strlit("Decryption failed");
    }
    AppError::Cryptography(String::from_str("Decryption failed"))
}

fn crypto_error(detail: &str) -> (e: AppError)
    ensures
        e is Cryptography,
{
    AppError::Cryptography(String::from_str(detail))
}

/// Password hashing, seed phrases, and password-based authenticated encryption.
pub struct CryptoService;

impl CryptoService {
    /// Stretches a password and a salt into a 32-byte cipher key.
    pub fn derive_key(password: &str, salt: &[u8]) -> (r: Vec<u8>)
        ensures
            r@ == derived_key(password@, salt@),
            r@.len() == AES_KEY_SIZE,
    {
        pbkdf2_hmac_sha256(password, salt, PBKDF2_ITERATIONS, AES_KEY_SIZE)
    }

    /// Seals `data` under `password` with the given salt and nonce, and returns
    /// the base64 of `salt ‖ nonce ‖ ciphertext`.
    pub fn encrypt_bytes_with(data: &[u8], password: &str, salt: &[u8], nonce: &[u8]) -> (r: Result<String>)
        requires
            salt@.len() == SALT_SIZE,
            nonce@.len() == NONCE_SIZE,
        ensures
            r is Ok <==> data@.len() <= MAX_PLAINTEXT,
            r matches Ok(blob) ==> seals(blob@, data@, password@),
            r matches Ok(blob) ==> base64_decoded(blob@) == Some(sealed_frame(salt@, nonce@, data@, password@)),
            r matches Err(e) ==> e is Cryptography,
    {
        let key = Self::derive_key(password, salt);
        let sealed = match aes_gcm_seal(key.as_slice(), nonce, data) {
            Some(c) => c,
            None => return Err(crypto_error("Encryption failed")),
        };
        let mut frame: Vec<u8> = Vec::new();
        append_bytes(&mut frame, salt);
        append_bytes(&mut frame, nonce);
        append_bytes(&mut frame, sealed.as_slice());
        let blob = base64_encode(frame.as_slice());
        proof {
            let f = frame@;
            assert(f.subrange(0, SALT_SIZE as int) == salt@);
            assert(f.subrange(SALT_SIZE as int, header_len()) == nonce@);
            assert(f.subrange(header_len(), f.len() as int) == sealed@);
            assert(f == sealed_frame(salt@, nonce@, data@, password@));
        }
        Ok(blob)
    }

    /// Seals `data` under `password` with a fresh random salt and nonce.
    pub fn encrypt_bytes(data: &[u8], password: &str) -> (r: Result<String>)
        ensures
            data@.len() > MAX_PLAINTEXT ==> r is Err,
            r matches Ok(blob) ==> seals(blob@, data@, password@),
            r matches Ok(blob) ==> frames(blob@, data@, password@),
            r matches Err(e) ==> e is Cryptography,
    {
        let salt = match random_bytes(SALT_SIZE) {
            Some(s) => s,
            None => return Err(crypto_error("Random generator failed")),
        };
        let nonce = match random_bytes(NONCE_SIZE) {
            Some(n) => n,
            None => return Err(crypto_error("Random generator failed")),
        };
        Self::encrypt_bytes_with(data, password, salt.as_slice(), nonce.as_slice())
    }

    /// Opens a blob made by `encrypt_bytes`. Bad base64, a frame too short for
    /// its header and a failed authentication all give the same error.
    pub fn decrypt_bytes(encrypted_data: &str, password: &str) -> (r: Result<Vec<u8>>)
        ensures
            r is Ok <==> open_blob(encrypted_data@, password@) is Some,
            r matches Ok(p) ==> open_blob(encrypted_data@, password@) == Some(p@),
            r matches Ok(p) ==> base64_decoded(encrypted_data@)->0.len() == header_len() + p@.len() + TAG_SIZE,
            r matches Err(e) ==> is_decryption_failure(e),
    {
        let data = match base64_decode(encrypted_data) {
            Some(d) => d,
            None => return Err(decryption_failed()),
        };
        if data.len() < SALT_SIZE + NONCE_SIZE {
            return Err(decryption_failed());
        }
        let salt = copy_range(data.as_slice(), 0, SALT_SIZE);
        let nonce = copy_range(data.as_slice(), SALT_SIZE, SALT_SIZE + NONCE_SIZE);
        let sealed = copy_range(data.as_slice(), SALT_SIZE + NONCE_SIZE, data.len());
        let key = Self::derive_key(password, salt.as_slice());
        match aes_gcm_decrypt(key.as_slice(), nonce.as_slice(), sealed.as_slice()) {
            Some(p) => Ok(p),
            None => Err(decryption_failed()),
        }
    }

    /// Encrypts a text under a password (its UTF-8 bytes, sealed as by
    /// `encrypt_bytes`).
    pub fn encrypt(data: &str, password: &str) -> (r: Result<String>)
        ensures
            data.spec_bytes().len() > MAX_PLAINTEXT ==> r is Err,
            r matches Ok(blob) ==> seals(blob@, encode_utf8(data@), password@),
            r matches Ok(blob) ==> frames(blob@, data.spec_bytes(), password@),
            r matches Ok(blob) ==> open_text(blob@, password@) == Some(data@),
            r matches Err(e) ==> e is Cryptography,
    {
        let r = Self::encrypt_bytes(data.as_bytes(), password);
        proof {
            encode_utf8_valid_utf8(data@);
            encode_utf8_decode_utf8(data@);
        }
        r
    }

    /// Decrypts a blob made by `encrypt` back to its text. Every failure is
    /// the same `Cryptography` error.
    pub fn decrypt(encrypted_data: &str, password: &str) -> (r: Result<String>)
        ensures
            r is Ok <==> open_text(encrypted_data@, password@) is Some,
            r matches Ok(s) ==> open_text(encrypted_data@, password@) == Some(s@),
            r matches Ok(s) ==> base64_decoded(encrypted_data@)->0.len() == header_len() + encode_utf8(s@).len() + TAG_SIZE,
            r matches Err(e) ==> is_decryption_failure(e),
    {
        let plain = Self::decrypt_bytes(encrypted_data, password)?;
        let ghost p = plain@;
        proof {
            if valid_utf8(p) {
                decode_utf8_encode_utf8(p);
            }
        }
        match string_from_utf8(plain) {
            Some(s) => Ok(s),
            None => Err(decryption_failed()),
        }
    }

    /// Hashes a password with Argon2 under a given salt; a salt outside 8 to 48
    /// bytes is a `Cryptography` error.
    pub fn hash_password_with(password: &str, salt: &[u8]) -> (r: Result<String>)
        ensures
            !(8 <= salt@.len() <= 48) ==> r is Err,
            8 <= salt@.len() <= 48 && password.spec_bytes().len() <= 0xFFFF_FFFF ==> r is Ok,
            r matches Ok(h) ==> hashes(h@, password@),
            r matches Err(e) ==> e is Cryptography,
    {
        if salt.len() < 8 || salt.len() > 48 {
            return Err(crypto_error("Invalid salt length"));
        }
        match argon2_hash(password, salt) {
            Some(h) => Ok(h),
            None => Err(crypto_error("Failed to hash password")),
        }
    }

    /// Hashes a password with Argon2 under a fresh random salt.
    pub fn hash_password(password: &str) -> (r: Result<String>)
        ensures
            r matches Ok(h) ==> hashes(h@, password@),
            r matches Err(e) ==> e is Cryptography,
    {
        let salt = match random_bytes(SALT_SIZE) {
            Some(s) => s,
            None => return Err(crypto_error("Random generator failed")),
        };
        Self::hash_password_with(password, salt.as_slice())
    }

    /// Checks a password against a stored hash: a malformed hash string is a
    /// `Cryptography` error, a mismatch is `Ok(false)`.
    pub fn verify_password(password: &str, hash: &str) -> (r: Result<bool>)
        ensures
            r is Ok <==> phc_parses(hash@),
            r matches Ok(b) ==> b == argon2_accepts(password@, hash@),
            r matches Err(e) ==> e is Cryptography,
    {
        match argon2_verify(password, hash) {
            Some(b) => Ok(b),
            None => Err(crypto_error("Invalid hash format")),
        }
    }

    /// The English phrase that encodes the given entropy.
    pub fn mnemonic_from_entropy(entropy: &[u8]) -> (r: Result<String>)
        ensures
            r is Ok <==> valid_entropy_len(entropy@.len()),
            r matches Ok(p) ==> p@ == bip39_phrase(entropy@) && bip39_parses(p@),
            r matches Err(e) ==> e is Cryptography,
    {
        match bip39_from_entropy(entropy) {
            Some(p) => Ok(p),
            None => Err(crypto_error("Failed to generate mnemonic")),
        }
    }

    /// A fresh seed phrase over 256 random bits.
    pub fn generate_mnemonic() -> (r: Result<String>)
        ensures
            r matches Ok(p) ==> bip39_parses(p@),
            r matches Ok(p) ==> exists|e: Seq<u8>| e.len() == ENTROPY_SIZE && p@ == #[trigger] bip39_phrase(e),
            r matches Err(e) ==> e is Cryptography,
    {
        let entropy = match random_bytes(ENTROPY_SIZE) {
            Some(e) => e,
            None => return Err(crypto_error("Random generator failed")),
        };
        Self::mnemonic_from_entropy(entropy.as_slice())
    }

    /// Whether a phrase is a valid English seed phrase; never an error.
    pub fn validate_mnemonic(mnemonic: &str) -> (r: Result<bool>)
        ensures
            r == Ok::<bool, AppError>(bip39_parses(mnemonic@)),
    {
        Ok(bip39_parse(mnemonic))
    }

    /// The 64-byte binary seed of a phrase; a phrase that does not parse is a
    /// `Cryptography` error.
    pub fn mnemonic_to_seed(mnemonic: &str) -> (r: Result<Vec<u8>>)
        ensures
            r is Ok <==> bip39_parses(mnemonic@),
            r matches Ok(s) ==> s@ == bip39_seed(mnemonic@) && s@.len() == 64,
            r matches Err(e) ==> e is Cryptography,
    {
        match bip39_to_seed(mnemonic) {
            Some(s) => Ok(s),
            None => Err(crypto_error("Invalid mnemonic")),
        }
    }
}

/// A blob sealed under a password opens, under that same password, to the
/// bytes that were sealed.
pub proof fn lemma_sealed_blob_opens(blob: Seq<char>, plaintext: Seq<u8>, password: Seq<char>)
    requires
        seals(blob, plaintext, password),
    ensures
        open_blob(blob, password) == Some(plaintext),
{
}

/// A sealed blob's decoded length is the 44-byte header plus the plaintext
/// plus the 16-byte tag, whatever salt and nonce were drawn.
pub proof fn lemma_sealed_blob_len(b1: Seq<char>, b2: Seq<char>, plaintext: Seq<u8>, password: Seq<char>)
    requires
        seals(b1, plaintext, password),
        seals(b2, plaintext, password),
    ensures
        base64_decoded(b1)->0.len() == base64_decoded(b2)->0.len(),
        base64_decoded(b1)->0.len() == header_len() + plaintext.len() + TAG_SIZE,
{
}

/// A hash made for a password verifies that password.
pub proof fn lemma_hash_verifies(password: Seq<char>, hash: Seq<char>)
    requires
        hashes(hash, password),
    ensures
        verify_outcome(password, hash) == Some(true),
{
}

} // verus!
