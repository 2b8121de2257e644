use vstd::prelude::*;
use vstd::string::StringExecFns;

use crate::crypto::{
    argon2_accepts, base64_decode, base64_decoded, base64_encode, bip39_parses, bip39_seed, hashes,
    open_text, phc_parses,
    CryptoService, SALT_SIZE, NONCE_SIZE,
};
use crate::error::{AppError, Result};
use crate::user::{opt_view, CreateUserRequest, LoginRequest, User};

verus! {

/// Shortest password accepted at signup, in characters.
pub const MIN_PASSWORD_CHARS: usize = 8;

/// What signup hands back: the sealed seed phrase and a session token.
pub struct SignupResponse {
    pub encrypted_seed: String,
    pub token: String,
}

/// What login hands back.
pub struct LoginResponse {
    pub token: String,
}

/// A request to bind a node to the account: the sealed seed and its password.
pub struct NodeRegisterRequest {
    pub encrypted_seed: String,
    pub password: String,
}

/// A request to re-derive the node credential from the sealed seed.
pub struct NodeRecoverRequest {
    pub encrypted_seed: String,
    pub password: String,
}

/// The node credential as stored for the account.
pub struct NodeCredentialsResponse {
    pub encrypted_device_creds: String,
}

/// The secret material of a new account, made before anything is stored.
pub struct SignupMaterial {
    pub encrypted_seed: String,
    pub password_hash: String,
}

/// Whether a signup request is well-formed: a non-empty key and a password of
/// at least eight characters.
pub open spec fn valid_signup(public_key: Seq<char>, password: Seq<char>) -> bool {
    public_key.len() > 0 && password.len() >= MIN_PASSWORD_CHARS
}

/// The one error every failed login gives, whether the key is unknown or the
/// password wrong.
pub open spec fn is_invalid_credentials(e: AppError) -> bool {
    e is Authentication && e.detail() == "Invalid credentials"@
}

/// The binary seed that registration and recovery derive from a sealed seed
/// and its password, if the blob opens to a valid phrase.
pub open spec fn seed_outcome(encrypted_seed: Seq<char>, password: Seq<char>) -> Option<Seq<u8>> {
    match open_text(encrypted_seed, password) {
        Some(phrase) => if bip39_parses(phrase) {
            Some(bip39_seed(phrase))
        } else {
            None
        },
        None => None,
    }
}

/// The conditional write that binds a node: it takes effect only on an account
/// without a credential. Returns the credential stored afterwards and whether
/// the write took effect.
pub open spec fn register_commit(stored: Option<Seq<char>>, creds: Seq<char>) -> (Option<Seq<char>>, bool) {
    match stored {
        Some(c) => (Some(c), false),
        None => (Some(creds), true),
    }
}

fn invalid_credentials() -> (e: AppError)
    ensures
        is_invalid_credentials(e),
{
    proof {
        reveal_strlit("Invalid credentials");
    }
    AppError::Authentication(String::from_str("Invalid credentials"))
}

/// The checks signup makes before any cryptographic work: an existing key is a
/// conflict, then a malformed request is a validation error.
pub fn check_signup(request: &CreateUserRequest, key_exists: bool) -> (r: Result<()>)
    ensures
        key_exists ==> (r matches Err(e) && e is Conflict),
        !key_exists && !valid_signup(request.public_key@, request.password@) ==> (r matches Err(e) && e is Validation),
        r is Ok <==> !key_exists && valid_signup(request.public_key@, request.password@),
{
    if key_exists {
        return Err(AppError::Conflict(String::from_str("User with this public key already exists")));
    }
    if request.public_key.as_str().is_empty() || request.password.as_str().unicode_len() < MIN_PASSWORD_CHARS {
        return Err(AppError::Validation(String::from_str(
            "Public key cannot be empty and password must be at least 8 characters",
        )));
    }
    Ok(())
}

/// Signup up to what the store keeps: after the checks, a fresh seed phrase
/// sealed under the password and the password's hash.
pub fn signup(request: &CreateUserRequest, key_exists: bool) -> (r: Result<SignupMaterial>)
    ensures
        key_exists ==> (r matches Err(e) && e is Conflict),
        !key_exists && !valid_signup(request.public_key@, request.password@) ==> (r matches Err(e) && e is Validation),
        r is Ok ==> !key_exists && valid_signup(request.public_key@, request.password@),
        !key_exists && valid_signup(request.public_key@, request.password@) ==> (r is Ok || (r matches Err(e)
            && e is Cryptography)),
        r matches Ok(m) ==> hashes(m.password_hash@, request.password@),
        r matches Ok(m) ==> (open_text(m.encrypted_seed@, request.password@) matches Some(phrase) && bip39_parses(phrase)),
        r matches Ok(m) ==> (base64_decoded(m.encrypted_seed@) matches Some(frame) && frame.len() >= SALT_SIZE + NONCE_SIZE),
        r matches Err(e) ==> e is Conflict || e is Validation || e is Cryptography,
{
    check_signup(request, key_exists)?;
    let mnemonic = CryptoService::generate_mnemonic()?;
    let encrypted_seed = CryptoService::encrypt(mnemonic.as_str(), request.password.as_str())?;
    let password_hash = CryptoService::hash_password(request.password.as_str())?;
    Ok(SignupMaterial { encrypted_seed, password_hash })
}

/// Login against the account found for the key, if any: an unknown key and a
/// wrong password give the same error; a corrupt stored hash is a
/// `Cryptography` error. On success, the account's id.
pub fn login(user: Option<&User>, request: &LoginRequest) -> (r: Result<u128>)
    ensures
        user is None ==> (r matches Err(e) && is_invalid_credentials(e)),
        user matches Some(u) ==> {
            let h = u.password_hash@;
            let pw = request.password@;
            &&& !phc_parses(h) ==> (r matches Err(e) && e is Cryptography)
            &&& phc_parses(h) && !argon2_accepts(pw, h) ==> (r matches Err(e) && is_invalid_credentials(e))
            &&& phc_parses(h) && argon2_accepts(pw, h) ==> r == Ok::<u128, AppError>(u.id)
        },
{
    let u = match user {
        Some(u) => u,
        None => return Err(invalid_credentials()),
    };
    if !CryptoService::verify_password(request.password.as_str(), u.password_hash.as_str())? {
        return Err(invalid_credentials());
    }
    Ok(u.id)
}

/// The seed path shared by registration and recovery: open the sealed seed,
/// check the phrase, derive the binary seed.
pub fn recover_seed(encrypted_seed: &str, password: &str) -> (r: Result<Vec<u8>>)
    ensures
        open_text(encrypted_seed@, password@) is None ==> (r matches Err(e) && e is Cryptography),
        (open_text(encrypted_seed@, password@) matches Some(p) && !bip39_parses(p)) ==> (r matches Err(e) && e is Validation),
        r is Ok <==> seed_outcome(encrypted_seed@, password@) is Some,
        r matches Ok(s) ==> seed_outcome(encrypted_seed@, password@) == Some(s@),
{
    let mnemonic = CryptoService::decrypt(encrypted_seed, password)?;
    let valid = match CryptoService::validate_mnemonic(mnemonic.as_str()) {
        Ok(v) => v,
        Err(e) => return Err(e),
    };
    if !valid {
        return Err(AppError::Validation(String::from_str("Invalid mnemonic")));
    }
    CryptoService::mnemonic_to_seed(mnemonic.as_str())
}

/// Registration up to the call to the node service: the account must exist and
/// have no node yet; then the binary seed to register with.
pub fn register_node(user: Option<&User>, request: &NodeRegisterRequest) -> (r: Result<Vec<u8>>)
    ensures
        match user {
            None => (r matches Err(e) && e is NotFound),
            Some(u) => if !u.is_new() {
                (r matches Err(e) && e is Conflict)
            } else {
                &&& open_text(request.encrypted_seed@, request.password@) is None ==> (r matches Err(e) && e is Cryptography)
                &&& (open_text(request.encrypted_seed@, request.password@) matches Some(p) && !bip39_parses(p)) ==> (r matches Err(e)
                    && e is Validation)
                &&& r is Ok <==> seed_outcome(request.encrypted_seed@, request.password@) is Some
                &&& r matches Ok(s) ==> seed_outcome(request.encrypted_seed@, request.password@) == Some(s@)
            },
        },
{
    let u = match user {
        Some(u) => u,
        None => return Err(AppError::NotFound(String::from_str("User not found"))),
    };
    if u.is_registered() {
        return Err(AppError::Conflict(String::from_str("Node already registered for this user")));
    }
    recover_seed(request.encrypted_seed.as_str(), request.password.as_str())
}

/// Recovery up to the call to the node service: the binary seed to recover
/// with. It does not care whether a node is bound already.
pub fn recover_node(request: &NodeRecoverRequest) -> (r: Result<Vec<u8>>)
    ensures
        open_text(request.encrypted_seed@, request.password@) is None ==> (r matches Err(e) && e is Cryptography),
        (open_text(request.encrypted_seed@, request.password@) matches Some(p) && !bip39_parses(p)) ==> (r matches Err(e)
            && e is Validation),
        r is Ok <==> seed_outcome(request.encrypted_seed@, request.password@) is Some,
        r matches Ok(s) ==> seed_outcome(request.encrypted_seed@, request.password@) == Some(s@),
{
    recover_seed(request.encrypted_seed.as_str(), request.password.as_str())
}

/// Binds the credential the node service returned to the account, as base64
/// text, if and only if the account has none yet; else `Conflict` and the
/// account is left as it was.
pub fn complete_registration(user: &mut User, device_creds: &[u8], now: i64) -> (r: Result<NodeCredentialsResponse>)
    ensures
        r matches Ok(resp) ==> register_commit(opt_view(old(user).encrypted_device_creds), resp.encrypted_device_creds@)
            == (opt_view(final(user).encrypted_device_creds), true),
        r is Err ==> forall|c: Seq<char>| #[trigger] register_commit(opt_view(old(user).encrypted_device_creds), c)
            == (opt_view(final(user).encrypted_device_creds), false),
        old(user).is_new() <==> r is Ok,
        !old(user).is_new() ==> (*final(user) == *old(user) && (r matches Err(e) && e is Conflict)),
        r matches Ok(resp) ==> base64_decoded(resp.encrypted_device_creds@) == Some(device_creds@)
            && final(user).encrypted_device_creds == Some(resp.encrypted_device_creds)
            && final(user).updated_at == now
            && final(user).id == old(user).id
            && final(user).public_key == old(user).public_key
            && final(user).password_hash == old(user).password_hash
            && final(user).encrypted_seed == old(user).encrypted_seed,
{
    if user.is_registered() {
        return Err(AppError::Conflict(String::from_str("Node already registered for this user")));
    }
    let text = base64_encode(device_creds);
    user.encrypted_device_creds = Some(text.clone());
    user.updated_at = now;
    Ok(NodeCredentialsResponse { encrypted_device_creds: text })
}

/// Stores the credential that recovery returned, as base64 text, replacing any
/// earlier one. Recovery and registration store the credential the same way,
/// as plain base64 without encryption under the account password, so that the
/// node queries, which carry no password, can read it back after either.
pub fn complete_recovery(user: &mut User, device_creds: &[u8], now: i64) -> (r: NodeCredentialsResponse)
    ensures
        base64_decoded(r.encrypted_device_creds@) == Some(device_creds@),
        final(user).encrypted_device_creds == Some(r.encrypted_device_creds),
        final(user).updated_at == now,
        final(user).id == old(user).id,
        final(user).public_key == old(user).public_key,
        final(user).password_hash == old(user).password_hash,
        final(user).encrypted_seed == old(user).encrypted_seed,
{
    let text = base64_encode(device_creds);
    user.encrypted_device_creds = Some(text.clone());
    user.updated_at = now;
    NodeCredentialsResponse { encrypted_device_creds: text }
}

/// What the store's conditional write reports: no row changed means another
/// registration won, which is a conflict.
pub fn registration_outcome(rows_affected: u64) -> (r: Result<()>)
    ensures
        r is Ok <==> rows_affected > 0,
        r matches Err(e) ==> e is Conflict,
{
    if rows_affected == 0 {
        Err(AppError::Conflict(String::from_str("Node already registered for this user")))
    } else {
        Ok(())
    }
}

/// The node credential on file for node queries: the account must exist and
/// have one, and it must decode.
pub fn stored_device_credentials(user: Option<&User>) -> (r: Result<Vec<u8>>)
    ensures
        match user {
            None => (r matches Err(e) && e is NotFound),
            Some(u) => match u.encrypted_device_creds {
                None => (r matches Err(e) && e is BadRequest),
                Some(text) => {
                    &&& r is Ok <==> base64_decoded(text@) is Some
                    &&& r matches Ok(b) ==> base64_decoded(text@) == Some(b@)
                    &&& r matches Err(e) ==> e is Internal
                },
            },
        },
{
    let u = match user {
        Some(u) => u,
        None => return Err(AppError::NotFound(String::from_str("User not found"))),
    };
    match &u.encrypted_device_creds {
        None => Err(AppError::BadRequest(String::from_str("No node registered for this user"))),
        Some(text) => match base64_decode(text.as_str()) {
            Some(b) => Ok(b),
            None => Err(AppError::Internal(String::from_str("Failed to decode device credentials"))),
        },
    }
}

/// Of two registrations racing on an account without a node, whichever the
/// store applies first binds its credential and the other is a conflict that
/// leaves it in place.
pub proof fn lemma_one_registration_wins(first: Seq<char>, second: Seq<char>)
    ensures
        register_commit(None, first) == (Some(first), true),
        register_commit(register_commit(None, first).0, second) == (Some(first), false),
{
}

/// A registered account never goes back to having no node.
pub proof fn lemma_registration_is_permanent(stored: Option<Seq<char>>, creds: Seq<char>)
    ensures
        register_commit(stored, creds).0 is Some,
{
}

/// A failed login looks the same whether the key is unknown or the password
/// is wrong: same status, same message.
pub proof fn lemma_login_failures_alike(unknown_key: AppError, wrong_password: AppError)
    requires
        is_invalid_credentials(unknown_key),
        is_invalid_credentials(wrong_password),
    ensures
        unknown_key.spec_status() == wrong_password.spec_status(),
        unknown_key.heading() + unknown_key.detail() == wrong_password.heading() + wrong_password.detail(),
{
}

} // verus!
