use vstd::prelude::*;

verus! {

/// An account row: identity key, login hash, the seed phrase sealed under the
/// password, and the node credential once a node is bound to the account.
/// Times are seconds since the Unix epoch.
pub struct User {
    pub id: u128,
    pub public_key: String,
    pub password_hash: String,
    pub encrypted_seed: Option<String>,
    pub encrypted_device_creds: Option<String>,
    pub created_at: i64,
    pub updated_at: i64,
}

/// A signup request: the identity key and the password chosen for it.
pub struct CreateUserRequest {
    pub public_key: String,
    pub password: String,
}

/// A login request.
pub struct LoginRequest {
    pub public_key: String,
    pub password: String,
}

/// The text view of an optional string.
pub open spec fn opt_view(o: Option<String>) -> Option<Seq<char>> {
    match o {
        Some(s) => Some(s@),
        None => None,
    }
}

impl User {
    /// The account has no node yet.
    pub open spec fn is_new(&self) -> bool {
        self.encrypted_device_creds is None
    }

    /// Whether a node is bound to the account.
    pub fn is_registered(&self) -> (r: bool)
        ensures
            r == !self.is_new(),
    {
        self.encrypted_device_creds.is_some()
    }
}

} // verus!
