use vstd::prelude::*;

verus! {

/// Failures of the credential and session authority.
#[derive(Debug, Clone, PartialEq, Eq)]
pub enum AuthError {
    /// The password could not be hashed.
    HashingError(String),
    /// The stored hash is not a well-formed PHC string.
    VerificationError,
    /// Unknown email or wrong password; the two are not told apart.
    InvalidPassword,
    /// A token could not be signed.
    TokenGenerationError(String),
    /// A token is malformed or its signature does not verify.
    TokenValidationError(String),
    /// A token is past its expiry time.
    TokenExpired,
    /// A token names no existing user.
    InvalidToken,
    /// An account with this email already exists.
    UserAlreadyExists,
    /// The role carried by a token differs from the user's current role.
    RoleChanged,
    /// The relational store reported a failure.
    DatabaseError(String),
}

/// Failures of the blob store and of the transactional object service.
#[derive(Debug, Clone, PartialEq, Eq)]
pub enum StorageError {
    /// The filesystem reported a failure.
    IoError(String),
    /// No file with this id exists.
    FileNotFound(String),
    /// A path could not be formed.
    InvalidPath(String),
    /// The metadata store reported a failure.
    StorageError(String),
    /// The file belongs to another user.
    Forbidden(String),
}

} // verus!
