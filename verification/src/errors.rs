//! The library's failure taxonomy.

use vstd::prelude::*;

verus! {

/// Every failure the library reports.
#[derive(Debug)]
pub enum SrpkError {
    /// Failed to initialize the record store.
    DBCreate,
    /// A record-store operation failed.
    DBSQLConn,
    /// Key derivation failed: the cost byte is outside the accepted range.
    BCryptHash,
    /// Authenticated encryption failed.
    AES256Encrypt,
    /// Authentication failed: wrong password or corrupted ciphertext.
    AES256Decrypt,
    /// The envelope is too short to parse.
    MalformedEnvelope,
    /// A path that must be free is occupied.
    PathTaken(String),
    /// A path that must exist is empty.
    PathEmpty(String),
    /// Missing permissions on a file.
    FilePerms(String),
    /// Text was not valid UTF-8.
    UTF8Decode,
    /// A required parameter is missing.
    NoParam,
    /// No active vault is configured.
    NoVault,
    /// The key is already present in the vault.
    KeyDuplicate(String),
    /// The key is not present in the vault.
    KeyNonExist(String),
    /// An unclassified failure.
    Unknown,
}

} // verus!
