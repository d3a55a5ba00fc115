//! A local, password-protected secret store.
//!
//! A vault is one encrypted file: a self-describing envelope holding a cost
//! byte, a random salt, a random nonce and the authenticated ciphertext of
//! a record store. [`crypt`] turns a password into a key (bcrypt under the
//! envelope's cost and salt, then SHA-256) and seals or opens envelopes;
//! [`vault`] manages one session over a decrypted working copy — creation,
//! record edits, and re-sealing on close; [`cli`] holds the decisions the
//! command-line front end acts on.

pub mod cli;
pub mod crypt;
pub mod errors;
pub mod vault;

pub use cli::{all, param_check, vault_check, CliAction};
pub use crypt::{aes256_decrypt, aes256_encrypt, CryptValue};
pub use errors::SrpkError;
pub use vault::Vault;
