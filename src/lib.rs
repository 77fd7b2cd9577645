//! End-to-end encryption toolkit: an RSA key engine for short messages and a
//! password-keyed AES-128-CTR cipher for file contents.
//!
//! Everything here works on values held in memory; reading and writing files
//! is left to the caller.

pub mod boundary;
pub mod engine;
pub mod error;
pub mod exsecure;
pub mod primitives;

pub use engine::{E2eCyber, E2eRSA2K, PemKeyPair, SealedKeyPair};
pub use error::{E2eError, FolderError};
pub use exsecure::{decrypt_file, decrypt_folder, encrypt_file, encrypt_folder};
