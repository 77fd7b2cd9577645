use vstd::prelude::*;

verus! {

/// What can go wrong in the key engine and in the bulk cipher.
#[derive(Clone, Copy, Debug, PartialEq, Eq, Structural)]
pub enum E2eError {
    /// A file could not be read or written.
    IoError,
    /// A key could not be decoded from, or encoded as, PEM text.
    FormatError,
    /// The public and private key do not undo each other on the pairing probe.
    KeyMismatch,
    /// A fresh key pair could not be generated.
    KeyGenerationFailed,
    /// The engine has not been initialised with a key pair.
    NotInitialized,
    /// The engine already holds a key pair.
    AlreadyInitialized,
    /// The key half that the operation needs is missing.
    KeyNotFound,
    /// The message is longer than the modulus allows with PKCS#1 v1.5 padding.
    PayloadTooLarge,
    /// The RSA primitive refused a message of acceptable length.
    EncryptionFailed,
    /// The ciphertext is not exactly as long as the modulus.
    MalformedCiphertext,
    /// The ciphertext did not decrypt to a well-padded message.
    DecryptionFailed,
    /// A symmetric key that is not 16 bytes long.
    InvalidKeyLength,
    /// An initialisation vector that is not 16 bytes long.
    InvalidIvLength,
    /// Framed ciphertext shorter than its 4-byte random suffix.
    TruncatedInput,
    /// A caller's output buffer is too small for the result.
    BoundaryContractViolation,
}

/// A folder pass that stopped early: the entries before `processed` were
/// transformed, the one at `processed` failed with `error`, and it and the
/// entries after it were left as they were.
#[derive(Clone, Copy, Debug, PartialEq, Eq, Structural)]
pub struct FolderError {
    pub processed: usize,
    pub error: E2eError,
}

} // verus!
