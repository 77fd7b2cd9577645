//! The asymmetric key engine: an RSA-2048 key pair with PKCS#1 v1.5
//! encryption of short messages.
//!
//! An engine starts empty and becomes initialised, once, by loading a private
//! and a public key that pass a pairing probe. Generating a key pair hands
//! back its PEM texts and leaves the engine as it was: storing them and
//! loading them are separate steps.
use crate::error::E2eError;
use crate::exsecure::{
    decrypt_file, derived_key, encrypt_file, fixed_iv, is_sealing_of, open_frame,
};
use crate::primitives::{
    decodes_as_private_key, decodes_as_public_key, generate_private_key, modulus_size,
    private_key_from_pem, private_key_to_pem, public_key_from_pem, public_key_of,
    public_key_to_pem, rsa_decrypt, rsa_encrypt, text_of_utf8,
};
use rsa::{RsaPrivateKey, RsaPublicKey};
use vstd::prelude::*;
use vstd::string::StringSliceAdditionalSpecFns;
use vstd::utf8::{encode_utf8, valid_utf8};

verus! {

/// Size in bits of the moduli that `generate_pairkey` makes.
pub const RSA_KEY_BITS: usize = 2048;

/// Bytes of a PKCS#1 v1.5 block that padding takes.
pub const PKCS1_PADDING_LEN: usize = 11;

/// The pairing probe: the ASCII bytes of `!!Qualgo!!`.
pub open spec fn probe_message() -> Seq<u8> {
    seq![33u8, 33u8, 81u8, 117u8, 97u8, 108u8, 103u8, 111u8, 33u8, 33u8]
}

/// What decrypting the encrypted probe gave back is the probe itself.
pub open spec fn probe_came_back(echo: Option<Vec<u8>>) -> bool {
    match echo {
        Some(m) => m@ == probe_message(),
        None => false,
    }
}

fn probe_bytes() -> (r: Vec<u8>)
    ensures
        r@ == probe_message(),
{
    let r = vec![33u8, 33u8, 81u8, 117u8, 97u8, 108u8, 103u8, 111u8, 33u8, 33u8];
    assert(r@ =~= probe_message());
    r
}

/// A freshly generated key pair as PEM text: the private key in PKCS#8, the
/// public key in SPKI.
pub struct PemKeyPair {
    pub private_pem: String,
    pub public_pem: String,
}

/// A freshly generated key pair whose private PEM text is sealed under a
/// password with the bulk cipher.
pub struct SealedKeyPair {
    pub sealed_private_pem: Vec<u8>,
    pub public_pem: String,
}

/// What an end-to-end key engine offers.
pub trait E2eCyber: Sized {
    /// The engine holds a key pair that passed the pairing probe.
    spec fn initialized(&self) -> bool;

    /// The engine holds a public key.
    spec fn has_public_key(&self) -> bool;

    /// The engine holds a private key.
    spec fn has_private_key(&self) -> bool;

    /// Length in bytes of the modulus of the key pair held.
    spec fn modulus_len(&self) -> nat;

    /// Loads a private key (PKCS#8 PEM) and a public key (SPKI PEM) and
    /// checks that they form a pair. On any failure the engine is unchanged.
    fn init(&mut self, private_pem: &str, public_pem: &str) -> (r: Result<(), E2eError>)
        ensures
            old(self).initialized() ==> r == Err::<(), E2eError>(E2eError::AlreadyInitialized),
            r is Ok ==> final(self).initialized() && final(self).has_public_key()
                && final(self).has_private_key(),
            r is Err ==> *final(self) == *old(self),
            r matches Err(e) ==> e == E2eError::AlreadyInitialized || e == E2eError::FormatError
                || e == E2eError::KeyMismatch,
    ;

    /// Generates a fresh key pair and returns its PEM texts, leaving the
    /// engine as it was.
    fn generate_pairkey(&mut self) -> (r: Result<PemKeyPair, E2eError>)
        ensures
            *final(self) == *old(self),
            r matches Ok(pair) ==> pair.private_pem@.len() > 0 && pair.public_pem@.len() > 0,
            r matches Err(e) ==> e == E2eError::KeyGenerationFailed || e == E2eError::FormatError,
    ;

    /// Encrypts a message under the public key.
    fn encrypt(&self, message: &[u8]) -> (r: Result<Vec<u8>, E2eError>)
        ensures
            !self.initialized() ==> r == Err::<Vec<u8>, E2eError>(E2eError::NotInitialized),
            self.initialized() && !self.has_public_key() ==> r == Err::<Vec<u8>, E2eError>(
                E2eError::KeyNotFound,
            ),
            self.initialized() && self.has_public_key() && message@.len() + PKCS1_PADDING_LEN
                > self.modulus_len() ==> r == Err::<Vec<u8>, E2eError>(E2eError::PayloadTooLarge),
            r matches Err(e) ==> e == E2eError::NotInitialized || e == E2eError::KeyNotFound
                || e == E2eError::PayloadTooLarge || e == E2eError::EncryptionFailed,
    ;

    /// Decrypts a ciphertext with the private key.
    fn decrypt(&self, ciphertext: &[u8]) -> (r: Result<Vec<u8>, E2eError>)
        ensures
            !self.initialized() ==> r == Err::<Vec<u8>, E2eError>(E2eError::NotInitialized),
            self.initialized() && !self.has_private_key() ==> r == Err::<Vec<u8>, E2eError>(
                E2eError::KeyNotFound,
            ),
            self.initialized() && self.has_private_key() && ciphertext@.len() != self.modulus_len()
                ==> r == Err::<Vec<u8>, E2eError>(E2eError::MalformedCiphertext),
            r matches Err(e) ==> e == E2eError::NotInitialized || e == E2eError::KeyNotFound
                || e == E2eError::MalformedCiphertext || e == E2eError::DecryptionFailed,
    ;
}

/// An RSA-2048 engine. It holds both halves of a key pair exactly when it is
/// initialised.
pub struct E2eRSA2K {
    isinit: bool,
    privkey: Option<RsaPrivateKey>,
    pubkey: Option<RsaPublicKey>,
    modulus_bytes: usize,
}

impl E2eRSA2K {
    /// Both key halves are held exactly when the engine is initialised.
    #[verifier::type_invariant]
    spec fn wf(&self) -> bool {
        self.isinit <==> (self.privkey is Some && self.pubkey is Some)
    }

    /// The private key held, if any.
    pub closed spec fn private_key(&self) -> Option<RsaPrivateKey> {
        self.privkey
    }

    /// The public key held, if any.
    pub closed spec fn public_key(&self) -> Option<RsaPublicKey> {
        self.pubkey
    }

    /// An empty engine.
    pub fn new() -> (r: Self)
        ensures
            !r.initialized(),
            r.private_key() is None,
            r.public_key() is None,
            r.modulus_len() == 0,
    {
        E2eRSA2K { isinit: false, privkey: None, pubkey: None, modulus_bytes: 0 }
    }

    /// An engine loaded from a private and a public key's PEM texts; it stays
    /// empty where loading fails.
    pub fn new_with_key_files(private_pem: &str, public_pem: &str) -> (r: Self)
        ensures
            r.initialized() ==> r.has_private_key() && r.has_public_key(),
            !r.initialized() ==> r.private_key() is None && r.public_key() is None
                && r.modulus_len() == 0,
    {
        let mut instance = E2eRSA2K::new();
        let _ = instance.init(private_pem, public_pem);
        instance
    }

    /// Whether the engine holds a key pair that passed the pairing probe.
    pub fn is_initialized(&self) -> (r: bool)
        ensures
            r == self.initialized(),
    {
        self.isinit
    }

    /// Finishes loading a pair of keys, given what decrypting the encrypted
    /// probe gave back (`None` where encrypting or decrypting it failed). The
    /// keys are taken only if the engine is empty and the probe came back
    /// intact; otherwise the engine is unchanged.
    pub fn install_pair(
        &mut self,
        private_key: RsaPrivateKey,
        public_key: RsaPublicKey,
        modulus_bytes: usize,
        probe_echo: Option<Vec<u8>>,
    ) -> (r: Result<(), E2eError>)
        ensures
            old(self).initialized() ==> r == Err::<(), E2eError>(E2eError::AlreadyInitialized),
            !old(self).initialized() && probe_came_back(probe_echo) ==> {
                &&& r is Ok
                &&& final(self).initialized()
                &&& final(self).private_key() == Some(private_key)
                &&& final(self).public_key() == Some(public_key)
                &&& final(self).modulus_len() == modulus_bytes
            },
            !old(self).initialized() && !probe_came_back(probe_echo)
                ==> r == Err::<(), E2eError>(E2eError::KeyMismatch),
            r is Err ==> *final(self) == *old(self),
            r is Ok ==> final(self).has_private_key() && final(self).has_public_key(),
    {
        if self.isinit {
            return Err(E2eError::AlreadyInitialized);
        }
        let matched = match &probe_echo {
            Some(m) => bytes_equal(m.as_slice(), probe_bytes().as_slice()),
            None => false,
        };
        if !matched {
            return Err(E2eError::KeyMismatch);
        }
        *self = E2eRSA2K {
            isinit: true,
            privkey: Some(private_key),
            pubkey: Some(public_key),
            modulus_bytes,
        };
        Ok(())
    }
}

impl E2eRSA2K {
    /// Generates a key pair and seals its private PEM text under a password
    /// with the bulk cipher, leaving the engine as it was.
    pub fn generate_pairkey_withexsecure(&mut self, password: &str) -> (r: Result<
        SealedKeyPair,
        E2eError,
    >)
        ensures
            *final(self) == *old(self),
            r matches Ok(pair) ==> pair.public_pem@.len() > 0 && exists|pem: Seq<char>|
                pem.len() > 0 && is_sealing_of(
                    derived_key(password.spec_bytes()),
                    fixed_iv(),
                    #[trigger] encode_utf8(pem),
                    pair.sealed_private_pem@,
                ),
            r matches Err(e) ==> e == E2eError::KeyGenerationFailed || e == E2eError::FormatError,
    {
        let pair = match self.generate_pairkey() {
            Ok(p) => p,
            Err(e) => {
                return Err(e);
            },
        };
        let sealed = encrypt_file(pair.private_pem.as_str().as_bytes(), password);
        assert(pair.private_pem@.len() > 0);
        Ok(SealedKeyPair { sealed_private_pem: sealed, public_pem: pair.public_pem })
    }

    /// Opens a private key's PEM text sealed under a password, then loads it
    /// with the public key's PEM text as `init` does. On any failure the
    /// engine is unchanged.
    pub fn init_withexsecure(&mut self, sealed_private_pem: &[u8], public_pem: &str, password: &str) -> (r:
        Result<(), E2eError>)
        ensures
            old(self).initialized() ==> r == Err::<(), E2eError>(E2eError::AlreadyInitialized),
            !old(self).initialized() ==> match open_frame(
                derived_key(password.spec_bytes()),
                fixed_iv(),
                sealed_private_pem@,
            ) {
                Err(e) => r == Err::<(), E2eError>(e),
                Ok(text) => !valid_utf8(text) ==> r == Err::<(), E2eError>(E2eError::FormatError),
            },
            r is Err ==> *final(self) == *old(self),
            r is Ok ==> final(self).initialized() && final(self).has_public_key()
                && final(self).has_private_key(),
    {
        if self.isinit {
            return Err(E2eError::AlreadyInitialized);
        }
        let plain = match decrypt_file(sealed_private_pem, password) {
            Ok(p) => p,
            Err(e) => {
                return Err(e);
            },
        };
        let text = match text_of_utf8(plain.as_slice()) {
            Some(t) => t,
            None => {
                return Err(E2eError::FormatError);
            },
        };
        self.init(text.as_str(), public_pem)
    }
}

/// Whether two byte strings are equal.
fn bytes_equal(a: &[u8], b: &[u8]) -> (r: bool)
    ensures
        r == (a@ == b@),
{
    if a.len() != b.len() {
        return false;
    }
    let mut i: usize = 0;
    while i < a.len()
        invariant
            a@.len() == b@.len(),
            i <= a@.len(),
            a@.subrange(0, i as int) == b@.subrange(0, i as int),
        decreases a@.len() - i,
    {
        if a[i] != b[i] {
            assert(a@[i as int] != b@[i as int]);
            return false;
        }
        assert(a@.subrange(0, i + 1) =~= a@.subrange(0, i as int).push(a@[i as int]));
        assert(b@.subrange(0, i + 1) =~= b@.subrange(0, i as int).push(b@[i as int]));
        i = i + 1;
    }
    assert(a@ =~= a@.subrange(0, i as int));
    assert(b@ =~= b@.subrange(0, i as int));
    true
}

impl E2eCyber for E2eRSA2K {
    closed spec fn initialized(&self) -> bool {
        self.isinit
    }

    closed spec fn has_public_key(&self) -> bool {
        self.pubkey is Some
    }

    closed spec fn has_private_key(&self) -> bool {
        self.privkey is Some
    }

    closed spec fn modulus_len(&self) -> nat {
        self.modulus_bytes as nat
    }

    /// Text that does not decode as a key of its kind gives `FormatError`;
    /// two keys that decode either pass the pairing probe or give
    /// `KeyMismatch`.
    fn init(&mut self, private_pem: &str, public_pem: &str) -> (r: Result<(), E2eError>)
        ensures
            !old(self).initialized() && !(decodes_as_private_key(private_pem@)
                && decodes_as_public_key(public_pem@)) ==> r == Err::<(), E2eError>(
                E2eError::FormatError,
            ),
            !old(self).initialized() && decodes_as_private_key(private_pem@)
                && decodes_as_public_key(public_pem@) ==> (r is Ok || r == Err::<(), E2eError>(
                E2eError::KeyMismatch,
            )),
    {
        if self.isinit {
            return Err(E2eError::AlreadyInitialized);
        }
        let private_key = match private_key_from_pem(private_pem) {
            Ok(k) => k,
            Err(_) => {
                return Err(E2eError::FormatError);
            },
        };
        let public_key = match public_key_from_pem(public_pem) {
            Ok(k) => k,
            Err(_) => {
                return Err(E2eError::FormatError);
            },
        };
        let probe = probe_bytes();
        let probe_echo = match rsa_encrypt(&public_key, probe.as_slice()) {
            Ok(c) => match rsa_decrypt(&private_key, c.as_slice()) {
                Ok(m) => Some(m),
                Err(_) => None,
            },
            Err(_) => None,
        };
        let size = modulus_size(&public_key);
        self.install_pair(private_key, public_key, size, probe_echo)
    }

    fn generate_pairkey(&mut self) -> (r: Result<PemKeyPair, E2eError>) {
        let private_key = match generate_private_key(RSA_KEY_BITS) {
            Ok(k) => k,
            Err(_) => {
                return Err(E2eError::KeyGenerationFailed);
            },
        };
        let public_key = public_key_of(&private_key);
        let private_pem = match private_key_to_pem(&private_key) {
            Ok(s) => s,
            Err(_) => {
                return Err(E2eError::FormatError);
            },
        };
        let public_pem = match public_key_to_pem(&public_key) {
            Ok(s) => s,
            Err(_) => {
                return Err(E2eError::FormatError);
            },
        };
        Ok(PemKeyPair { private_pem, public_pem })
    }

    fn encrypt(&self, message: &[u8]) -> (r: Result<Vec<u8>, E2eError>) {
        if !self.isinit {
            return Err(E2eError::NotInitialized);
        }
        match &self.pubkey {
            None => Err(E2eError::KeyNotFound),
            Some(public_key) => {
                if message.len() > self.modulus_bytes || self.modulus_bytes - message.len()
                    < PKCS1_PADDING_LEN {
                    return Err(E2eError::PayloadTooLarge);
                }
                match rsa_encrypt(public_key, message) {
                    Ok(c) => Ok(c),
                    Err(_) => Err(E2eError::EncryptionFailed),
                }
            },
        }
    }

    fn decrypt(&self, ciphertext: &[u8]) -> (r: Result<Vec<u8>, E2eError>) {
        if !self.isinit {
            return Err(E2eError::NotInitialized);
        }
        match &self.privkey {
            None => Err(E2eError::KeyNotFound),
            Some(private_key) => {
                if ciphertext.len() != self.modulus_bytes {
                    return Err(E2eError::MalformedCiphertext);
                }
                match rsa_decrypt(private_key, ciphertext) {
                    Ok(m) => Ok(m),
                    Err(_) => Err(E2eError::DecryptionFailed),
                }
            },
        }
    }
}

} // verus!
