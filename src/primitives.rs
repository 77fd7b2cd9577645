//! The calls into outside crates, each with the contract the library relies on.
use ctr::cipher::{KeyIvInit, StreamCipher};
use rand::Rng;
use rsa::pkcs8::{DecodePrivateKey, DecodePublicKey, EncodePrivateKey, EncodePublicKey};
use rsa::traits::PublicKeyParts;
use sha2::Digest;
use vstd::prelude::*;
use vstd::utf8::{decode_utf8, valid_utf8};

verus! {

/// Bytewise exclusive or of `data` with `pad`; as long as `data`.
pub open spec fn xor_bytes(data: Seq<u8>, pad: Seq<u8>) -> Seq<u8> {
    Seq::new(data.len(), |i: int| data[i] ^ pad[i])
}

/// The SHA-256 digest of a byte string.
pub uninterp spec fn sha256_of(msg: Seq<u8>) -> Seq<u8>;

/// Relies on `sha2::Sha256::digest` (sha2 0.10): the SHA-256 digest of the
/// input, which is 32 bytes long.
#[verifier::external_body]
pub(crate) fn sha256(msg: &[u8]) -> (r: Vec<u8>)
    ensures
        r@ == sha256_of(msg@),
        r@.len() == 32,
{
    sha2::Sha256::digest(msg).to_vec()
}

/// The first `len` bytes of the AES-128 counter-mode keystream for `key` and
/// `iv`, with a 64-bit little-endian counter.
pub uninterp spec fn aes128_ctr64le_keystream(key: Seq<u8>, iv: Seq<u8>, len: nat) -> Seq<u8>;

/// Relies on `ctr::Ctr64LE<aes::Aes128>` (ctr 0.9, aes 0.8):
/// `apply_keystream` XORs the buffer with the keystream that the key and IV
/// determine. The block counter starts at zero and has 2^64 - 1 blocks left,
/// more than any buffer in memory needs, so the call does not panic;
/// `from_slice` needs both arguments to be 16 bytes long.
#[verifier::external_body]
pub(crate) fn apply_aes128_ctr(key: &[u8], iv: &[u8], data: &[u8]) -> (r: Vec<u8>)
    requires
        key@.len() == 16,
        iv@.len() == 16,
    ensures
        r@ == xor_bytes(data@, aes128_ctr64le_keystream(key@, iv@, data@.len())),
{
    let mut buf = data.to_vec();
    let mut cipher = ctr::Ctr64LE::<aes::Aes128>::new(
        aes::cipher::generic_array::GenericArray::from_slice(key),
        aes::cipher::generic_array::GenericArray::from_slice(iv),
    );
    cipher.apply_keystream(&mut buf);
    buf
}

/// Relies on `rand::thread_rng` and `Rng::fill` (rand 0.8): four bytes from
/// the thread-local generator. Nothing is promised of their values.
#[verifier::external_body]
pub(crate) fn random_suffix() -> (r: [u8; 4]) {
    let mut bytes = [0u8; 4];
    rand::thread_rng().fill(&mut bytes);
    bytes
}

/// Relies on `String::from_utf8` (std): the bytes as text when they are
/// valid UTF-8, and nothing otherwise.
#[verifier::external_body]
pub(crate) fn text_of_utf8(bytes: &[u8]) -> (r: Option<String>)
    ensures
        r is Some <==> valid_utf8(bytes@),
        r matches Some(s) ==> s@ == decode_utf8(bytes@),
{
    String::from_utf8(bytes.to_vec()).ok()
}

/// An RSA private key (rsa 0.9), held whole and opaque.
#[verifier::external_type_specification]
#[verifier::external_body]
pub struct ExRsaPrivateKey(rsa::RsaPrivateKey);

/// An RSA public key (rsa 0.9), held whole and opaque.
#[verifier::external_type_specification]
#[verifier::external_body]
pub struct ExRsaPublicKey(rsa::RsaPublicKey);

/// The error of the RSA primitives (rsa 0.9).
#[verifier::external_type_specification]
#[verifier::external_body]
pub struct ExRsaError(rsa::Error);

/// The error of PKCS#8 private-key encoding and decoding (pkcs8 0.10).
#[verifier::external_type_specification]
#[verifier::external_body]
pub struct ExPkcs8Error(rsa::pkcs8::Error);

/// The error of SPKI public-key encoding and decoding (spki 0.7).
#[verifier::external_type_specification]
#[verifier::external_body]
pub struct ExSpkiError(rsa::pkcs8::spki::Error);

/// Relies on `rsa::RsaPrivateKey::new` with `rand::thread_rng`: a fresh key
/// pair with a modulus of `bits` bits and public exponent 65537, or an
/// error. Sizes under 64 bits take a separate path in rsa that estimates
/// prime counts with floats; they are left out.
#[verifier::external_body]
pub(crate) fn generate_private_key(bits: usize) -> (r: Result<rsa::RsaPrivateKey, rsa::Error>)
    requires
        bits >= 64,
{
    rsa::RsaPrivateKey::new(&mut rand::thread_rng(), bits)
}

/// Relies on `From<&RsaPrivateKey> for RsaPublicKey`: the public half of a
/// private key.
#[verifier::external_body]
pub(crate) fn public_key_of(key: &rsa::RsaPrivateKey) -> (r: rsa::RsaPublicKey) {
    rsa::RsaPublicKey::from(key)
}

/// Relies on `EncodePrivateKey::to_pkcs8_pem` (pkcs8 0.10): PKCS#8 PEM text
/// with the platform's default line ending. PEM text always opens with its
/// `-----BEGIN ` boundary, so it is never empty.
#[verifier::external_body]
pub(crate) fn private_key_to_pem(key: &rsa::RsaPrivateKey) -> (r: Result<String, rsa::pkcs8::Error>)
    ensures
        r matches Ok(s) ==> s@.len() > 0,
{
    key.to_pkcs8_pem(rsa::pkcs8::LineEnding::default()).map(|pem| pem.to_string())
}

/// Relies on `EncodePublicKey::to_public_key_pem` (spki 0.7): SPKI PEM text
/// with the platform's default line ending, never empty for the same reason.
#[verifier::external_body]
pub(crate) fn public_key_to_pem(key: &rsa::RsaPublicKey) -> (r: Result<String, rsa::pkcs8::spki::Error>)
    ensures
        r matches Ok(s) ==> s@.len() > 0,
{
    key.to_public_key_pem(rsa::pkcs8::LineEnding::default())
}

/// Whether PEM text decodes as a PKCS#8 RSA private key.
pub uninterp spec fn decodes_as_private_key(pem: Seq<char>) -> bool;

/// Whether PEM text decodes as an SPKI RSA public key.
pub uninterp spec fn decodes_as_public_key(pem: Seq<char>) -> bool;

/// Relies on `DecodePrivateKey::from_pkcs8_pem` (pkcs8 0.10): the private key
/// that PKCS#8 PEM text holds, or an error for anything else. Whether it
/// succeeds depends on the text alone.
#[verifier::external_body]
pub(crate) fn private_key_from_pem(pem: &str) -> (r: Result<rsa::RsaPrivateKey, rsa::pkcs8::Error>)
    ensures
        r is Ok <==> decodes_as_private_key(pem@),
{
    rsa::RsaPrivateKey::from_pkcs8_pem(pem)
}

/// Relies on `DecodePublicKey::from_public_key_pem` (spki 0.7): the public key
/// that SPKI PEM text holds, or an error for anything else. Whether it
/// succeeds depends on the text alone.
#[verifier::external_body]
pub(crate) fn public_key_from_pem(pem: &str) -> (r: Result<rsa::RsaPublicKey, rsa::pkcs8::spki::Error>)
    ensures
        r is Ok <==> decodes_as_public_key(pem@),
{
    rsa::RsaPublicKey::from_public_key_pem(pem)
}

/// Relies on `PublicKeyParts::size`: the length of the modulus in bytes.
#[verifier::external_body]
pub(crate) fn modulus_size(key: &rsa::RsaPublicKey) -> (r: usize) {
    key.size()
}

/// Relies on `RsaPublicKey::encrypt` with `Pkcs1v15Encrypt` and
/// `rand::thread_rng`: PKCS#1 v1.5 encryption with random padding, so
/// nothing is promised of the ciphertext.
#[verifier::external_body]
pub(crate) fn rsa_encrypt(key: &rsa::RsaPublicKey, msg: &[u8]) -> (r: Result<Vec<u8>, rsa::Error>) {
    key.encrypt(&mut rand::thread_rng(), rsa::Pkcs1v15Encrypt, msg)
}

/// Relies on `RsaPrivateKey::decrypt` with `Pkcs1v15Encrypt`: the message
/// that the ciphertext carries, or an error where its padding is invalid.
#[verifier::external_body]
pub(crate) fn rsa_decrypt(key: &rsa::RsaPrivateKey, ciphertext: &[u8]) -> (r: Result<Vec<u8>, rsa::Error>) {
    key.decrypt(rsa::Pkcs1v15Encrypt, ciphertext)
}

} // verus!
