use e2esdk::{E2eCyber, E2eError, E2eRSA2K};
use rsa::pkcs8::{DecodePrivateKey, DecodePublicKey, EncodePrivateKey, EncodePublicKey, LineEnding};
use rsa::{RsaPrivateKey, RsaPublicKey};

const TEST_MESSAGE: &[u8] = b"Test message for RSA encryption";

/// A key pair of `bits` bits made directly with rsa, as PKCS#8 and SPKI PEM
/// text; small sizes keep these tests quick.
fn small_pair(bits: usize) -> (String, String) {
    let private_key = RsaPrivateKey::new(&mut rand::thread_rng(), bits).unwrap();
    let private_pem = private_key.to_pkcs8_pem(LineEnding::LF).unwrap().to_string();
    let public_pem = RsaPublicKey::from(&private_key)
        .to_public_key_pem(LineEnding::LF)
        .unwrap();
    (private_pem, public_pem)
}

fn generated_pair() -> e2esdk::PemKeyPair {
    let mut e2e_rsa = E2eRSA2K::new();
    e2e_rsa.generate_pairkey().unwrap()
}

#[test]
fn test_generate_pairkey() {
    let mut e2e_rsa = E2eRSA2K::new();
    let pair = e2e_rsa.generate_pairkey().unwrap();

    assert!(!pair.private_pem.is_empty());
    assert!(!pair.public_pem.is_empty());
    let private_label = ["PRIVATE", "KEY"].join(" ");
    assert_eq!(pair.private_pem.lines().next(), Some(format!("-----BEGIN {}-----", private_label).as_str()));
    assert_eq!(pair.public_pem.lines().next(), Some("-----BEGIN PUBLIC KEY-----"));
    assert!(!e2e_rsa.is_initialized());
}

#[test]
fn test_init_with_generated_keys() {
    let pair = generated_pair();

    let mut e2e_rsa_initialized = E2eRSA2K::new();
    let init_result = e2e_rsa_initialized.init(&pair.private_pem, &pair.public_pem);

    assert!(init_result.is_ok());
    assert_eq!(e2e_rsa_initialized.is_initialized(), true);
}

#[test]
fn test_init_with_invalid_keys() {
    let mut e2e_rsa = E2eRSA2K::new();
    let init_result = e2e_rsa.init("invalid private key", "invalid public key");

    assert!(init_result.is_err());
    assert_eq!(init_result, Err(E2eError::FormatError));
    assert_eq!(e2e_rsa.is_initialized(), false);
}

#[test]
fn test_encrypt_decrypt() {
    let mut e2e_rsa = E2eRSA2K::new();
    let pair = e2e_rsa.generate_pairkey().unwrap();
    let init_result = e2e_rsa.init(&pair.private_pem, &pair.public_pem);

    assert!(init_result.is_ok());
    assert_eq!(e2e_rsa.is_initialized(), true);

    let encrypted_message = e2e_rsa.encrypt(TEST_MESSAGE).expect("Encryption failed");
    let decrypted_message = e2e_rsa.decrypt(&encrypted_message).expect("Decryption failed");

    assert_eq!(decrypted_message, TEST_MESSAGE);
}

#[test]
fn test_encrypt_not_initialized() {
    let e2e_rsa = E2eRSA2K::new();

    let result = e2e_rsa.encrypt(TEST_MESSAGE);

    assert!(result.is_err());
    assert_eq!(result.unwrap_err(), E2eError::NotInitialized);
}

#[test]
fn test_decrypt_not_initialized() {
    let mut e2e_rsa = E2eRSA2K::new();
    let pair = e2e_rsa.generate_pairkey().unwrap();
    let init_result = e2e_rsa.init(&pair.private_pem, &pair.public_pem);

    assert!(init_result.is_ok());
    assert_eq!(e2e_rsa.is_initialized(), true);
    let encrypted_message = e2e_rsa.encrypt(TEST_MESSAGE).expect("Encryption failed");

    let e2e_rsa_new = E2eRSA2K::new();
    let result = e2e_rsa_new.decrypt(&encrypted_message);

    assert!(result.is_err());
    assert_eq!(result.unwrap_err(), E2eError::NotInitialized);
}

#[test]
fn second_instance_round_trip_from_generated_pair() {
    let pair = generated_pair();
    let mut second = E2eRSA2K::new_with_key_files(&pair.private_pem, &pair.public_pem);
    assert!(second.is_initialized());
    assert_eq!(second.init(&pair.private_pem, &pair.public_pem), Err(E2eError::AlreadyInitialized));
    assert!(second.is_initialized());

    let encrypted = second.encrypt(TEST_MESSAGE).unwrap();
    assert_eq!(encrypted.len(), 256);
    assert_ne!(encrypted.as_slice(), TEST_MESSAGE);
    let decrypted = second.decrypt(&encrypted).unwrap();
    assert_eq!(decrypted, TEST_MESSAGE.to_vec());
}

#[test]
fn message_size_limits_and_ciphertext_checks() {
    let pair = generated_pair();
    let engine = E2eRSA2K::new_with_key_files(&pair.private_pem, &pair.public_pem);
    assert!(engine.is_initialized());

    let longest = vec![7u8; 245];
    let encrypted = engine.encrypt(&longest).unwrap();
    assert_eq!(engine.decrypt(&encrypted).unwrap(), longest);

    assert_eq!(engine.encrypt(&vec![7u8; 246]), Err(E2eError::PayloadTooLarge));
    assert_eq!(engine.encrypt(&vec![7u8; 300]), Err(E2eError::PayloadTooLarge));

    let empty = engine.encrypt(b"").unwrap();
    assert_eq!(engine.decrypt(&empty).unwrap(), Vec::<u8>::new());

    assert_eq!(engine.decrypt(&encrypted[..255]), Err(E2eError::MalformedCiphertext));
    assert_eq!(engine.decrypt(&[]), Err(E2eError::MalformedCiphertext));
    assert_eq!(engine.decrypt(&vec![0u8; 256]), Err(E2eError::DecryptionFailed));
}

#[test]
fn unrelated_keys_fail_the_pairing_probe() {
    let (first_private, first_public) = small_pair(1024);
    let (second_private, second_public) = small_pair(1024);

    let mut e2e_rsa = E2eRSA2K::new();
    let result = e2e_rsa.init(&first_private, &second_public);

    assert_eq!(result, Err(E2eError::KeyMismatch));
    assert!(!e2e_rsa.is_initialized());
    assert_eq!(e2e_rsa.encrypt(TEST_MESSAGE), Err(E2eError::NotInitialized));

    let result = e2e_rsa.init(&second_private, &first_public);
    assert_eq!(result, Err(E2eError::KeyMismatch));
    assert!(!e2e_rsa.is_initialized());

    assert_eq!(e2e_rsa.init(&second_private, &second_public), Ok(()));
    assert!(e2e_rsa.is_initialized());
}

#[test]
fn keys_in_swapped_places_are_refused() {
    let (private_pem, public_pem) = small_pair(1024);
    let mut e2e_rsa = E2eRSA2K::new();
    assert_eq!(e2e_rsa.init(&public_pem, &private_pem), Err(E2eError::FormatError));
    assert!(!e2e_rsa.is_initialized());
    assert_eq!(e2e_rsa.init(&private_pem, "not a key"), Err(E2eError::FormatError));
    assert!(!e2e_rsa.is_initialized());
}

#[test]
fn fresh_instance_refuses_decrypt_of_any_input() {
    let e2e_rsa = E2eRSA2K::new();
    assert!(!e2e_rsa.is_initialized());
    assert_eq!(e2e_rsa.decrypt(&vec![1u8; 256]), Err(E2eError::NotInitialized));
    assert_eq!(e2e_rsa.decrypt(&[]), Err(E2eError::NotInitialized));
    assert_eq!(e2e_rsa.encrypt(&[]), Err(E2eError::NotInitialized));
}

#[test]
fn new_with_unloadable_pem_stays_empty() {
    let engine = E2eRSA2K::new_with_key_files("garbage", "garbage");
    assert!(!engine.is_initialized());
    assert_eq!(engine.encrypt(b"x"), Err(E2eError::NotInitialized));
}

#[test]
fn install_pair_takes_keys_only_when_probe_returns() {
    let (private_pem, public_pem) = small_pair(1024);
    let private_key = RsaPrivateKey::from_pkcs8_pem(&private_pem).unwrap();
    let public_key = RsaPublicKey::from_public_key_pem(&public_pem).unwrap();

    let mut engine = E2eRSA2K::new();
    let result = engine.install_pair(
        private_key.clone(),
        public_key.clone(),
        128,
        Some(b"!!Qualgo!?".to_vec()),
    );
    assert_eq!(result, Err(E2eError::KeyMismatch));
    assert!(!engine.is_initialized());

    let result = engine.install_pair(private_key.clone(), public_key.clone(), 128, None);
    assert_eq!(result, Err(E2eError::KeyMismatch));
    assert!(!engine.is_initialized());

    let result = engine.install_pair(
        private_key.clone(),
        public_key.clone(),
        128,
        Some(b"!!Qualgo!!".to_vec()),
    );
    assert_eq!(result, Ok(()));
    assert!(engine.is_initialized());
    let encrypted = engine.encrypt(TEST_MESSAGE).unwrap();
    assert_eq!(engine.decrypt(&encrypted).unwrap(), TEST_MESSAGE.to_vec());

    let result = engine.install_pair(private_key, public_key, 128, Some(b"!!Qualgo!!".to_vec()));
    assert_eq!(result, Err(E2eError::AlreadyInitialized));
}

#[test]
fn password_sealed_private_key_round_trip() {
    let mut generator = E2eRSA2K::new();
    let sealed = generator.generate_pairkey_withexsecure("12345678aA@").unwrap();
    assert!(!generator.is_initialized());
    assert!(!sealed.public_pem.is_empty());
    assert!(!sealed.sealed_private_pem.starts_with(b"-----BEGIN"));

    let mut engine = E2eRSA2K::new();
    assert_eq!(
        engine.init_withexsecure(&sealed.sealed_private_pem[..3], &sealed.public_pem, "12345678aA@"),
        Err(E2eError::TruncatedInput)
    );
    assert!(!engine.is_initialized());

    engine
        .init_withexsecure(&sealed.sealed_private_pem, &sealed.public_pem, "12345678aA@")
        .unwrap();
    assert!(engine.is_initialized());
    let encrypted = engine.encrypt(TEST_MESSAGE).unwrap();
    assert_eq!(engine.decrypt(&encrypted).unwrap(), TEST_MESSAGE.to_vec());
    assert_eq!(
        engine.init_withexsecure(&sealed.sealed_private_pem, &sealed.public_pem, "12345678aA@"),
        Err(E2eError::AlreadyInitialized)
    );
}
