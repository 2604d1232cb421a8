use attestation_verification::encryption::{decrypt, encrypt, generate_nonce};
use attestation_verification::CryptoError;

const KEY: [u8; 32] = [5u8; 32];
const OTHER_KEY: [u8; 32] = [6u8; 32];
const NONCE: [u8; 12] = [1u8; 12];
const OTHER_NONCE: [u8; 12] = [2u8; 12];

#[test]
fn generated_nonces_have_the_aes_gcm_size() {
    let nonce = generate_nonce();
    assert_eq!(nonce.len(), 12);
}

#[test]
fn encryption_round_trips_and_transforms() {
    let message = b"a private memory page".to_vec();
    let ciphertext = encrypt(&KEY, &NONCE, &message).expect("encryption should succeed");

    // The ciphertext carries a 16-byte tag and differs from the message.
    assert_eq!(ciphertext.len(), message.len() + 16);
    assert_ne!(&ciphertext[..message.len()], &message[..]);

    let recovered = decrypt(&KEY, &NONCE, &ciphertext).expect("decryption should succeed");
    assert_eq!(recovered, message);
}

#[test]
fn round_trip_with_generated_nonce() {
    let message = b"another private page".to_vec();
    let nonce = generate_nonce();
    let ciphertext = encrypt(&KEY, &nonce, &message).expect("encryption should succeed");
    let recovered = decrypt(&KEY, &nonce, &ciphertext).expect("decryption should succeed");
    assert_eq!(recovered, message);
}

#[test]
fn decryption_authenticates_its_inputs() {
    let message = b"a private memory page".to_vec();
    let ciphertext = encrypt(&KEY, &NONCE, &message).expect("encryption should succeed");

    // A different key fails.
    assert_eq!(decrypt(&OTHER_KEY, &NONCE, &ciphertext), Err(CryptoError::DecryptionFailed));

    // A different nonce fails.
    assert_eq!(decrypt(&KEY, &OTHER_NONCE, &ciphertext), Err(CryptoError::DecryptionFailed));

    // A tampered ciphertext fails.
    let mut tampered = ciphertext.clone();
    tampered[0] ^= 1;
    assert_eq!(decrypt(&KEY, &NONCE, &tampered), Err(CryptoError::DecryptionFailed));

    // A ciphertext shorter than its tag fails.
    assert_eq!(decrypt(&KEY, &NONCE, &[]), Err(CryptoError::DecryptionFailed));
}

#[test]
fn encryption_is_deterministic_in_key_nonce_and_message() {
    let message = b"a private memory page".to_vec();
    let first = encrypt(&KEY, &NONCE, &message).expect("encryption should succeed");
    let second = encrypt(&KEY, &NONCE, &message).expect("encryption should succeed");
    assert_eq!(first, second);

    // A different nonce yields a different ciphertext.
    let third = encrypt(&KEY, &OTHER_NONCE, &message).expect("encryption should succeed");
    assert_ne!(first, third);
}
