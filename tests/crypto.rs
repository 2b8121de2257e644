use base64::Engine;
use greenlight_backend::crypto::CryptoService;
use greenlight_backend::error::AppError;

const ZERO_16_PHRASE: &str = "abandon abandon abandon abandon abandon abandon abandon abandon abandon abandon abandon about";

fn zero_32_phrase() -> String {
    let mut words = vec!["abandon"; 23];
    words.push("art");
    words.join(" ")
}

fn decoded_len(blob: &str) -> usize {
    base64::engine::general_purpose::STANDARD.decode(blob).unwrap().len()
}

#[test]
fn encrypt_then_decrypt_round_trips() {
    let blob = CryptoService::encrypt("secret words here", "password123").unwrap();
    assert_eq!(CryptoService::decrypt(&blob, "password123").unwrap(), "secret words here");
}

#[test]
fn round_trip_of_empty_and_unicode_text() {
    let blob = CryptoService::encrypt("", "password123").unwrap();
    assert_eq!(CryptoService::decrypt(&blob, "password123").unwrap(), "");
    let blob = CryptoService::encrypt("grüße, 世界", "pässwörd").unwrap();
    assert_eq!(CryptoService::decrypt(&blob, "pässwörd").unwrap(), "grüße, 世界");
}

#[test]
fn decrypt_with_other_password_is_crypto_error() {
    let blob = CryptoService::encrypt("my seed", "password123").unwrap();
    let r = CryptoService::decrypt(&blob, "password124");
    assert!(matches!(r, Err(AppError::Cryptography(_))));
}

#[test]
fn two_encryptions_differ_but_have_same_length() {
    let a = CryptoService::encrypt("same message", "password123").unwrap();
    let b = CryptoService::encrypt("same message", "password123").unwrap();
    assert_ne!(a, b);
    assert_eq!(decoded_len(&a), 44 + "same message".len() + 16);
    assert_eq!(decoded_len(&b), 44 + "same message".len() + 16);
}

#[test]
fn sealed_bytes_frame_starts_with_salt_and_nonce() {
    let salt = [7u8; 32];
    let nonce = [9u8; 12];
    let blob = CryptoService::encrypt_bytes_with(&[1, 2, 3], "password123", &salt, &nonce).unwrap();
    let frame = base64::engine::general_purpose::STANDARD.decode(&blob).unwrap();
    assert_eq!(frame.len(), 44 + 3 + 16);
    assert_eq!(&frame[0..32], &salt[..]);
    assert_eq!(&frame[32..44], &nonce[..]);
    assert_ne!(&frame[44..47], &[1u8, 2, 3][..]);
    assert_eq!(CryptoService::decrypt_bytes(&blob, "password123").unwrap(), vec![1, 2, 3]);
    let again = CryptoService::encrypt_bytes_with(&[1, 2, 3], "password123", &salt, &nonce).unwrap();
    assert_eq!(blob, again);
}

#[test]
fn malformed_blobs_are_crypto_errors() {
    assert!(matches!(CryptoService::decrypt("not base64!!", "password123"), Err(AppError::Cryptography(_))));
    let short = base64::engine::general_purpose::STANDARD.encode([0u8; 43]);
    assert!(matches!(CryptoService::decrypt(&short, "password123"), Err(AppError::Cryptography(_))));
    let header_only = base64::engine::general_purpose::STANDARD.encode([0u8; 44]);
    assert!(matches!(CryptoService::decrypt(&header_only, "password123"), Err(AppError::Cryptography(_))));
}

#[test]
fn tampered_blob_is_crypto_error() {
    let blob = CryptoService::encrypt("my seed", "password123").unwrap();
    let mut frame = base64::engine::general_purpose::STANDARD.decode(&blob).unwrap();
    let last = frame.len() - 1;
    frame[last] ^= 1;
    let tampered = base64::engine::general_purpose::STANDARD.encode(frame);
    assert!(matches!(CryptoService::decrypt(&tampered, "password123"), Err(AppError::Cryptography(_))));
}

#[test]
fn derive_key_is_deterministic_and_salted() {
    let a = CryptoService::derive_key("password123", &[1u8; 32]);
    let b = CryptoService::derive_key("password123", &[1u8; 32]);
    let c = CryptoService::derive_key("password123", &[2u8; 32]);
    assert_eq!(a.len(), 32);
    assert_eq!(a, b);
    assert_ne!(a, c);
}

#[test]
fn hashed_password_verifies() {
    let h = CryptoService::hash_password("password123").unwrap();
    assert!(h.starts_with("$argon2"));
    assert_eq!(CryptoService::verify_password("password123", &h).unwrap(), true);
    assert_eq!(CryptoService::verify_password("password124", &h).unwrap(), false);
}

#[test]
fn hashes_of_same_password_differ() {
    let a = CryptoService::hash_password("password123").unwrap();
    let b = CryptoService::hash_password("password123").unwrap();
    assert_ne!(a, b);
}

#[test]
fn corrupt_hash_is_crypto_error_not_false() {
    let r = CryptoService::verify_password("password123", "not a phc string");
    assert!(matches!(r, Err(AppError::Cryptography(_))));
    let r = CryptoService::verify_password("password123", "");
    assert!(matches!(r, Err(AppError::Cryptography(_))));
}

#[test]
fn generated_phrases_validate() {
    for _ in 0..3 {
        let p = CryptoService::generate_mnemonic().unwrap();
        assert_eq!(p.split(' ').count(), 24);
        assert_eq!(CryptoService::validate_mnemonic(&p).unwrap(), true);
        assert_eq!(CryptoService::mnemonic_to_seed(&p).unwrap().len(), 64);
    }
}

#[test]
fn phrase_from_known_entropy() {
    assert_eq!(CryptoService::mnemonic_from_entropy(&[0u8; 16]).unwrap(), ZERO_16_PHRASE);
    assert_eq!(CryptoService::mnemonic_from_entropy(&[0u8; 32]).unwrap(), zero_32_phrase());
    assert!(matches!(CryptoService::mnemonic_from_entropy(&[0u8; 15]), Err(AppError::Cryptography(_))));
    assert!(matches!(CryptoService::mnemonic_from_entropy(&[0u8; 36]), Err(AppError::Cryptography(_))));
}

#[test]
fn flipped_checksum_word_is_rejected() {
    assert_eq!(CryptoService::validate_mnemonic(&zero_32_phrase()).unwrap(), true);
    let flipped = format!("{} abandon", vec!["abandon"; 23].join(" "));
    assert_eq!(CryptoService::validate_mnemonic(&flipped).unwrap(), false);
    let flipped12 = ZERO_16_PHRASE.replace("about", "abandon");
    assert_eq!(CryptoService::validate_mnemonic(&flipped12).unwrap(), false);
}

#[test]
fn invalid_phrases_never_error() {
    assert_eq!(CryptoService::validate_mnemonic("").unwrap(), false);
    assert_eq!(CryptoService::validate_mnemonic("hello world").unwrap(), false);
    assert_eq!(CryptoService::validate_mnemonic(&ZERO_16_PHRASE.replace("about", "zzzz")).unwrap(), false);
}

#[test]
fn seed_of_known_phrase() {
    let seed = CryptoService::mnemonic_to_seed(ZERO_16_PHRASE).unwrap();
    assert_eq!(
        hex::encode(seed),
        "5eb00bbddcf069084889a8ab9155568165f5c453ccb85e70811aaed6f6da5fc19a5ac40b389cd370d086206dec8aa6c43daea6690f20ad3d8d48b2d2ce9e38e4"
    );
    assert!(matches!(CryptoService::mnemonic_to_seed("hello world"), Err(AppError::Cryptography(_))));
}

#[test]
fn hash_with_fixed_salt_is_deterministic() {
    let salt = [3u8; 32];
    let a = CryptoService::hash_password_with("password123", &salt).unwrap();
    let b = CryptoService::hash_password_with("password123", &salt).unwrap();
    assert_eq!(a, b);
    assert_eq!(CryptoService::verify_password("password123", &a).unwrap(), true);
    assert!(matches!(CryptoService::hash_password_with("password123", &[3u8; 7]), Err(AppError::Cryptography(_))));
}

#[test]
fn non_utf8_plaintext_opens_as_bytes_only() {
    let blob = CryptoService::encrypt_bytes(&[0xff, 0xfe], "password123").unwrap();
    assert_eq!(CryptoService::decrypt_bytes(&blob, "password123").unwrap(), vec![0xff, 0xfe]);
    assert!(matches!(CryptoService::decrypt(&blob, "password123"), Err(AppError::Cryptography(_))));
}

#[test]
fn decryption_failures_are_one_error() {
    let good = CryptoService::encrypt("my seed", "password123").unwrap();
    let not_base64 = CryptoService::decrypt("not base64!!", "password123").unwrap_err();
    let short = base64::engine::general_purpose::STANDARD.encode([0u8; 43]);
    let too_short = CryptoService::decrypt(&short, "password123").unwrap_err();
    let wrong_key = CryptoService::decrypt(&good, "password124").unwrap_err();
    assert_eq!(not_base64, AppError::Cryptography("Decryption failed".to_string()));
    assert_eq!(not_base64, too_short);
    assert_eq!(too_short, wrong_key);
}

#[test]
fn opened_frame_length_matches_plaintext() {
    let blob = CryptoService::encrypt("grüße", "password123").unwrap();
    let text = CryptoService::decrypt(&blob, "password123").unwrap();
    assert_eq!(decoded_len(&blob), 44 + text.len() + 16);
}

#[test]
fn hash_salt_length_is_checked() {
    for len in [0usize, 1, 2, 7, 49] {
        let salt = vec![5u8; len];
        assert!(matches!(CryptoService::hash_password_with("password123", &salt), Err(AppError::Cryptography(_))));
    }
    assert!(CryptoService::hash_password_with("password123", &[5u8; 8]).is_ok());
    assert!(CryptoService::hash_password_with("password123", &[5u8; 48]).is_ok());
}
