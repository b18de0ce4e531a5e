//! End-to-end tests: envelopes are produced with the real crypto crates and
//! handed to the verified pipeline.

use envelope_decrypt::errors::DecryptError;
use envelope_decrypt::pipeline::decrypt;

use aes::cipher::block_padding::NoPadding;
use aes::cipher::block_padding::Pkcs7;
use aes::cipher::BlockEncryptMut;
use aes::cipher::KeyIvInit;
use base64::Engine;
use hmac::Mac;

const PASSWORD: &str = "correct horse";
const SALT: &str = "somesalt";
const ITERATIONS: u32 = 100000;

fn derive_keys(pw: &str, salt: &str, iterations: u32) -> ([u8; 32], [u8; 32]) {
    let prk = pbkdf2::pbkdf2_hmac_array::<sha2::Sha256, 32>(
        pw.as_bytes(),
        salt.as_bytes(),
        iterations,
    );
    let hk = hkdf::Hkdf::<sha2::Sha256>::from_prk(&prk).unwrap();
    let mut enc_key = [0u8; 32];
    let mut mac_key = [0u8; 32];
    hk.expand(b"enc", &mut enc_key).unwrap();
    hk.expand(b"mac", &mut mac_key).unwrap();
    (enc_key, mac_key)
}

fn envelope_from_parts(iv: &[u8], ciphertext: &[u8], tag: &[u8]) -> String {
    let b64 = &base64::engine::general_purpose::STANDARD;
    format!(
        "2.{}|{}|{}",
        b64.encode(iv),
        b64.encode(ciphertext),
        b64.encode(tag)
    )
}

fn authenticate(mac_key: &[u8; 32], iv: &[u8], ciphertext: &[u8]) -> [u8; 32] {
    let mut mac = <hmac::Hmac<sha2::Sha256>>::new_from_slice(mac_key).unwrap();
    mac.update(iv);
    mac.update(ciphertext);
    mac.finalize().into_bytes().into()
}

/// An envelope a compatible encryption routine would produce for `plaintext`.
fn make_envelope(pw: &str, salt: &str, iterations: u32, plaintext: &[u8]) -> String {
    let (enc_key, mac_key) = derive_keys(pw, salt, iterations);
    let iv = [7u8; 16];
    let ciphertext = cbc::Encryptor::<aes::Aes256>::new_from_slices(&enc_key, &iv)
        .unwrap()
        .encrypt_padded_vec_mut::<Pkcs7>(plaintext);
    let tag = authenticate(&mac_key, &iv, &ciphertext);
    envelope_from_parts(&iv, &ciphertext, &tag)
}

#[test]
fn recovers_reference_plaintext() {
    let envelope = make_envelope(PASSWORD, SALT, ITERATIONS, b"hello world");
    let r = decrypt(PASSWORD, SALT, ITERATIONS, &envelope);
    assert_eq!(r, Ok(String::from("hello world")));
}

#[test]
fn recovers_longer_plaintext_byte_for_byte() {
    let text = "The quick brown fox jumps over the lazy dog, twice over: \
                the quick brown fox jumps over the lazy dog.";
    let envelope = make_envelope(PASSWORD, SALT, ITERATIONS, text.as_bytes());
    let r = decrypt(PASSWORD, SALT, ITERATIONS, &envelope);
    assert_eq!(r, Ok(String::from(text)));
}

#[test]
fn wrong_password_fails_integrity_check() {
    let envelope = make_envelope(PASSWORD, SALT, ITERATIONS, b"hello world");
    let r = decrypt("wrong password", SALT, ITERATIONS, &envelope);
    assert_eq!(r, Err(DecryptError::IntegrityCheckFailed));
    assert!(!r.unwrap_err().message().is_empty());
}

#[test]
fn wrong_password_fails_the_same_way_every_time() {
    let envelope = make_envelope(PASSWORD, SALT, ITERATIONS, b"hello world");
    let first = decrypt("wrong password", SALT, ITERATIONS, &envelope);
    let second = decrypt("wrong password", SALT, ITERATIONS, &envelope);
    assert_eq!(first, second);
}

/// Changes one base64 character of the chosen `|`-separated field, leaving it
/// a valid base64 character, so only the decoded bytes change.
fn flip_in_field(envelope: &str, field: usize) -> String {
    let (tag, rest) = envelope.split_once('.').unwrap();
    let mut fields: Vec<String> = rest.split('|').map(String::from).collect();
    let target = fields[field].clone();
    let mut bytes: Vec<u8> = target.into_bytes();
    bytes[0] = if bytes[0] == b'A' { b'B' } else { b'A' };
    fields[field] = String::from_utf8(bytes).unwrap();
    format!("{}.{}", tag, fields.join("|"))
}

#[test]
fn altered_iv_fails_integrity_check() {
    let envelope = make_envelope(PASSWORD, SALT, ITERATIONS, b"hello world");
    let r = decrypt(PASSWORD, SALT, ITERATIONS, &flip_in_field(&envelope, 0));
    assert_eq!(r, Err(DecryptError::IntegrityCheckFailed));
}

#[test]
fn altered_ciphertext_fails_integrity_check() {
    let envelope = make_envelope(PASSWORD, SALT, ITERATIONS, b"hello world");
    let r = decrypt(PASSWORD, SALT, ITERATIONS, &flip_in_field(&envelope, 1));
    assert_eq!(r, Err(DecryptError::IntegrityCheckFailed));
}

#[test]
fn altered_tag_fails_integrity_check() {
    let envelope = make_envelope(PASSWORD, SALT, ITERATIONS, b"hello world");
    let r = decrypt(PASSWORD, SALT, ITERATIONS, &flip_in_field(&envelope, 2));
    assert_eq!(r, Err(DecryptError::IntegrityCheckFailed));
}

#[test]
fn short_tag_fails_integrity_check() {
    let envelope = make_envelope(PASSWORD, SALT, ITERATIONS, b"hello world");
    let (head, _) = envelope.rsplit_once('|').unwrap();
    let r = decrypt(PASSWORD, SALT, ITERATIONS, &format!("{}|AAAA", head));
    assert_eq!(r, Err(DecryptError::IntegrityCheckFailed));
}

#[test]
fn no_single_bit_flip_in_any_field_decrypts() {
    // A lower iteration count keeps the exhaustive sweep fast; the property
    // does not depend on it.
    let iterations = 1000;
    let envelope = make_envelope(PASSWORD, SALT, iterations, b"hello world");
    let dot = envelope.find('.').unwrap();
    let mut bytes = envelope.clone().into_bytes();
    for pos in dot + 1..bytes.len() {
        for bit in 0..8u8 {
            let original = bytes[pos];
            bytes[pos] = original ^ (1 << bit);
            if let Ok(tampered) = String::from_utf8(bytes.clone()) {
                let r = decrypt(PASSWORD, SALT, iterations, &tampered);
                assert!(r.is_err(), "flip at {} bit {} decrypted", pos, bit);
                let e = r.unwrap_err();
                assert_ne!(e, DecryptError::PaddingError);
                assert_ne!(e, DecryptError::TextDecodeError);
            }
            bytes[pos] = original;
        }
    }
}

#[test]
fn unsupported_algorithm_tag_rejected() {
    let envelope = make_envelope(PASSWORD, SALT, ITERATIONS, b"hello world");
    let r = decrypt(PASSWORD, SALT, ITERATIONS, &format!("3{}", &envelope[1..]));
    assert_eq!(r, Err(DecryptError::UnsupportedAlgorithm));
}

#[test]
fn unsupported_algorithm_wins_over_broken_fields() {
    let r = decrypt(PASSWORD, SALT, ITERATIONS, "9.!!!|not base64|");
    assert_eq!(r, Err(DecryptError::UnsupportedAlgorithm));
    let r = decrypt(PASSWORD, SALT, ITERATIONS, "zero.");
    assert_eq!(r, Err(DecryptError::UnsupportedAlgorithm));
}

#[test]
fn missing_dot_separator_is_malformed() {
    let r = decrypt(PASSWORD, SALT, ITERATIONS, "no separator here");
    assert_eq!(r, Err(DecryptError::MalformedEnvelope));
    let r = decrypt(PASSWORD, SALT, ITERATIONS, "");
    assert_eq!(r, Err(DecryptError::MalformedEnvelope));
}

#[test]
fn missing_fields_are_malformed() {
    assert_eq!(
        decrypt(PASSWORD, SALT, ITERATIONS, "2."),
        Err(DecryptError::MalformedEnvelope)
    );
    assert_eq!(
        decrypt(PASSWORD, SALT, ITERATIONS, "2.AAAA"),
        Err(DecryptError::MalformedEnvelope)
    );
    assert_eq!(
        decrypt(PASSWORD, SALT, ITERATIONS, "2.AAAA|AAAA"),
        Err(DecryptError::MalformedEnvelope)
    );
}

#[test]
fn non_base64_field_rejected_wherever_it_sits() {
    assert_eq!(
        decrypt(PASSWORD, SALT, ITERATIONS, "2.!!!|AAAA|AAAA"),
        Err(DecryptError::Base64DecodeError)
    );
    assert_eq!(
        decrypt(PASSWORD, SALT, ITERATIONS, "2.AAAA|!!!|AAAA"),
        Err(DecryptError::Base64DecodeError)
    );
    assert_eq!(
        decrypt(PASSWORD, SALT, ITERATIONS, "2.AAAA|AAAA|!!!"),
        Err(DecryptError::Base64DecodeError)
    );
    // The first failure is reported even when a later field is broken too.
    assert_eq!(
        decrypt(PASSWORD, SALT, ITERATIONS, "2.!!!|???|AAAA"),
        Err(DecryptError::Base64DecodeError)
    );
}

#[test]
fn wrong_iv_length_rejected() {
    let b64 = &base64::engine::general_purpose::STANDARD;
    let short_iv = b64.encode([7u8; 8]);
    let r = decrypt(
        PASSWORD,
        SALT,
        ITERATIONS,
        &format!("2.{}|AAAA|AAAA", short_iv),
    );
    assert_eq!(r, Err(DecryptError::InvalidIvLength));
}

#[test]
fn text_after_a_third_field_separator_is_ignored() {
    let envelope = make_envelope(PASSWORD, SALT, ITERATIONS, b"hello world");
    let r = decrypt(PASSWORD, SALT, ITERATIONS, &format!("{}|ignored", envelope));
    assert_eq!(r, Ok(String::from("hello world")));
}

#[test]
fn authenticated_garbage_fails_with_padding_error() {
    // A block whose decryption ends in 0x00 cannot carry valid PKCS#7 padding;
    // encrypting such a block without padding and authenticating it honestly
    // drives the pipeline past the integrity check into the unpadding failure.
    let (enc_key, mac_key) = derive_keys(PASSWORD, SALT, ITERATIONS);
    let iv = [7u8; 16];
    let mut block = [0u8; 16];
    block[15] = 0u8;
    let ciphertext = cbc::Encryptor::<aes::Aes256>::new_from_slices(&enc_key, &iv)
        .unwrap()
        .encrypt_padded_vec_mut::<NoPadding>(&block);
    let tag = authenticate(&mac_key, &iv, &ciphertext);
    let r = decrypt(
        PASSWORD,
        SALT,
        ITERATIONS,
        &envelope_from_parts(&iv, &ciphertext, &tag),
    );
    assert_eq!(r, Err(DecryptError::PaddingError));
}

#[test]
fn non_text_plaintext_fails_with_text_decode_error() {
    let envelope = make_envelope(PASSWORD, SALT, ITERATIONS, &[0xff, 0xfe, 0xfd]);
    let r = decrypt(PASSWORD, SALT, ITERATIONS, &envelope);
    assert_eq!(r, Err(DecryptError::TextDecodeError));
}

#[test]
fn error_messages_are_distinct_and_nonempty() {
    let kinds = [
        DecryptError::UnsupportedAlgorithm,
        DecryptError::MalformedEnvelope,
        DecryptError::Base64DecodeError,
        DecryptError::InvalidIvLength,
        DecryptError::KeyDerivationError,
        DecryptError::IntegrityCheckFailed,
        DecryptError::PaddingError,
        DecryptError::TextDecodeError,
    ];
    for (i, a) in kinds.iter().enumerate() {
        assert!(!a.message().is_empty());
        for b in kinds.iter().skip(i + 1) {
            assert_ne!(a.message(), b.message());
        }
    }
}
