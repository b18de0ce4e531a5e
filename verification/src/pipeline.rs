//! The decrypt pipeline: derive keys, parse the envelope, verify integrity,
//! and only then decrypt — with early exit on the first failure.
use vstd::prelude::*;

use crate::decryptor;
use crate::decryptor::aes256_cbc_decrypt_spec;
use crate::envelope;
use crate::envelope::parse_spec;
use crate::envelope::split_fields_spec;
use crate::envelope::supported_tag;
use crate::envelope::tag_separator;
use crate::envelope::EnvelopeModel;
use crate::errors::DecryptError;
use crate::integrity;
use crate::integrity::hmac_sha256;
use crate::kdf;
use crate::kdf::enc_key_spec;
use crate::kdf::mac_key_spec;
use vstd::utf8::decode_utf8;
use vstd::utf8::encode_utf8;
use vstd::utf8::valid_utf8;

verus! {

/// What `decrypt` returns for password, salt and envelope given as byte
/// strings: the envelope is parsed; the recomputed tag must equal the embedded
/// one before any decryption; the decrypted bytes must unpad and then decode
/// as text.
pub open spec fn decrypt_bytes_spec(
    password: Seq<u8>,
    salt: Seq<u8>,
    iterations: u32,
    data: Seq<u8>,
) -> Result<Seq<char>, DecryptError> {
    match parse_spec(data) {
        Err(e) => Err(e),
        Ok(env) => if env.auth_tag != hmac_sha256(
            mac_key_spec(password, salt, iterations),
            env.iv + env.ciphertext,
        ) {
            Err(DecryptError::IntegrityCheckFailed)
        } else {
            match aes256_cbc_decrypt_spec(
                enc_key_spec(password, salt, iterations),
                env.iv,
                env.ciphertext,
            ) {
                None => Err(DecryptError::PaddingError),
                Some(pt) => if valid_utf8(pt) {
                    Ok(decode_utf8(pt))
                } else {
                    Err(DecryptError::TextDecodeError)
                },
            }
        },
    }
}

/// What `decrypt` returns for its four inputs, the three strings taken by
/// their UTF-8 bytes.
pub open spec fn decrypt_spec(
    password: Seq<char>,
    salt: Seq<char>,
    iterations: u32,
    data: Seq<char>,
) -> Result<Seq<char>, DecryptError> {
    decrypt_bytes_spec(
        encode_utf8(password),
        encode_utf8(salt),
        iterations,
        encode_utf8(data),
    )
}

/// Recovers the plaintext of a password-protected envelope, or says exactly
/// why it cannot.
pub fn decrypt(pw: &str, salt: &str, kdf_iterations: u32, data: &str) -> (r: Result<
    String,
    DecryptError,
>)
    ensures
        match r {
            Ok(s) => decrypt_spec(pw@, salt@, kdf_iterations, data@) == Ok::<
                Seq<char>,
                DecryptError,
            >(s@),
            Err(e) => decrypt_spec(pw@, salt@, kdf_iterations, data@) == Err::<
                Seq<char>,
                DecryptError,
            >(e),
        },
{
    let password_bytes = pw.as_bytes();
    let salt_bytes = salt.as_bytes();
    let data_bytes = data.as_bytes();
    let keys = match kdf::derive(password_bytes, salt_bytes, kdf_iterations) {
        Ok(keys) => keys,
        Err(e) => return Err(e),
    };
    let env = match envelope::parse(data_bytes) {
        Ok(env) => env,
        Err(e) => return Err(e),
    };
    if !integrity::verify(
        keys.mac_key.as_slice(),
        env.iv.as_slice(),
        env.ciphertext.as_slice(),
        env.auth_tag.as_slice(),
    ) {
        return Err(DecryptError::IntegrityCheckFailed);
    }
    decryptor::recover_plaintext(
        keys.encryption_key.as_slice(),
        env.iv.as_slice(),
        env.ciphertext.as_slice(),
    )
}

/// An envelope a compatible encryption routine produced decrypts to exactly
/// the plaintext that was encrypted: such an envelope parses, carries the tag
/// recomputable from the derived MAC key over IV then ciphertext, and its
/// ciphertext decrypts and unpads under the derived encryption key to the
/// original text's bytes.
pub proof fn lemma_compatible_envelope_round_trip(
    password: Seq<u8>,
    salt: Seq<u8>,
    iterations: u32,
    data: Seq<u8>,
    env: EnvelopeModel,
    plaintext: Seq<u8>,
)
    requires
        parse_spec(data) == Ok::<EnvelopeModel, DecryptError>(env),
        env.auth_tag == hmac_sha256(mac_key_spec(password, salt, iterations), env.iv + env.ciphertext),
        aes256_cbc_decrypt_spec(enc_key_spec(password, salt, iterations), env.iv, env.ciphertext)
            == Some(plaintext),
        valid_utf8(plaintext),
    ensures
        decrypt_bytes_spec(password, salt, iterations, data) == Ok::<Seq<char>, DecryptError>(
            decode_utf8(plaintext),
        ),
{
}

/// Verification precedes decryption: when the embedded tag is not the MAC of
/// IV then ciphertext under the derived MAC key, the call fails with
/// `IntegrityCheckFailed` — never a successful decryption and never a padding
/// or text failure, since the cipher is not reached.
pub proof fn lemma_verify_precedes_decrypt(
    password: Seq<u8>,
    salt: Seq<u8>,
    iterations: u32,
    data: Seq<u8>,
    env: EnvelopeModel,
)
    requires
        parse_spec(data) == Ok::<EnvelopeModel, DecryptError>(env),
        env.auth_tag != hmac_sha256(mac_key_spec(password, salt, iterations), env.iv + env.ciphertext),
    ensures
        decrypt_bytes_spec(password, salt, iterations, data) == Err::<Seq<char>, DecryptError>(
            DecryptError::IntegrityCheckFailed,
        ),
{
}

/// An alteration of the authentication tag of an otherwise well-formed
/// envelope — one whose original tag verifies — fails with
/// `IntegrityCheckFailed`. (An alteration of the IV or the ciphertext fails
/// the same way unless it produces a MAC collision; that no alteration does is
/// a property of HMAC itself, outside this model.)
pub proof fn lemma_tampered_tag_rejected(
    password: Seq<u8>,
    salt: Seq<u8>,
    iterations: u32,
    data_tampered: Seq<u8>,
    env_original: EnvelopeModel,
    env_tampered: EnvelopeModel,
)
    requires
        parse_spec(data_tampered) == Ok::<EnvelopeModel, DecryptError>(env_tampered),
        env_tampered.iv == env_original.iv,
        env_tampered.ciphertext == env_original.ciphertext,
        env_original.auth_tag == hmac_sha256(
            mac_key_spec(password, salt, iterations),
            env_original.iv + env_original.ciphertext,
        ),
        env_tampered.auth_tag != env_original.auth_tag,
    ensures
        decrypt_bytes_spec(password, salt, iterations, data_tampered) == Err::<
            Seq<char>,
            DecryptError,
        >(DecryptError::IntegrityCheckFailed),
{
}

/// An algorithm tag other than the supported one fails with
/// `UnsupportedAlgorithm`, whatever the remaining fields hold and whatever the
/// credentials are.
pub proof fn lemma_unsupported_algorithm(
    password: Seq<u8>,
    salt: Seq<u8>,
    iterations: u32,
    data: Seq<u8>,
    d: int,
)
    requires
        data.index_of_first(tag_separator()) == Some(d),
        data.subrange(0, d) != supported_tag(),
    ensures
        decrypt_bytes_spec(password, salt, iterations, data) == Err::<Seq<char>, DecryptError>(
            DecryptError::UnsupportedAlgorithm,
        ),
{
}

/// An envelope without the `.` separator fails with `MalformedEnvelope`.
pub proof fn lemma_missing_separator(password: Seq<u8>, salt: Seq<u8>, iterations: u32, data: Seq<u8>)
    requires
        data.index_of_first(tag_separator()) is None,
    ensures
        decrypt_bytes_spec(password, salt, iterations, data) == Err::<Seq<char>, DecryptError>(
            DecryptError::MalformedEnvelope,
        ),
{
}

/// An envelope whose remainder does not split into the three `|`-separated
/// fields fails with `MalformedEnvelope`.
pub proof fn lemma_missing_field(
    password: Seq<u8>,
    salt: Seq<u8>,
    iterations: u32,
    data: Seq<u8>,
    d: int,
)
    requires
        data.index_of_first(tag_separator()) == Some(d),
        data.subrange(0, d) == supported_tag(),
        split_fields_spec(data.subrange(d + 1, data.len() as int)) is None,
    ensures
        decrypt_bytes_spec(password, salt, iterations, data) == Err::<Seq<char>, DecryptError>(
            DecryptError::MalformedEnvelope,
        ),
{
}

/// A field that is not valid base64 fails with `Base64DecodeError`, whichever
/// of the three it is and whatever the other fields hold.
pub proof fn lemma_base64_failure(
    password: Seq<u8>,
    salt: Seq<u8>,
    iterations: u32,
    data: Seq<u8>,
    d: int,
    fields: (Seq<u8>, Seq<u8>, Seq<u8>),
)
    requires
        data.index_of_first(tag_separator()) == Some(d),
        data.subrange(0, d) == supported_tag(),
        split_fields_spec(data.subrange(d + 1, data.len() as int)) == Some(fields),
        crate::envelope::base64_decode_spec(fields.0) is None || crate::envelope::base64_decode_spec(
            fields.1,
        ) is None || crate::envelope::base64_decode_spec(fields.2) is None,
    ensures
        decrypt_bytes_spec(password, salt, iterations, data) == Err::<Seq<char>, DecryptError>(
            DecryptError::Base64DecodeError,
        ),
{
}

/// Decryption is deterministic: two outcomes of the same password, salt,
/// iteration count and envelope are the same outcome — a wrong password fails
/// the same way every time.
pub proof fn lemma_deterministic(
    password: Seq<u8>,
    salt: Seq<u8>,
    iterations: u32,
    data: Seq<u8>,
    r1: Result<Seq<char>, DecryptError>,
    r2: Result<Seq<char>, DecryptError>,
)
    requires
        r1 == decrypt_bytes_spec(password, salt, iterations, data),
        r2 == decrypt_bytes_spec(password, salt, iterations, data),
    ensures
        r1 == r2,
{
}

} // verus!
