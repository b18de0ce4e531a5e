//! Decryption: AES-256 in CBC mode, PKCS#7 unpadding, and validation of the
//! recovered bytes as UTF-8 text.
use vstd::prelude::*;

use aes::cipher::block_padding::Pkcs7;
use aes::cipher::BlockDecryptMut;
use aes::cipher::KeyIvInit;

use crate::errors::DecryptError;

verus! {

/// What AES-256-CBC decryption followed by PKCS#7 unpadding yields for a
/// 32-byte key, a 16-byte IV and a ciphertext: `Some` of the plaintext bytes,
/// or `None` where the ciphertext is not a whole number of blocks or the final
/// block's padding is malformed.
pub uninterp spec fn aes256_cbc_decrypt_spec(key: Seq<u8>, iv: Seq<u8>, ciphertext: Seq<u8>) -> Option<
    Seq<u8>,
>;

/// Relies on `cbc::Decryptor::<aes::Aes256>::new_from_slices` and
/// `cipher::BlockDecryptMut::decrypt_padded_vec_mut` with PKCS#7: the outcome
/// is a function of key, IV and ciphertext alone, and it is an error exactly
/// when the input is not a whole number of blocks or the padding is malformed.
#[verifier::external_body]
fn aes256_cbc_decrypt(key: &[u8], iv: &[u8], ciphertext: &[u8]) -> (r: Option<Vec<u8>>)
    requires
        key@.len() == 32,
        iv@.len() == 16,
    ensures
        match r {
            Some(v) => aes256_cbc_decrypt_spec(key@, iv@, ciphertext@) == Some(v@),
            None => aes256_cbc_decrypt_spec(key@, iv@, ciphertext@) is None,
        },
{
    let dec = match cbc::Decryptor::<aes::Aes256>::new_from_slices(key, iv) {
        Ok(dec) => dec,
        Err(_) => return None,
    };
    dec.decrypt_padded_vec_mut::<Pkcs7>(ciphertext).ok()
}

/// Relies on `String::from_utf8`: it succeeds exactly on valid UTF-8, and the
/// returned string holds exactly the given bytes.
#[verifier::external_body]
fn bytes_to_string(bytes: Vec<u8>) -> (r: Option<String>)
    ensures
        r is Some <==> vstd::utf8::valid_utf8(bytes@),
        r matches Some(s) ==> vstd::utf8::encode_utf8(s@) == bytes@,
{
    match String::from_utf8(bytes) {
        Ok(s) => Some(s),
        Err(_) => None,
    }
}

/// Decrypts the ciphertext under the encryption key and IV, removes the
/// padding, and validates the result as text.
pub fn recover_plaintext(encryption_key: &[u8], iv: &[u8], ciphertext: &[u8]) -> (r: Result<
    String,
    DecryptError,
>)
    requires
        encryption_key@.len() == 32,
        iv@.len() == 16,
    ensures
        match aes256_cbc_decrypt_spec(encryption_key@, iv@, ciphertext@) {
            None => r == Err::<String, DecryptError>(DecryptError::PaddingError),
            Some(pt) => if vstd::utf8::valid_utf8(pt) {
                r matches Ok(s) && s@ == vstd::utf8::decode_utf8(pt)
            } else {
                r == Err::<String, DecryptError>(DecryptError::TextDecodeError)
            },
        },
{
    let plaintext_bytes = match aes256_cbc_decrypt(encryption_key, iv, ciphertext) {
        Some(v) => v,
        None => return Err(DecryptError::PaddingError),
    };
    match bytes_to_string(plaintext_bytes) {
        Some(s) => {
            proof {
                vstd::utf8::encode_utf8_decode_utf8(s@);
            }
            Ok(s)
        },
        None => Err(DecryptError::TextDecodeError),
    }
}

} // verus!
