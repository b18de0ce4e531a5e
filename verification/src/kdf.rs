//! Key derivation: password, salt and iteration count in, two 32-byte keys out.
//!
//! A PBKDF2-HMAC-SHA-256 pass over the password and salt yields a 32-byte
//! intermediate secret; an HKDF-SHA-256 expand-only step (the extract stage is
//! skipped, the PBKDF2 output already being treated as uniformly random) turns
//! it into an encryption key and a MAC key under the distinct context labels
//! `"enc"` and `"mac"`.
use vstd::prelude::*;

use crate::errors::DecryptError;

verus! {

/// The 32-byte secret that PBKDF2-HMAC-SHA-256 derives from a password and a
/// salt after the given number of iterations.
pub uninterp spec fn pbkdf2_sha256(password: Seq<u8>, salt: Seq<u8>, iterations: u32) -> Seq<u8>;

/// The 32-byte key that the HKDF-SHA-256 expand step produces from a 32-byte
/// pseudorandom key and a context label.
pub uninterp spec fn hkdf_sha256_expand(prk: Seq<u8>, info: Seq<u8>) -> Seq<u8>;

/// The context label under which the encryption key is expanded: `"enc"`.
pub open spec fn enc_label() -> Seq<u8> {
    seq![101u8, 110u8, 99u8]
}

/// The context label under which the MAC key is expanded: `"mac"`.
pub open spec fn mac_label() -> Seq<u8> {
    seq![109u8, 97u8, 99u8]
}

/// The encryption key that `derive` produces for these inputs.
pub open spec fn enc_key_spec(password: Seq<u8>, salt: Seq<u8>, iterations: u32) -> Seq<u8> {
    hkdf_sha256_expand(pbkdf2_sha256(password, salt, iterations), enc_label())
}

/// The MAC key that `derive` produces for these inputs.
pub open spec fn mac_key_spec(password: Seq<u8>, salt: Seq<u8>, iterations: u32) -> Seq<u8> {
    hkdf_sha256_expand(pbkdf2_sha256(password, salt, iterations), mac_label())
}

/// Relies on `pbkdf2::pbkdf2_hmac_array` with SHA-256 and a 32-byte output:
/// the result is a function of the password, the salt and the iteration count
/// alone, and HMAC accepts keys of any length, so the call cannot fail.
#[verifier::external_body]
fn pbkdf2_derive(password: &[u8], salt: &[u8], iterations: u32) -> (r: Vec<u8>)
    ensures
        r@ == pbkdf2_sha256(password@, salt@, iterations),
        r@.len() == 32,
{
    pbkdf2::pbkdf2_hmac_array::<sha2::Sha256, 32>(password, salt, iterations).to_vec()
}

/// Relies on `hkdf::Hkdf::<sha2::Sha256>::from_prk` and `Hkdf::expand`:
/// the output is a function of the pseudorandom key and the label alone;
/// `from_prk` accepts any key of at least the hash output size (32 bytes for
/// SHA-256) and `expand` fills any buffer of at most 255 * 32 bytes, so with a
/// 32-byte key and a 32-byte output neither call can fail.
#[verifier::external_body]
fn hkdf_expand_label(prk: &[u8], label: &[u8]) -> (r: Option<Vec<u8>>)
    requires
        prk@.len() == 32,
    ensures
        r is Some,
        r matches Some(k) ==> k@ == hkdf_sha256_expand(prk@, label@) && k@.len() == 32,
{
    let hk = match hkdf::Hkdf::<sha2::Sha256>::from_prk(prk) {
        Ok(hk) => hk,
        Err(_) => return None,
    };
    let mut okm = [0u8; 32];
    match hk.expand(label, &mut okm) {
        Ok(()) => Some(okm.to_vec()),
        Err(_) => None,
    }
}

/// The two independent keys a call works with, derived once per call and
/// discarded with it.
pub struct KeyMaterial {
    /// The 32-byte AES-256 key, expanded under the label `"enc"`.
    pub encryption_key: Vec<u8>,
    /// The 32-byte HMAC-SHA-256 key, expanded under the label `"mac"`.
    pub mac_key: Vec<u8>,
}

impl KeyMaterial {
    /// Both keys have the fixed 256-bit size the cipher and the MAC expect.
    pub open spec fn wf(self) -> bool {
        self.encryption_key@.len() == 32 && self.mac_key@.len() == 32
    }
}

/// Derives the encryption key and the MAC key for a password, a salt and an
/// iteration count. The expansion step reports failure only on an internal
/// invariant violation, which the fixed 32-byte sizes rule out, so the call
/// always succeeds.
pub fn derive(password: &[u8], salt: &[u8], iterations: u32) -> (r: Result<
    KeyMaterial,
    DecryptError,
>)
    ensures
        r is Ok,
        r matches Ok(km) ==> km.wf() && km.encryption_key@ == enc_key_spec(
            password@,
            salt@,
            iterations,
        ) && km.mac_key@ == mac_key_spec(password@, salt@, iterations),
        r matches Err(e) ==> e == DecryptError::KeyDerivationError,
{
    let prk = pbkdf2_derive(password, salt, iterations);
    let mut enc_label_bytes: Vec<u8> = Vec::new();
    enc_label_bytes.push(101u8);
    enc_label_bytes.push(110u8);
    enc_label_bytes.push(99u8);
    proof {
        assert(enc_label_bytes@ =~= enc_label());
    }
    let mut mac_label_bytes: Vec<u8> = Vec::new();
    mac_label_bytes.push(109u8);
    mac_label_bytes.push(97u8);
    mac_label_bytes.push(99u8);
    proof {
        assert(mac_label_bytes@ =~= mac_label());
    }
    let encryption_key = match hkdf_expand_label(prk.as_slice(), enc_label_bytes.as_slice()) {
        Some(k) => k,
        None => return Err(DecryptError::KeyDerivationError),
    };
    let mac_key = match hkdf_expand_label(prk.as_slice(), mac_label_bytes.as_slice()) {
        Some(k) => k,
        None => return Err(DecryptError::KeyDerivationError),
    };
    Ok(KeyMaterial { encryption_key, mac_key })
}

} // verus!
