//! Integrity verification: HMAC-SHA-256 over IV then ciphertext, compared
//! byte for byte against the tag embedded in the envelope.
use vstd::prelude::*;

use hmac::Mac;

verus! {

/// The 32-byte HMAC-SHA-256 of a message under a key.
pub uninterp spec fn hmac_sha256(key: Seq<u8>, message: Seq<u8>) -> Seq<u8>;

/// Relies on `hmac::Hmac<sha2::Sha256>`: `new_from_slice` accepts keys of any
/// length, and the finalized output is a function of the key and the updated
/// message alone.
#[verifier::external_body]
fn hmac_sha256_compute(key: &[u8], message: &[u8]) -> (r: Vec<u8>)
    ensures
        r@ == hmac_sha256(key@, message@),
        r@.len() == 32,
{
    let mut mac = <hmac::Hmac<sha2::Sha256>>::new_from_slice(key)
        .expect("HMAC accepts keys of any length");
    mac.update(message);
    mac.finalize().into_bytes().to_vec()
}

/// Whether two byte strings are equal. The comparison reads every byte of the
/// shorter-or-equal prefix rather than stopping at the first difference, so
/// that a mismatched tag costs the same time wherever the difference sits.
fn bytes_eq(a: &[u8], b: &[u8]) -> (r: bool)
    ensures
        r == (a@ == b@),
{
    if a.len() != b.len() {
        return false;
    }
    let n = a.len();
    let mut same = true;
    let mut i: usize = 0;
    while i < n
        invariant
            n == a@.len(),
            a@.len() == b@.len(),
            i <= n,
            same == (forall|j: int| 0 <= j < i ==> a@[j] == b@[j]),
        decreases n - i,
    {
        same = same && (a[i] == b[i]);
        i += 1;
    }
    proof {
        if same {
            assert(a@ =~= b@);
        }
    }
    same
}

/// Recomputes the authentication tag over the concatenation of the IV and the
/// ciphertext, in that order with no length prefixes, and compares it against
/// the expected one.
pub fn verify(mac_key: &[u8], iv: &[u8], ciphertext: &[u8], expected_tag: &[u8]) -> (r: bool)
    ensures
        r == (expected_tag@ == hmac_sha256(mac_key@, iv@ + ciphertext@)),
{
    let mut message: Vec<u8> = Vec::new();
    message.extend_from_slice(iv);
    message.extend_from_slice(ciphertext);
    proof {
        assert(message@ =~= iv@ + ciphertext@);
    }
    let computed = hmac_sha256_compute(mac_key, message.as_slice());
    bytes_eq(expected_tag, computed.as_slice())
}

} // verus!
