//! The envelope format: `"<algorithmTag>.<iv_b64>|<ciphertext_b64>|<authTag_b64>"`.
//!
//! The text before the first `.` is the algorithm tag; the rest is consumed
//! left to right as three `|`-separated fields — IV, ciphertext,
//! authentication tag — each standard-alphabet base64 with padding. Anything
//! after the third field is ignored.
use vstd::prelude::*;

use base64::Engine;

use crate::errors::DecryptError;

verus! {

/// The byte that separates the algorithm tag from the fields: `'.'`.
pub open spec fn tag_separator() -> u8 {
    46u8
}

/// The byte that separates the three fields from one another: `'|'`.
pub open spec fn field_separator() -> u8 {
    124u8
}

/// The one supported algorithm tag, the text `"2"`.
pub open spec fn supported_tag() -> Seq<u8> {
    seq![50u8]
}

/// The cipher's block size in bytes, the required IV length.
pub open spec fn block_size() -> int {
    16
}

/// What `base64::engine::general_purpose::STANDARD` decodes a byte string to:
/// `Some` of the decoded bytes where the input is valid standard base64 with
/// padding, `None` where it is not.
pub uninterp spec fn base64_decode_spec(text: Seq<u8>) -> Option<Seq<u8>>;

/// Relies on `base64::engine::general_purpose::STANDARD.decode`: the standard
/// alphabet with padding, and the result is a function of the input alone.
#[verifier::external_body]
fn base64_decode(text: &[u8]) -> (r: Option<Vec<u8>>)
    ensures
        match r {
            Some(v) => base64_decode_spec(text@) == Some(v@),
            None => base64_decode_spec(text@) is None,
        },
{
    base64::engine::general_purpose::STANDARD.decode(text).ok()
}

/// The structured record a well-formed envelope string parses to.
pub struct Envelope {
    /// The algorithm tag; parsing accepts only the supported value `2`.
    pub algorithm_tag: u8,
    /// The block cipher's initialization vector, exactly one block long.
    pub iv: Vec<u8>,
    /// The encrypted payload.
    pub ciphertext: Vec<u8>,
    /// The authentication tag embedded in the envelope.
    pub auth_tag: Vec<u8>,
}

/// The mathematical content of an [`Envelope`].
pub struct EnvelopeModel {
    /// The decoded initialization vector.
    pub iv: Seq<u8>,
    /// The decoded ciphertext.
    pub ciphertext: Seq<u8>,
    /// The decoded authentication tag.
    pub auth_tag: Seq<u8>,
}

impl View for Envelope {
    type V = EnvelopeModel;

    open spec fn view(&self) -> EnvelopeModel {
        EnvelopeModel { iv: self.iv@, ciphertext: self.ciphertext@, auth_tag: self.auth_tag@ }
    }
}

impl Envelope {
    /// The lengths checked at parse time hold, and the tag is the supported one.
    pub open spec fn wf(self) -> bool {
        self.algorithm_tag == 2 && self.iv@.len() == block_size()
    }
}

/// The three raw fields between the separators, where the rest of the envelope
/// holds at least three: the text up to the first `|`, the text between the
/// first and the second, and the text from the second up to the third `|` or,
/// absent one, up to the end.
pub open spec fn split_fields_spec(rest: Seq<u8>) -> Option<(Seq<u8>, Seq<u8>, Seq<u8>)> {
    match rest.index_of_first(field_separator()) {
        None => None,
        Some(p1) => {
            let iv_text = rest.subrange(0, p1);
            let r1 = rest.subrange(p1 + 1, rest.len() as int);
            match r1.index_of_first(field_separator()) {
                None => None,
                Some(p2) => {
                    let ct_text = r1.subrange(0, p2);
                    let r2 = r1.subrange(p2 + 1, r1.len() as int);
                    let tag_text = match r2.index_of_first(field_separator()) {
                        Some(p3) => r2.subrange(0, p3),
                        None => r2,
                    };
                    Some((iv_text, ct_text, tag_text))
                },
            }
        },
    }
}

/// What decoding the three fields yields: the first base64 failure wins, then
/// an IV of the wrong length is rejected.
pub open spec fn decode_fields_spec(rest: Seq<u8>) -> Result<EnvelopeModel, DecryptError> {
    match split_fields_spec(rest) {
        None => Err(DecryptError::MalformedEnvelope),
        Some((iv_text, ct_text, tag_text)) => match base64_decode_spec(iv_text) {
            None => Err(DecryptError::Base64DecodeError),
            Some(iv) => match base64_decode_spec(ct_text) {
                None => Err(DecryptError::Base64DecodeError),
                Some(ciphertext) => match base64_decode_spec(tag_text) {
                    None => Err(DecryptError::Base64DecodeError),
                    Some(auth_tag) => if iv.len() != block_size() {
                        Err(DecryptError::InvalidIvLength)
                    } else {
                        Ok(EnvelopeModel { iv, ciphertext, auth_tag })
                    },
                },
            },
        },
    }
}

/// What `parse` returns on every input: without a `.` the envelope is
/// malformed; a tag other than the supported one fails whatever the fields
/// hold; otherwise the fields decide.
pub open spec fn parse_spec(data: Seq<u8>) -> Result<EnvelopeModel, DecryptError> {
    match data.index_of_first(tag_separator()) {
        None => Err(DecryptError::MalformedEnvelope),
        Some(d) => if data.subrange(0, d) != supported_tag() {
            Err(DecryptError::UnsupportedAlgorithm)
        } else {
            decode_fields_spec(data.subrange(d + 1, data.len() as int))
        },
    }
}

/// The least index at which `target` occurs in `data`, if it occurs at all.
fn find_byte(data: &[u8], target: u8) -> (r: Option<usize>)
    ensures
        match r {
            Some(i) => i < data@.len() && data@[i as int] == target
                && data@.index_of_first(target) == Some(i as int),
            None => data@.index_of_first(target) is None,
        },
{
    let n = data.len();
    let mut i: usize = 0;
    while i < n
        invariant
            n == data@.len(),
            i <= n,
            forall|j: int| 0 <= j < i ==> data@[j] != target,
        decreases n - i,
    {
        if data[i] == target {
            proof {
                assert(data@.contains(target));
                data@.index_of_first_ensures(target);
            }
            return Some(i);
        }
        i += 1;
    }
    proof {
        data@.index_of_first_ensures(target);
        if data@.contains(target) {
            let w = choose|w: int| 0 <= w < data@.len() && data@[w] == target;
            assert(data@[w] != target);
        }
    }
    None
}

/// Turns an envelope string's bytes into its structured record.
pub fn parse(data: &[u8]) -> (r: Result<Envelope, DecryptError>)
    ensures
        match r {
            Ok(env) => parse_spec(data@) == Ok::<EnvelopeModel, DecryptError>(env@) && env.wf(),
            Err(e) => parse_spec(data@) == Err::<EnvelopeModel, DecryptError>(e),
        },
{
    let dot = match find_byte(data, 46u8) {
        Some(d) => d,
        None => return Err(DecryptError::MalformedEnvelope),
    };
    let n = data.len();
    let tag = &data[0..dot];
    let rest = &data[dot + 1..n];
    if !(tag.len() == 1 && tag[0] == 50u8) {
        proof {
            assert(data@.subrange(0, dot as int) != supported_tag());
        }
        return Err(DecryptError::UnsupportedAlgorithm);
    }
    proof {
        assert(data@.subrange(0, dot as int) =~= supported_tag());
    }
    let p1 = match find_byte(rest, 124u8) {
        Some(p) => p,
        None => return Err(DecryptError::MalformedEnvelope),
    };
    let iv_text = &rest[0..p1];
    let r1 = &rest[p1 + 1..rest.len()];
    let p2 = match find_byte(r1, 124u8) {
        Some(p) => p,
        None => return Err(DecryptError::MalformedEnvelope),
    };
    let ct_text = &r1[0..p2];
    let r2 = &r1[p2 + 1..r1.len()];
    let tag_text = match find_byte(r2, 124u8) {
        Some(p3) => &r2[0..p3],
        None => r2,
    };
    let iv = match base64_decode(iv_text) {
        Some(v) => v,
        None => return Err(DecryptError::Base64DecodeError),
    };
    let ciphertext = match base64_decode(ct_text) {
        Some(v) => v,
        None => return Err(DecryptError::Base64DecodeError),
    };
    let auth_tag = match base64_decode(tag_text) {
        Some(v) => v,
        None => return Err(DecryptError::Base64DecodeError),
    };
    if iv.len() != 16 {
        return Err(DecryptError::InvalidIvLength);
    }
    Ok(Envelope { algorithm_tag: 2, iv, ciphertext, auth_tag })
}

} // verus!
