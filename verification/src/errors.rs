//! The closed set of reasons a decryption call can fail.
use vstd::prelude::*;

verus! {

/// Every failure of the decrypt pipeline is one of these kinds; a call either
/// returns the recovered plaintext or exactly one of them.
#[derive(Clone, Copy, Debug, PartialEq, Eq, Structural)]
pub enum DecryptError {
    /// The algorithm tag in front of the `.` separator is not the supported one.
    UnsupportedAlgorithm,
    /// The envelope lacks the `.` separator, one of the three `|`-separated
    /// fields, or carries an authentication tag of the wrong size.
    MalformedEnvelope,
    /// One of the three fields is not valid standard base64.
    Base64DecodeError,
    /// The decoded initialization vector is not exactly one cipher block.
    InvalidIvLength,
    /// The key-expansion step reported an internal invariant violation.
    KeyDerivationError,
    /// The recomputed authentication tag does not match the embedded one.
    IntegrityCheckFailed,
    /// The decrypted data does not end in well-formed block padding.
    PaddingError,
    /// The unpadded plaintext bytes are not valid encoded text.
    TextDecodeError,
}

impl DecryptError {
    /// The text `message` renders each failure kind as.
    pub open spec fn message_spec(self) -> Seq<char> {
        match self {
            DecryptError::UnsupportedAlgorithm => "unsupported algorithm tag"@,
            DecryptError::MalformedEnvelope => "malformed envelope"@,
            DecryptError::Base64DecodeError => "base64 decode error"@,
            DecryptError::InvalidIvLength => "invalid IV length"@,
            DecryptError::KeyDerivationError => "key derivation error"@,
            DecryptError::IntegrityCheckFailed => "MAC mismatch. Might be the wrong password!"@,
            DecryptError::PaddingError => "padding error"@,
            DecryptError::TextDecodeError => "plaintext is not valid text"@,
        }
    }

    /// A human-readable rendering of the failure, for hosts that show a message.
    pub fn message(&self) -> (r: String)
        ensures
            r@ == self.message_spec(),
            r@.len() > 0,
    {
        let s: &str = match self {
            DecryptError::UnsupportedAlgorithm => "unsupported algorithm tag",
            DecryptError::MalformedEnvelope => "malformed envelope",
            DecryptError::Base64DecodeError => "base64 decode error",
            DecryptError::InvalidIvLength => "invalid IV length",
            DecryptError::KeyDerivationError => "key derivation error",
            DecryptError::IntegrityCheckFailed => "MAC mismatch. Might be the wrong password!",
            DecryptError::PaddingError => "padding error",
            DecryptError::TextDecodeError => "plaintext is not valid text",
        };
        proof {
            reveal_strlit("unsupported algorithm tag");
            reveal_strlit("malformed envelope");
            reveal_strlit("base64 decode error");
            reveal_strlit("invalid IV length");
            reveal_strlit("key derivation error");
            reveal_strlit("MAC mismatch. Might be the wrong password!");
            reveal_strlit("padding error");
            reveal_strlit("plaintext is not valid text");
        }
        s.to_owned()
    }
}

} // verus!
