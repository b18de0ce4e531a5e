//! Password-based decryption of self-contained ciphertext envelopes.
//!
//! Given a password, a salt, a PBKDF2 iteration count and an encoded envelope
//! string, the library derives an encryption key and a MAC key, parses the
//! envelope into its algorithm tag, IV, ciphertext and authentication tag,
//! verifies the tag, and only then decrypts and unpads the ciphertext into
//! plaintext text.

pub mod errors;
pub mod decryptor;
pub mod envelope;
pub mod integrity;
pub mod kdf;
pub mod pipeline;
