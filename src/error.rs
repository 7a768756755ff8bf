use vstd::prelude::*;

verus! {

/// The ways an operation of this library can fail.
#[derive(Debug, Clone, Copy, PartialEq, Eq, Structural)]
pub enum PgpError {
    /// A referenced certificate or file does not exist.
    NotFound,
    /// Malformed certificate, signature or message bytes.
    ParseFailed,
    /// No key of the certificate may be encrypted to.
    NoRecipients,
    /// No key of the certificate may sign.
    NoSigningKey,
    /// A passphrase did not unlock a key, or no session key could be recovered.
    DecryptionFailed,
    /// The cipher suite name is not one this library knows.
    UnknownCipher,
    /// A new certificate could not be generated or written out.
    KeyGenerationFailed,
    /// A file could not be read or written.
    IoFailure,
    /// The OpenPGP layer refused to build or finish a message.
    WriteFailed,
}

} // verus!
