use vstd::prelude::*;

use crate::error::PgpError;
use crate::resolver::bytes_equal;
use vstd::utf8::encode_utf8_decode_utf8;

verus! {

/// The algorithms a new certificate is generated under.
#[derive(Debug, Clone, Copy, PartialEq, Eq, Structural)]
pub enum Suite {
    /// 4096-bit RSA.
    Rsa4k,
    /// EdDSA and ECDH over Curve25519.
    Cv25519,
}

/// The suite a cipher name selects: `RSA4k` selects 4096-bit RSA, `Cv25519`
/// selects Curve25519, and any other name is refused.
pub open spec fn suite_for(name: Seq<char>) -> Result<Suite, PgpError> {
    if name == "RSA4k"@ {
        Ok(Suite::Rsa4k)
    } else if name == "Cv25519"@ {
        Ok(Suite::Cv25519)
    } else {
        Err(PgpError::UnknownCipher)
    }
}

/// Whether two strings hold the same characters, decided on their UTF-8
/// bytes.
fn same_text(a: &str, b: &str) -> (r: bool)
    ensures
        r == (a@ == b@),
{
    let r = bytes_equal(a.as_bytes(), b.as_bytes());
    proof {
        encode_utf8_decode_utf8(a@);
        encode_utf8_decode_utf8(b@);
    }
    r
}

/// Reads a cipher name into a suite.
pub fn suite_from_name(name: &str) -> (r: Result<Suite, PgpError>)
    ensures
        r == suite_for(name@),
{
    if same_text(name, "RSA4k") {
        Ok(Suite::Rsa4k)
    } else if same_text(name, "Cv25519") {
        Ok(Suite::Cv25519)
    } else {
        Err(PgpError::UnknownCipher)
    }
}

} // verus!
