use vstd::prelude::*;

verus! {

/// The first verification result inside a signature layer.
#[derive(Debug, Clone, Copy, PartialEq, Eq, Structural)]
pub enum FirstResult {
    /// The signature checks out.
    Good,
    /// The signature is cryptographically invalid.
    Bad,
    /// The layer holds no result at all.
    Missing,
}

/// One layer of a parsed message, as far as the verifier reads it.
#[derive(Debug, Clone, Copy, PartialEq, Eq, Structural)]
pub enum Layer {
    /// A group of signatures over the data, with its first result.
    SignatureGroup(FirstResult),
    /// Any other layer: compression, encryption.
    Other,
}

/// Why a detached signature was not accepted.
#[derive(Debug, Clone, Copy, PartialEq, Eq, Structural)]
pub enum VerifyFailure {
    /// The message is not a single top-level signature layer.
    UnexpectedStructure,
    /// The signature layer holds no result.
    NoSignature,
    /// The first signature does not verify.
    BadSignature,
}

/// The outcome of checking a message structure: any shape other than
/// exactly one signature group is unexpected, and only then is the group's
/// first result read.
pub open spec fn structure_outcome(layers: Seq<Layer>) -> Result<(), VerifyFailure> {
    if layers.len() != 1 {
        Err(VerifyFailure::UnexpectedStructure)
    } else {
        match layers[0] {
            Layer::SignatureGroup(FirstResult::Good) => Ok(()),
            Layer::SignatureGroup(FirstResult::Bad) => Err(VerifyFailure::BadSignature),
            Layer::SignatureGroup(FirstResult::Missing) => Err(VerifyFailure::NoSignature),
            Layer::Other => Err(VerifyFailure::UnexpectedStructure),
        }
    }
}

/// Checks that a message is exactly one top-level signature layer whose
/// first result is good; only that first result is authoritative.
pub fn check_structure(layers: &Vec<Layer>) -> (r: Result<(), VerifyFailure>)
    ensures
        r == structure_outcome(layers@),
{
    if layers.len() != 1 {
        return Err(VerifyFailure::UnexpectedStructure);
    }
    match layers[0] {
        Layer::SignatureGroup(FirstResult::Good) => Ok(()),
        Layer::SignatureGroup(FirstResult::Bad) => Err(VerifyFailure::BadSignature),
        Layer::SignatureGroup(FirstResult::Missing) => Err(VerifyFailure::NoSignature),
        Layer::Other => Err(VerifyFailure::UnexpectedStructure),
    }
}

/// Collapses the structure check to the boolean that callers of the
/// verifier receive.
pub fn signature_accepted(layers: &Vec<Layer>) -> (r: bool)
    ensures
        r == (structure_outcome(layers@) is Ok),
{
    check_structure(layers).is_ok()
}

} // verus!
