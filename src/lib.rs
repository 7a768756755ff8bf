//! OpenPGP message operations over a single certificate: key selection,
//! encryption to recipients, detached signing, the decision logic of
//! decryption and signature verification, and key generation.

pub mod engine;
pub mod error;
pub mod keygen;
pub mod keys;
pub mod pgp;
pub mod resolver;
pub mod structure;

pub use engine::{
    create_key_with, create_newkey, encrypt_bytes_to_bytes, encrypt_to_certs, encrypt_to_selected,
    parse_cert_bytes, sign_detached_with, sign_selected, unlock_selected, CertSummary, Johnny,
};
pub use error::PgpError;
pub use keygen::{suite_from_name, Suite};
pub use keys::{keep_eligible, select_keys, Capability, KeyInfo, Posture};
pub use pgp::{ArmorKind, UserIdInfo};
pub use resolver::{bytes_equal, find_key, next_candidate, PacketSearch};
pub use structure::{check_structure, signature_accepted, FirstResult, Layer, VerifyFailure};
