//! The OpenPGP types this library handles, and the calls into
//! sequoia-openpgp that it relies on.
use vstd::prelude::*;

use sequoia_openpgp::armor::{Kind, Writer};
use sequoia_openpgp::cert::amalgamation::ValidAmalgamation;
use sequoia_openpgp::cert::{Cert, CertBuilder, CipherSuite};
use sequoia_openpgp::crypto::{KeyPair, Password};
use sequoia_openpgp::parse::Parse;
use sequoia_openpgp::policy::{NullPolicy, StandardPolicy};
use sequoia_openpgp::serialize::stream::{Encryptor2, LiteralWriter, Message, Recipient, Signer};
use sequoia_openpgp::serialize::MarshalInto;
use sequoia_openpgp::types::RevocationStatus;
use sequoia_openpgp::KeyID;

use vstd::utf8::{decode_utf8, valid_utf8};

use crate::keygen::Suite;
use crate::keys::KeyInfo;

verus! {

/// sequoia's certificate, carried as a whole.
#[verifier::external_type_specification]
#[verifier::external_body]
pub struct ExCert(Cert);

/// sequoia's unlocked key pair.
#[verifier::external_type_specification]
#[verifier::external_body]
pub struct ExKeyPair(KeyPair);

/// sequoia's standard validity policy.
#[verifier::external_type_specification]
#[verifier::external_body]
pub struct ExStandardPolicy<'a>(StandardPolicy<'a>);

/// sequoia's encryption recipient: a key borrowed from a certificate.
#[verifier::external_type_specification]
#[verifier::external_body]
pub struct ExRecipient<'a>(Recipient<'a>);

/// sequoia's signing layer while it is being built.
#[verifier::external_type_specification]
#[verifier::external_body]
pub struct ExSigner<'a>(Signer<'a>);

/// sequoia's writer stack of an OpenPGP message.
#[verifier::external_type_specification]
#[verifier::external_body]
pub struct ExMessage<'a>(Message<'a>);

/// The error sequoia reports.
#[verifier::external_type_specification]
#[verifier::external_body]
pub struct ExError(anyhow::Error);

/// Relies on sequoia's `StandardPolicy::new`: the policy that rejects weak
/// algorithms and broken bindings.
#[verifier::external_body]
pub(crate) fn standard_policy() -> StandardPolicy<'static> {
    StandardPolicy::new()
}

/// Relies on sequoia's `Cert::keys().with_policy` under its `StandardPolicy`
/// at the current time: for each key valid under that policy, what the
/// selection reads of it and the key as an encryption recipient, in the same
/// order.
#[verifier::external_body]
pub(crate) fn standard_keys<'a>(cert: &'a Cert, p: &'a StandardPolicy<'a>) -> (r: (
    Vec<KeyInfo>,
    Vec<Recipient<'a>>,
))
    ensures
        r.0@.len() == r.1@.len(),
{
    cert.keys().with_policy(p, None).map(|ka| (KeyInfo {
        key_id: ka.key().keyid().as_bytes().to_vec(),
        storage_encryption: ka.for_storage_encryption(),
        signing: ka.for_signing(),
        alive: ka.alive().is_ok(),
        revoked: matches!(ka.revocation_status(), RevocationStatus::Revoked(_)),
        has_secret: ka.key().has_secret(),
    }, Recipient::from(ka))).unzip()
}

/// Relies on sequoia's `Cert::keys().with_policy` under its `NullPolicy`,
/// which accepts every algorithm and binding: what the selection reads of
/// each key.
#[verifier::external_body]
pub(crate) fn null_policy_keys(cert: &Cert) -> (r: Vec<KeyInfo>) {
    let p = &NullPolicy::new();
    cert.keys().with_policy(p, None).map(|ka| KeyInfo {
        key_id: ka.key().keyid().as_bytes().to_vec(),
        storage_encryption: ka.for_storage_encryption(),
        signing: ka.for_signing(),
        alive: ka.alive().is_ok(),
        revoked: matches!(ka.revocation_status(), RevocationStatus::Revoked(_)),
        has_secret: ka.key().has_secret(),
    }).collect()
}

/// Whether `passphrase` unlocks the protected secret key of `cert` with
/// identifier `key_id`.
pub uninterp spec fn unlocks(cert: Cert, key_id: Seq<u8>, passphrase: Seq<char>) -> bool;

/// Relies on sequoia's `Key::decrypt_secret`: the secret key of `cert` with
/// identifier `key_id`, unlocked with `passphrase`, as a key pair. `None`
/// when there is no such secret key or the passphrase does not unlock it.
#[verifier::external_body]
pub(crate) fn unlock(cert: &Cert, key_id: &Vec<u8>, passphrase: &str) -> (r: Option<KeyPair>)
    ensures
        r is Some <==> unlocks(*cert, key_id@, passphrase@),
{
    let ka = cert.keys().key_handle(KeyID::from_bytes(key_id)).secret().next()?;
    let key = ka.key().clone().decrypt_secret(&Password::from(passphrase)).ok()?;
    key.into_keypair().ok()
}

/// Relies on sequoia's `Message::new`: starts an OpenPGP message that
/// writes into `sink`.
#[verifier::external_body]
pub(crate) fn message_to<'a>(sink: &'a mut Vec<u8>) -> Message<'a> {
    Message::new(sink)
}

/// Relies on sequoia's `Message::finalize`: flushes and closes every layer
/// of the message, innermost first.
#[verifier::external_body]
pub(crate) fn finalize(m: Message) -> Result<(), anyhow::Error> {
    m.finalize()
}

/// Relies on sequoia's `Encryptor2::for_recipients` and `build`: pushes an
/// encryption layer that wraps a fresh session key once for each recipient.
/// Sequoia refuses an empty recipient list.
#[verifier::external_body]
pub(crate) fn encryptor<'a>(m: Message<'a>, recipients: Vec<Recipient<'a>>) -> Result<
    Message<'a>,
    anyhow::Error,
> {
    Encryptor2::for_recipients(m, recipients).build()
}

/// Relies on sequoia's `LiteralWriter::new` and `build`: pushes a
/// literal-data layer.
#[verifier::external_body]
pub(crate) fn literal<'a>(m: Message<'a>) -> Result<Message<'a>, anyhow::Error> {
    LiteralWriter::new(m).build()
}

/// Relies on sequoia's `Signer::new`: a signer over the message with one key.
#[verifier::external_body]
pub(crate) fn signer<'a>(m: Message<'a>, key: KeyPair) -> Signer<'a> {
    Signer::new(m, key)
}

/// Relies on sequoia's `Signer::add_signer`: one more co-signing key.
#[verifier::external_body]
pub(crate) fn add_signer<'a>(s: Signer<'a>, key: KeyPair) -> Signer<'a> {
    s.add_signer(key)
}

/// Relies on sequoia's `Signer::detached` and `build`: pushes a layer that
/// emits only the signatures over what is written, without the data.
#[verifier::external_body]
pub(crate) fn detached<'a>(s: Signer<'a>) -> Result<Message<'a>, anyhow::Error> {
    s.detached().build()
}

/// Relies on `std::io::Write::write_all` on sequoia's writer stack.
#[verifier::external_body]
pub(crate) fn write_data(m: &mut Message, data: &[u8]) -> Result<(), anyhow::Error> {
    std::io::Write::write_all(m, data).map_err(anyhow::Error::from)
}

/// The envelope an armored artifact is written in.
#[derive(Debug, Clone, Copy, PartialEq, Eq, Structural)]
pub enum ArmorKind {
    /// An OpenPGP message.
    Message,
    /// A detached signature.
    Signature,
    /// A certificate with its secret keys.
    SecretKey,
}

/// The ASCII armor of `data` in the envelope of `kind`.
pub uninterp spec fn armored(kind: ArmorKind, data: Seq<u8>) -> Seq<u8>;

/// Relies on sequoia's `armor::Writer` (`new`, `write_all`, `finalize`),
/// without extra headers: the armored form of `data`, which depends on the
/// bytes and the kind alone.
#[verifier::external_body]
pub(crate) fn armor(kind: ArmorKind, data: &[u8]) -> (r: Result<Vec<u8>, anyhow::Error>)
    ensures
        r is Ok ==> r->Ok_0@ == armored(kind, data@),
{
    let kind = match kind {
        ArmorKind::Message => Kind::Message,
        ArmorKind::Signature => Kind::Signature,
        ArmorKind::SecretKey => Kind::SecretKey,
    };
    let mut w = Writer::new(Vec::new(), kind)?;
    std::io::Write::write_all(&mut w, data)?;
    w.finalize().map_err(anyhow::Error::from)
}

/// Relies on `String::from_utf8`: the bytes as text, `None` where they are
/// not UTF-8.
#[verifier::external_body]
pub(crate) fn utf8_text(bytes: Vec<u8>) -> (r: Option<String>)
    ensures
        r is Some <==> valid_utf8(bytes@),
        r is Some ==> r->Some_0@ == decode_utf8(bytes@),
{
    String::from_utf8(bytes).ok()
}

/// Whether `bytes` hold one certificate, armored or binary.
pub uninterp spec fn cert_parses(bytes: Seq<u8>) -> bool;

/// Relies on sequoia's `Cert::from_bytes`: parses a certificate, armored or
/// binary; the outcome depends on the bytes alone.
#[verifier::external_body]
pub(crate) fn parse_cert(bytes: &[u8]) -> (r: Result<Cert, anyhow::Error>)
    ensures
        r is Ok <==> cert_parses(bytes@),
{
    Cert::from_bytes(bytes)
}

/// Relies on sequoia's `CertBuilder`: a fresh certificate under `suite` with
/// one user ID, one storage-encryption subkey and one signing subkey, its
/// secret material protected by `passphrase`.
#[verifier::external_body]
pub(crate) fn generate(suite: Suite, passphrase: &str, userid: &str) -> Result<Cert, anyhow::Error> {
    let suite = match suite {
        Suite::Rsa4k => CipherSuite::RSA4k,
        Suite::Cv25519 => CipherSuite::Cv25519,
    };
    let builder = CertBuilder::new().add_storage_encryption_subkey().add_signing_subkey();
    let builder = builder.set_cipher_suite(suite).set_password(Some(Password::from(passphrase)));
    builder.add_userid(userid).generate().map(|(cert, _revocation)| cert)
}

/// Relies on sequoia's `Cert::armored` and `MarshalInto::to_vec`: the
/// armored public certificate, secret material left out.
#[verifier::external_body]
pub(crate) fn public_armored(cert: &Cert) -> Result<Vec<u8>, anyhow::Error> {
    cert.armored().to_vec()
}

/// Relies on sequoia's `Cert::as_tsk` and `MarshalInto::to_vec`: the binary
/// certificate with its secret keys.
#[verifier::external_body]
pub(crate) fn secret_bytes(cert: &Cert) -> Result<Vec<u8>, anyhow::Error> {
    cert.as_tsk().to_vec()
}

/// One identity claim of a certificate, with the parts it splits into where
/// it has the usual `Name (Comment) <email>` form.
pub struct UserIdInfo {
    pub value: String,
    pub name: Option<String>,
    pub comment: Option<String>,
    pub email: Option<String>,
    pub uri: Option<String>,
}

/// Relies on sequoia's `Cert::userids` and the `UserID` accessors `value`,
/// `name2`, `comment2`, `email2` and `uri2`: each identity claim, in order,
/// a part left out where it is absent or does not parse.
#[verifier::external_body]
pub(crate) fn user_ids(cert: &Cert) -> Vec<UserIdInfo> {
    cert.userids().map(|ua| UserIdInfo {
        value: String::from_utf8_lossy(ua.value()).into_owned(),
        name: ua.name2().ok().flatten().map(String::from),
        comment: ua.comment2().ok().flatten().map(String::from),
        email: ua.email2().ok().flatten().map(String::from),
        uri: ua.uri2().ok().flatten().map(String::from),
    }).collect()
}

/// Relies on sequoia's `Cert::is_tsk`: whether the certificate carries any
/// secret key material.
#[verifier::external_body]
pub(crate) fn is_tsk(cert: &Cert) -> bool {
    cert.is_tsk()
}

/// Relies on sequoia's `Cert::fingerprint` and `Fingerprint::to_hex`: the
/// primary key's fingerprint in upper-case hexadecimal.
#[verifier::external_body]
pub(crate) fn fingerprint_hex(cert: &Cert) -> String {
    cert.fingerprint().to_hex()
}

} // verus!
