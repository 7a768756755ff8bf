use vstd::prelude::*;

use sequoia_openpgp::cert::Cert;
use sequoia_openpgp::crypto::KeyPair;
use sequoia_openpgp::serialize::stream::Recipient;

use crate::error::PgpError;
use crate::keygen::{suite_for, suite_from_name, Suite};
use crate::keys::{eligible_indices, keep_eligible, select_keys, Capability, KeyInfo, Posture};
use crate::pgp::{
    add_signer, armor, armored, detached, encryptor, finalize, fingerprint_hex, generate, is_tsk,
    literal, message_to, null_policy_keys, parse_cert, public_armored, secret_bytes, signer,
    standard_keys, standard_policy, unlock, unlocks, cert_parses, user_ids, utf8_text,
    write_data, ArmorKind, UserIdInfo,
};
use vstd::utf8::decode_utf8;

verus! {

/// The result of an encryption or signing pipeline: either the bytes as they
/// came out of the OpenPGP layers, or their armor in the envelope of `kind`.
pub open spec fn shaped(out: Seq<u8>, armor_it: bool, kind: ArmorKind) -> bool {
    armor_it ==> exists|b: Seq<u8>| out == armored(kind, b)
}

/// `text` is the armor of some bytes in the envelope of `kind`, read as
/// characters.
pub open spec fn armored_text(text: Seq<char>, kind: ArmorKind) -> bool {
    exists|b: Seq<u8>| text == decode_utf8(#[trigger] armored(kind, b))
}

/// Every key of `keys` that `sel` picks is unlocked by `passphrase`.
pub open spec fn all_unlock(
    cert: Cert,
    keys: Seq<KeyInfo>,
    sel: Seq<usize>,
    passphrase: Seq<char>,
) -> bool {
    forall|j: int| 0 <= j < sel.len() ==> #[trigger] unlocks(cert, keys[sel[j] as int].key_id@, passphrase)
}

/// Encrypts `data` to the eligible encryption keys among `recipients`, where
/// `keys` describes the same keys position by position: literal-data framing
/// inside an encryption layer with one session-key packet per key, then
/// armor if asked for. With no eligible key nothing is produced.
pub fn encrypt_to_selected<'a>(
    keys: &Vec<KeyInfo>,
    recipients: Vec<Recipient<'a>>,
    data: &[u8],
    armor_it: bool,
) -> (r: Result<Vec<u8>, PgpError>)
    requires
        keys@.len() == recipients@.len(),
    ensures
        r == Err::<Vec<u8>, PgpError>(PgpError::NoRecipients) <==> eligible_indices(
            keys@,
            Capability::StorageEncryption,
            Posture::Standard,
            false,
        ).len() == 0,
        r is Err ==> r->Err_0 == PgpError::NoRecipients || r->Err_0 == PgpError::WriteFailed,
        r is Ok ==> shaped(r->Ok_0@, armor_it, ArmorKind::Message),
{
    let chosen = keep_eligible(
        recipients,
        keys,
        Capability::StorageEncryption,
        Posture::Standard,
        false,
    );
    if chosen.len() == 0 {
        return Err(PgpError::NoRecipients);
    }
    let mut sink: Vec<u8> = Vec::new();
    let m = message_to(&mut sink);
    let m = match encryptor(m, chosen) {
        Ok(m) => m,
        Err(_) => return Err(PgpError::WriteFailed),
    };
    let mut m = match literal(m) {
        Ok(m) => m,
        Err(_) => return Err(PgpError::WriteFailed),
    };
    if write_data(&mut m, data).is_err() {
        return Err(PgpError::WriteFailed);
    }
    if finalize(m).is_err() {
        return Err(PgpError::WriteFailed);
    }
    if armor_it {
        match armor(ArmorKind::Message, sink.as_slice()) {
            Ok(text) => Ok(text),
            Err(_) => Err(PgpError::WriteFailed),
        }
    } else {
        Ok(sink)
    }
}

/// Unlocks, with `passphrase`, every key of `keys` eligible for `cap` under
/// `posture` that holds secret material, in order. Fails as a whole, before
/// anything is produced, as soon as one of them does not unlock.
pub fn unlock_selected(
    cert: &Cert,
    keys: &Vec<KeyInfo>,
    cap: Capability,
    posture: Posture,
    passphrase: &str,
) -> (r: Result<(Vec<Vec<u8>>, Vec<KeyPair>), PgpError>)
    ensures
        r is Ok <==> all_unlock(
            *cert,
            keys@,
            eligible_indices(keys@, cap, posture, true),
            passphrase@,
        ),
        match r {
            Ok((ids, pairs)) => {
                let sel = eligible_indices(keys@, cap, posture, true);
                &&& ids@.len() == sel.len()
                &&& pairs@.len() == sel.len()
                &&& forall|j: int| 0 <= j < sel.len() ==> ids@[j]@ == keys@[sel[j] as int].key_id@
            },
            Err(e) => e == PgpError::DecryptionFailed && eligible_indices(
                keys@,
                cap,
                posture,
                true,
            ).len() > 0,
        },
{
    let sel = select_keys(keys, cap, posture, true);
    let mut ids: Vec<Vec<u8>> = Vec::new();
    let mut pairs: Vec<KeyPair> = Vec::new();
    let mut i: usize = 0;
    while i < sel.len()
        invariant
            i <= sel@.len(),
            sel@ == eligible_indices(keys@, cap, posture, true),
            forall|j: int| 0 <= j < sel@.len() ==> sel@[j] < keys@.len(),
            ids@.len() == i,
            pairs@.len() == i,
            forall|j: int| 0 <= j < i ==> ids@[j]@ == keys@[sel@[j] as int].key_id@,
            forall|j: int| 0 <= j < i ==> #[trigger] unlocks(
                *cert,
                keys@[sel@[j] as int].key_id@,
                passphrase@,
            ),
        decreases sel@.len() - i,
    {
        let k = &keys[sel[i]];
        match unlock(cert, &k.key_id, passphrase) {
            Some(pair) => {
                ids.push(k.key_id.clone());
                pairs.push(pair);
            },
            None => {
                return Err(PgpError::DecryptionFailed);
            },
        }
        i = i + 1;
    }
    Ok((ids, pairs))
}

/// Makes a detached signature over `data` with every key of `keys` as a
/// co-signer, armored as a signature. Without a key there is nothing to sign
/// with.
pub fn sign_detached_with(keys: Vec<KeyPair>, data: &[u8]) -> (r: Result<Vec<u8>, PgpError>)
    ensures
        r == Err::<Vec<u8>, PgpError>(PgpError::NoSigningKey) <==> keys@.len() == 0,
        r is Err ==> r->Err_0 == PgpError::NoSigningKey || r->Err_0 == PgpError::WriteFailed,
        r is Ok ==> shaped(r->Ok_0@, true, ArmorKind::Signature),
{
    let mut keys = keys;
    let first = match keys.pop() {
        Some(k) => k,
        None => return Err(PgpError::NoSigningKey),
    };
    let mut sink: Vec<u8> = Vec::new();
    let m = message_to(&mut sink);
    let mut s = signer(m, first);
    while keys.len() > 0
        decreases keys@.len(),
    {
        match keys.pop() {
            Some(k) => {
                s = add_signer(s, k);
            },
            None => {},
        }
    }
    let mut m = match detached(s) {
        Ok(m) => m,
        Err(_) => return Err(PgpError::WriteFailed),
    };
    if write_data(&mut m, data).is_err() {
        return Err(PgpError::WriteFailed);
    }
    if finalize(m).is_err() {
        return Err(PgpError::WriteFailed);
    }
    match armor(ArmorKind::Signature, sink.as_slice()) {
        Ok(text) => Ok(text),
        Err(_) => Err(PgpError::WriteFailed),
    }
}

/// Signs `data` with the signing keys among `keys`, the keys of `cert`:
/// those flagged for signing, alive, not revoked and with secret material,
/// each unlocked with `passphrase`.
pub fn sign_selected(cert: &Cert, keys: &Vec<KeyInfo>, data: &[u8], passphrase: &str) -> (r:
    Result<Vec<u8>, PgpError>)
    ensures
        eligible_indices(keys@, Capability::Signing, Posture::Standard, true).len() == 0 ==> r
            == Err::<Vec<u8>, PgpError>(PgpError::NoSigningKey),
        r == Err::<Vec<u8>, PgpError>(PgpError::NoSigningKey) ==> eligible_indices(
            keys@,
            Capability::Signing,
            Posture::Standard,
            true,
        ).len() == 0,
        r == Err::<Vec<u8>, PgpError>(PgpError::DecryptionFailed) <==> !all_unlock(
            *cert,
            keys@,
            eligible_indices(keys@, Capability::Signing, Posture::Standard, true),
            passphrase@,
        ),
        r is Err ==> r->Err_0 == PgpError::NoSigningKey || r->Err_0 == PgpError::DecryptionFailed
            || r->Err_0 == PgpError::WriteFailed,
        r is Ok ==> shaped(r->Ok_0@, true, ArmorKind::Signature),
{
    match unlock_selected(cert, keys, Capability::Signing, Posture::Standard, passphrase) {
        Ok((_ids, pairs)) => sign_detached_with(pairs, data),
        Err(e) => Err(e),
    }
}

/// Encrypts `data` to every encryption key of every certificate in `certs`
/// that is flagged for storage encryption, alive and not revoked, armored
/// when `armor_it` holds.
pub fn encrypt_to_certs(certs: &Vec<Cert>, data: &[u8], armor_it: bool) -> (r: Result<
    Vec<u8>,
    PgpError,
>)
    ensures
        certs@.len() == 0 ==> r == Err::<Vec<u8>, PgpError>(PgpError::NoRecipients),
        r is Err ==> r->Err_0 == PgpError::NoRecipients || r->Err_0 == PgpError::WriteFailed,
        r is Ok ==> shaped(r->Ok_0@, armor_it, ArmorKind::Message),
{
    let p = standard_policy();
    let mut keys: Vec<KeyInfo> = Vec::new();
    let mut recipients: Vec<Recipient> = Vec::new();
    let mut i: usize = 0;
    while i < certs.len()
        invariant
            keys@.len() == recipients@.len(),
            certs@.len() == 0 ==> keys@.len() == 0,
        decreases certs@.len() - i,
    {
        let (mut k, mut rs) = standard_keys(&certs[i], &p);
        keys.append(&mut k);
        recipients.append(&mut rs);
        i = i + 1;
    }
    encrypt_to_selected(&keys, recipients, data, armor_it)
}

/// Encrypts `data` to the certificates read from `certs`, each armored or
/// binary, as `encrypt_to_certs` does; `armor` set to `Some(true)` asks for
/// armored output.
pub fn encrypt_bytes_to_bytes(certs: &Vec<Vec<u8>>, data: Vec<u8>, armor: Option<bool>) -> (r:
    Result<Vec<u8>, PgpError>)
    ensures
        r == Err::<Vec<u8>, PgpError>(PgpError::ParseFailed) <==> exists|i: int|
            0 <= i < certs@.len() && !cert_parses(#[trigger] certs@[i]@),
        certs@.len() == 0 ==> r == Err::<Vec<u8>, PgpError>(PgpError::NoRecipients),
        r is Err ==> r->Err_0 == PgpError::ParseFailed || r->Err_0 == PgpError::NoRecipients
            || r->Err_0 == PgpError::WriteFailed,
        r is Ok ==> shaped(r->Ok_0@, armor == Some(true), ArmorKind::Message),
{
    let mut parsed: Vec<Cert> = Vec::new();
    let mut i: usize = 0;
    while i < certs.len()
        invariant
            i <= certs@.len(),
            parsed@.len() == i,
            forall|j: int| 0 <= j < i ==> cert_parses(#[trigger] certs@[j]@),
        decreases certs@.len() - i,
    {
        match parse_cert(certs[i].as_slice()) {
            Ok(c) => parsed.push(c),
            Err(_) => return Err(PgpError::ParseFailed),
        }
        i = i + 1;
    }
    encrypt_to_certs(&parsed, data.as_slice(), armor == Some(true))
}

/// A certificate to encrypt to, decrypt with, sign with and verify against,
/// with the path it was read from.
pub struct Johnny {
    pub filepath: String,
    pub cert: Cert,
}

impl Johnny {
    /// Wraps a certificate already parsed.
    pub fn from_cert(filepath: String, cert: Cert) -> (r: Johnny)
        ensures
            r.filepath == filepath,
            r.cert == cert,
    {
        Johnny { filepath, cert }
    }

    /// Parses the certificate in `bytes`, armored or binary, read from
    /// `filepath`.
    pub fn from_bytes(filepath: String, bytes: &[u8]) -> (r: Result<Johnny, PgpError>)
        ensures
            r is Ok <==> cert_parses(bytes@),
            r is Ok ==> r->Ok_0.filepath == filepath,
            r is Err ==> r->Err_0 == PgpError::ParseFailed,
    {
        match parse_cert(bytes) {
            Ok(cert) => Ok(Johnny { filepath, cert }),
            Err(_) => Err(PgpError::ParseFailed),
        }
    }

    /// The certificate.
    pub fn cert(&self) -> (r: &Cert)
        ensures
            *r == self.cert,
    {
        &self.cert
    }

    /// Encrypts `data` to this certificate's storage-encryption keys that
    /// are alive and not revoked; `armor` set to `Some(true)` asks for
    /// armored output.
    pub fn encrypt_bytes(&self, data: Vec<u8>, armor: Option<bool>) -> (r: Result<Vec<u8>, PgpError>)
        ensures
            r is Err ==> r->Err_0 == PgpError::NoRecipients || r->Err_0 == PgpError::WriteFailed,
            r is Ok ==> shaped(r->Ok_0@, armor == Some(true), ArmorKind::Message),
    {
        let p = standard_policy();
        let (keys, recipients) = standard_keys(&self.cert, &p);
        encrypt_to_selected(&keys, recipients, data.as_slice(), armor == Some(true))
    }

    /// Makes an armored detached signature over `data` with every signing
    /// key of this certificate, unlocked with `password`.
    pub fn sign_bytes_detached(&self, data: Vec<u8>, password: String) -> (r: Result<
        String,
        PgpError,
    >)
        ensures
            r is Err ==> r->Err_0 == PgpError::NoSigningKey || r->Err_0
                == PgpError::DecryptionFailed || r->Err_0 == PgpError::WriteFailed,
            r is Ok ==> armored_text(r->Ok_0@, ArmorKind::Signature),
    {
        let p = standard_policy();
        let (keys, _recipients) = standard_keys(&self.cert, &p);
        match sign_selected(&self.cert, &keys, data.as_slice(), password.as_str()) {
            Ok(bytes) => match utf8_text(bytes) {
                Some(text) => Ok(text),
                None => Err(PgpError::WriteFailed),
            },
            Err(e) => Err(e),
        }
    }

    /// Unlocks, with `password`, every key of this certificate that holds
    /// secret material, whatever its flags and validity: the identifiers and
    /// key pairs that decryption tries, in order.
    pub fn decryption_keys(&self, password: &str) -> (r: Result<
        (Vec<Vec<u8>>, Vec<KeyPair>),
        PgpError,
    >)
        ensures
            r is Ok ==> r->Ok_0.0@.len() == r->Ok_0.1@.len(),
            r is Err ==> r->Err_0 == PgpError::DecryptionFailed,
    {
        let keys = null_policy_keys(&self.cert);
        unlock_selected(&self.cert, &keys, Capability::Any, Posture::Permissive, password)
    }
}

/// What a certificate tells about itself: its identity claims, its
/// fingerprint in hexadecimal, and whether it carries secret material.
pub struct CertSummary {
    pub userids: Vec<UserIdInfo>,
    pub fingerprint: String,
    pub has_secret: bool,
}

/// Summarises the certificate in `bytes`, armored or binary.
pub fn parse_cert_bytes(bytes: &[u8]) -> (r: Result<CertSummary, PgpError>)
    ensures
        r is Ok <==> cert_parses(bytes@),
        r is Err ==> r->Err_0 == PgpError::ParseFailed,
{
    match parse_cert(bytes) {
        Ok(cert) => Ok(
            CertSummary {
                userids: user_ids(&cert),
                fingerprint: fingerprint_hex(&cert),
                has_secret: is_tsk(&cert),
            },
        ),
        Err(_) => Err(PgpError::ParseFailed),
    }
}

/// Generates a certificate under `suite`, as `create_newkey` describes.
pub fn create_key_with(suite: Suite, password: &str, userid: &str) -> (r: Result<
    (String, String, String),
    PgpError,
>)
    ensures
        r is Err ==> r->Err_0 == PgpError::KeyGenerationFailed,
        r is Ok ==> armored_text(r->Ok_0.1@, ArmorKind::SecretKey),
{
    let cert = match generate(suite, password, userid) {
        Ok(c) => c,
        Err(_) => return Err(PgpError::KeyGenerationFailed),
    };
    let public = match public_armored(&cert) {
        Ok(b) => b,
        Err(_) => return Err(PgpError::KeyGenerationFailed),
    };
    let secret = match secret_bytes(&cert) {
        Ok(b) => b,
        Err(_) => return Err(PgpError::KeyGenerationFailed),
    };
    let secret = match armor(ArmorKind::SecretKey, secret.as_slice()) {
        Ok(b) => b,
        Err(_) => return Err(PgpError::KeyGenerationFailed),
    };
    match (utf8_text(public), utf8_text(secret)) {
        (Some(p), Some(s)) => Ok((p, s, fingerprint_hex(&cert))),
        _ => Err(PgpError::KeyGenerationFailed),
    }
}

/// Generates a key pair with one storage-encryption and one signing subkey,
/// `userid` as its only identity and `password` protecting its secrets: the
/// armored public certificate, the armored secret certificate and the
/// fingerprint in hexadecimal. An unknown cipher name is refused before
/// anything is generated.
pub fn create_newkey(password: String, userid: String, cipher: String) -> (r: Result<
    (String, String, String),
    PgpError,
>)
    ensures
        suite_for(cipher@) is Err <==> r == Err::<(String, String, String), PgpError>(
            PgpError::UnknownCipher,
        ),
        r is Err ==> r->Err_0 == PgpError::UnknownCipher || r->Err_0
            == PgpError::KeyGenerationFailed,
        r is Ok ==> armored_text(r->Ok_0.1@, ArmorKind::SecretKey),
{
    match suite_from_name(cipher.as_str()) {
        Ok(suite) => create_key_with(suite, password.as_str(), userid.as_str()),
        Err(e) => Err(e),
    }
}

} // verus!
