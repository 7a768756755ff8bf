use std::time::{Duration, SystemTime};

use johnnycanencrypt::{
    check_structure, find_key, keep_eligible, next_candidate, PacketSearch, bytes_equal, select_keys, signature_accepted,
    suite_from_name, Capability, FirstResult, Johnny, KeyInfo, Layer, PgpError, Posture, Suite,
    VerifyFailure,
};
use sequoia_openpgp::cert::{CertBuilder, CipherSuite};
use sequoia_openpgp::types::KeyFlags;

fn key(id: u8, enc: bool, sign: bool, alive: bool, revoked: bool, secret: bool) -> KeyInfo {
    KeyInfo {
        key_id: vec![id; 8],
        storage_encryption: enc,
        signing: sign,
        alive,
        revoked,
        has_secret: secret,
    }
}

#[test]
fn selection_by_capability_and_validity() {
    let keys = vec![
        key(0, false, false, true, false, true),
        key(1, true, false, true, false, true),
        key(2, false, true, true, false, true),
        key(3, true, false, false, false, true),
        key(4, true, false, true, true, false),
        key(5, true, true, true, false, false),
    ];
    let std = Posture::Standard;
    let perm = Posture::Permissive;
    assert_eq!(select_keys(&keys, Capability::StorageEncryption, std, false), vec![1, 5]);
    assert_eq!(select_keys(&keys, Capability::StorageEncryption, perm, false), vec![1, 3, 4, 5]);
    assert_eq!(select_keys(&keys, Capability::Signing, std, true), vec![2]);
    assert_eq!(select_keys(&keys, Capability::Signing, std, false), vec![2, 5]);
    assert_eq!(select_keys(&keys, Capability::Any, perm, true), vec![0, 1, 2, 3]);
    assert_eq!(select_keys(&Vec::new(), Capability::Any, perm, false), Vec::<usize>::new());
}

#[test]
fn expired_only_encryption_key_yields_nothing() {
    let keys = vec![key(1, true, false, false, false, false), key(2, false, true, true, false, true)];
    assert!(select_keys(&keys, Capability::StorageEncryption, Posture::Standard, false).is_empty());
}

#[test]
fn expired_encryption_subkey_refuses_to_encrypt() {
    let two_days_ago = SystemTime::now() - Duration::from_secs(2 * 24 * 3600);
    let (cert, _) = CertBuilder::new()
        .set_cipher_suite(CipherSuite::Cv25519)
        .set_creation_time(two_days_ago)
        .add_userid("Expired <x@example.org>")
        .add_subkey(KeyFlags::empty().set_storage_encryption(), Duration::from_secs(3600), None)
        .add_signing_subkey()
        .generate()
        .unwrap();
    let johnny = Johnny::from_cert("expired.pub".to_string(), cert);
    assert_eq!(johnny.encrypt_bytes(b"secret".to_vec(), Some(true)), Err(PgpError::NoRecipients));
    assert_eq!(johnny.encrypt_bytes(b"secret".to_vec(), None), Err(PgpError::NoRecipients));
}

#[test]
fn certificate_without_signing_key_cannot_sign() {
    let (cert, _) = CertBuilder::new()
        .set_cipher_suite(CipherSuite::Cv25519)
        .add_userid("Enc <e@example.org>")
        .add_storage_encryption_subkey()
        .generate()
        .unwrap();
    let johnny = Johnny::from_cert("enc.sec".to_string(), cert);
    assert_eq!(
        johnny.sign_bytes_detached(b"data".to_vec(), String::new()),
        Err(PgpError::NoSigningKey)
    );
}

#[test]
fn structure_single_good_signature() {
    assert_eq!(check_structure(&vec![Layer::SignatureGroup(FirstResult::Good)]), Ok(()));
    assert!(signature_accepted(&vec![Layer::SignatureGroup(FirstResult::Good)]));
}

#[test]
fn structure_failures() {
    let un = Err(VerifyFailure::UnexpectedStructure);
    assert_eq!(check_structure(&vec![]), un);
    assert_eq!(check_structure(&vec![Layer::Other]), un);
    assert_eq!(check_structure(&vec![Layer::Other, Layer::SignatureGroup(FirstResult::Good)]), un);
    assert_eq!(check_structure(&vec![Layer::SignatureGroup(FirstResult::Good), Layer::Other]), un);
    assert_eq!(
        check_structure(&vec![Layer::SignatureGroup(FirstResult::Bad)]),
        Err(VerifyFailure::BadSignature)
    );
    assert_eq!(
        check_structure(&vec![Layer::SignatureGroup(FirstResult::Missing)]),
        Err(VerifyFailure::NoSignature)
    );
    assert_eq!(check_structure(&vec![Layer::SignatureGroup(FirstResult::Bad), Layer::Other]), un);
    assert_eq!(
        check_structure(&vec![Layer::SignatureGroup(FirstResult::Missing), Layer::Other]),
        un
    );
    assert!(!signature_accepted(&vec![Layer::Other]));
    assert!(!signature_accepted(&vec![]));
}

#[test]
fn candidates_skip_foreign_packets() {
    let x = vec![1u8; 8];
    let y = vec![2u8; 8];
    let z = vec![3u8; 8];
    let recipients = vec![x.clone(), y.clone(), z.clone()];
    let local = vec![z.clone(), y.clone()];
    assert_eq!(next_candidate(&recipients, &local, 0), Some((1, 1)));
    assert_eq!(next_candidate(&recipients, &local, 2), Some((2, 0)));
    assert_eq!(next_candidate(&recipients, &local, 3), None);
    assert_eq!(next_candidate(&recipients, &vec![], 0), None);
    assert_eq!(next_candidate(&vec![], &local, 0), None);
    assert_eq!(find_key(&local, &y), Some(1));
    assert_eq!(find_key(&local, &x), None);
    assert!(bytes_equal(&x, &x.clone()));
    assert!(!bytes_equal(&x, &y));
    assert!(!bytes_equal(&x, &[1u8; 7]));
}

#[test]
fn suite_names() {
    assert_eq!(suite_from_name("RSA4k"), Ok(Suite::Rsa4k));
    assert_eq!(suite_from_name("RSA2k"), Err(PgpError::UnknownCipher));
    assert_eq!(suite_from_name("Cv25519"), Ok(Suite::Cv25519));
    assert_eq!(suite_from_name("cv25519"), Err(PgpError::UnknownCipher));
    assert_eq!(suite_from_name(""), Err(PgpError::UnknownCipher));
}

#[test]
fn keep_eligible_keeps_matching_items_in_order() {
    let keys = vec![
        key(0, true, false, true, false, false),
        key(1, false, true, true, false, true),
        key(2, true, false, true, false, true),
    ];
    let items = vec!["zero", "one", "two"];
    assert_eq!(
        keep_eligible(items.clone(), &keys, Capability::StorageEncryption, Posture::Standard, false),
        vec!["zero", "two"]
    );
    assert_eq!(
        keep_eligible(items.clone(), &keys, Capability::Any, Posture::Permissive, true),
        vec!["one", "two"]
    );
    assert!(keep_eligible(items, &keys, Capability::Signing, Posture::Standard, false) == vec!["one"]);
}

#[test]
fn packet_search_moves_past_each_candidate() {
    let x = vec![1u8; 8];
    let y = vec![2u8; 8];
    let recipients = vec![y.clone(), x.clone(), y.clone()];
    let local = vec![y.clone()];
    let mut search = PacketSearch::new();
    assert_eq!(search.next(&recipients, &local), Some((0, 0)));
    assert_eq!(search.from, 1);
    assert_eq!(search.next(&recipients, &local), Some((2, 0)));
    assert_eq!(search.from, 3);
    assert_eq!(search.next(&recipients, &local), None);
    assert_eq!(search.from, 3);
}
