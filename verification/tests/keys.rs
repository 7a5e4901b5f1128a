use libssh_rs::key::hexa;
use libssh_rs::{EngineError, EngineGuard, Error, PublicKeyHashType, Session, SshKey, SshOption};

fn key() -> SshKey {
    let mut guard = EngineGuard::new();
    guard.setup(0);
    let mut sess = Session::new(&guard, true).unwrap();
    sess.set_option(SshOption::Hostname("h".to_string()), 0, EngineError::none()).unwrap();
    sess.connect(0, EngineError::none()).unwrap();
    sess.get_server_public_key(0, true, EngineError::none()).unwrap()
}

#[test]
fn digest_lengths() {
    assert_eq!(PublicKeyHashType::Sha1.digest_len(), 20);
    assert_eq!(PublicKeyHashType::Md5.digest_len(), 16);
    assert_eq!(PublicKeyHashType::Sha256.digest_len(), 32);
}

#[test]
fn hex_is_lower_case_without_separators() {
    assert_eq!(hexa(&[]), "");
    assert_eq!(hexa(&[0x00]), "00");
    assert_eq!(hexa(&[0xde, 0xad, 0xbe, 0xef]), "deadbeef");
    assert_eq!(hexa(&[0x01, 0x23, 0x45, 0x67, 0x89, 0xab, 0xcd, 0xef]), "0123456789abcdef");
    assert_eq!(hexa(&[0xff, 0x0a, 0xa0]), "ff0aa0");
}

#[test]
fn hash_of_each_kind_has_its_length() {
    let key = key();
    for (kind, len) in [
        (PublicKeyHashType::Sha1, 20usize),
        (PublicKeyHashType::Md5, 16),
        (PublicKeyHashType::Sha256, 32),
    ] {
        let digest: Vec<u8> = (0..len).map(|i| (i * 7 + 3) as u8).collect();
        assert_eq!(key.get_public_key_hash(kind, 0, Some(digest.clone())), Ok(digest.clone()));
        let text = key.get_public_key_hash_hexa(kind, 0, Some(digest.clone())).unwrap();
        assert_eq!(text.len(), 2 * len);
        assert!(text.chars().all(|c| c.is_ascii_digit() || ('a'..='f').contains(&c)));
        let expected: String = digest.iter().map(|b| format!("{:02x}", b)).collect();
        assert_eq!(text, expected);
    }
}

#[test]
fn hash_of_wrong_length_is_refused() {
    let key = key();
    assert_eq!(
        key.get_public_key_hash(PublicKeyHashType::Md5, 0, Some(vec![0; 20])),
        Err(Error::fatal("public key hash has an unexpected length"))
    );
    assert_eq!(
        key.get_public_key_hash_hexa(PublicKeyHashType::Sha256, 0, Some(vec![])),
        Err(Error::fatal("public key hash has an unexpected length"))
    );
}

#[test]
fn missing_hash_is_fatal() {
    let key = key();
    assert_eq!(
        key.get_public_key_hash(PublicKeyHashType::Sha1, 0, None),
        Err(Error::fatal("failed to get public key hash"))
    );
    assert_eq!(
        key.get_public_key_hash(PublicKeyHashType::Sha1, -1, Some(vec![0; 20])),
        Err(Error::fatal("failed to get public key hash"))
    );
    assert_eq!(
        key.get_public_key_hash_hexa(PublicKeyHashType::Sha1, -1, None),
        Err(Error::fatal("failed to get public key hash"))
    );
}

#[test]
fn key_is_released_once() {
    let mut key = key();
    assert!(key.release());
    assert!(!key.release());
}
