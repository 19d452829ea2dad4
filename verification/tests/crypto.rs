use ram_core::crypto::{
    choose_loaded_store, decrypt_cookie, decrypt_store, effective_store_password, encrypt_cookie,
    encrypt_store, migrate_to_credential_manager, migrate_to_file, pick_cookie, resolve_cookie,
    LoadSource, LOCAL_STORE_KEY,
};
use ram_core::error::ErrorKind;
use ram_core::models::{Account, AccountStore};
use ram_core::CoreError;

fn crypto_err(m: &str) -> CoreError {
    CoreError::Crypto(m.to_string())
}

#[test]
fn store_round_trips_through_encryption() {
    let plaintext = br#"{"accounts":[{"user_id":1}]}"#;
    let blob = encrypt_store(plaintext, "hunter2").unwrap();
    assert_eq!(blob.len(), plaintext.len() + 28);
    let back = decrypt_store(&blob, "hunter2").unwrap();
    assert_eq!(back, plaintext.to_vec());
}

#[test]
fn two_encryptions_use_different_nonces() {
    let a = encrypt_store(b"same", "pw").unwrap();
    let b = encrypt_store(b"same", "pw").unwrap();
    assert_ne!(a[..12], b[..12]);
}

#[test]
fn wrong_password_is_rejected() {
    let blob = encrypt_store(b"[]", "correct").unwrap();
    let err = decrypt_store(&blob, "incorrect").unwrap_err();
    assert_eq!(err.kind(), ErrorKind::Crypto);
    assert_eq!(
        err.message(),
        "Crypto error: could not decrypt the account store: wrong master password, or the file is corrupted"
    );
}

#[test]
fn short_store_data_is_rejected() {
    let err = decrypt_store(&[0u8; 12], "pw").unwrap_err();
    assert_eq!(err.message(), "Crypto error: encrypted data too short");
    let err = decrypt_store(b"this is not a valid aes-gcm blob at all", "pw").unwrap_err();
    assert_eq!(err.kind(), ErrorKind::Crypto);
}

#[test]
fn recovers_from_backup_when_primary_corrupt() {
    let primary = b"this is not a valid aes-gcm blob at all".to_vec();
    let backup = encrypt_store(b"v1", "pw").unwrap();
    let first = decrypt_store(&primary, "pw");
    let second = Some(decrypt_store(&backup, "pw"));
    let (bytes, source) = choose_loaded_store(first, second).unwrap();
    assert_eq!(bytes, b"v1".to_vec());
    assert_eq!(source, LoadSource::Backup);
}

#[test]
fn primary_wins_and_both_failing_reports_primary() {
    let (v, src) = choose_loaded_store::<u8>(Ok(1), Some(Ok(2))).unwrap();
    assert_eq!((v, src), (1, LoadSource::Primary));
    let e = choose_loaded_store::<u8>(Err(crypto_err("primary")), Some(Err(crypto_err("backup"))))
        .unwrap_err();
    assert_eq!(e.message(), "Crypto error: primary");
    let e = choose_loaded_store::<u8>(Err(crypto_err("primary")), None).unwrap_err();
    assert_eq!(e.message(), "Crypto error: primary");
}

#[test]
fn cookie_round_trips() {
    let cookie = "_|WARNING:-DO-NOT-SHARE-THIS.--|_ABCDEF0123456789é";
    let enc = encrypt_cookie(cookie, "master").unwrap();
    assert_ne!(enc, cookie);
    assert_eq!(decrypt_cookie(&enc, "master").unwrap(), cookie);
}

#[test]
fn cookie_with_wrong_password_fails() {
    let enc = encrypt_cookie("secret", "master").unwrap();
    let err = decrypt_cookie(&enc, "other").unwrap_err();
    assert_eq!(err.message(), "Crypto error: cookie decryption failed");
}

#[test]
fn malformed_cookie_blobs_fail() {
    let err = decrypt_cookie("not base64!!", "pw").unwrap_err();
    assert_eq!(err.kind(), ErrorKind::Crypto);
    let err = decrypt_cookie("AAAA", "pw").unwrap_err();
    assert_eq!(err.message(), "Crypto error: encrypted cookie too short");
}

#[test]
fn empty_master_password_uses_local_key() {
    assert_eq!(effective_store_password(""), LOCAL_STORE_KEY);
    assert_eq!(LOCAL_STORE_KEY, "RM-Rust::local-store-v1");
    assert_eq!(effective_store_password("hunter2"), "hunter2");
}

#[test]
fn pick_cookie_prefers_configured_backend() {
    let ok = |s: &str| -> Result<String, CoreError> { Ok(s.to_string()) };
    let kerr = || -> Result<String, CoreError> { Err(CoreError::Keyring("missing".to_string())) };
    let ferr = || -> Result<String, CoreError> { Err(crypto_err("bad file")) };
    assert_eq!(pick_cookie(true, ok("k"), ok("f")).unwrap(), "k");
    assert_eq!(pick_cookie(false, ok("k"), ok("f")).unwrap(), "f");
    assert_eq!(pick_cookie(true, kerr(), ok("f")).unwrap(), "f");
    assert_eq!(pick_cookie(false, ok("k"), ferr()).unwrap(), "k");
    assert_eq!(pick_cookie(true, kerr(), ferr()).unwrap_err().message(), "Keyring error: missing");
    assert_eq!(pick_cookie(false, kerr(), ferr()).unwrap_err().message(), "Crypto error: bad file");
}

#[test]
fn resolve_cookie_reads_the_store_file() {
    let enc = encrypt_cookie("cookie-value", "pw").unwrap();
    let c = resolve_cookie(77, Some(&enc), "pw", false).unwrap();
    assert_eq!(c, "cookie-value");
}

#[test]
fn resolve_cookie_reports_preferred_backend_error() {
    // Nothing is stored for this user in either backend.
    let err = resolve_cookie(987_654_321, None, "pw", false).unwrap_err();
    assert_eq!(
        err.message(),
        "Crypto error: no encrypted cookie stored for this account"
    );
    let err = resolve_cookie(987_654_321, None, "pw", true).unwrap_err();
    assert_eq!(err.kind(), ErrorKind::Keyring);
}

#[test]
fn migrating_to_file_reports_accounts_the_credential_store_lacks() {
    let mut store = AccountStore::default();
    let mut a = Account::new(5, "five".to_string(), "Five".to_string());
    a.encrypted_cookie = Some(encrypt_cookie("c5", "pw").unwrap());
    store.accounts.push(a);
    store.accounts.push(Account::new(6, "six".to_string(), "Six".to_string()));
    let (moved, failures) = migrate_to_file(&mut store, "pw");
    assert_eq!(moved, 0);
    assert_eq!(failures.len(), 1);
    assert_eq!(failures[0].0, 6);
    assert!(failures[0].1.starts_with("Keyring error: "));
    // The account that already had a file copy is untouched.
    assert_eq!(decrypt_cookie(store.accounts[0].encrypted_cookie.as_ref().unwrap(), "pw").unwrap(), "c5");
    assert!(store.accounts[1].encrypted_cookie.is_none());
}

#[test]
fn migrating_to_credential_manager_reports_missing_and_undecryptable_cookies() {
    let mut store = AccountStore::default();
    store.accounts.push(Account::new(8, "eight".to_string(), "Eight".to_string()));
    let mut b = Account::new(9, "nine".to_string(), "Nine".to_string());
    b.encrypted_cookie = Some(encrypt_cookie("c9", "other").unwrap());
    store.accounts.push(b);
    let (moved, failures) = migrate_to_credential_manager(&mut store, "pw");
    // Whether the platform store already held them decides the rest; with
    // nothing stored, both accounts fail and keep their file copies.
    if failures.len() == 2 {
        assert_eq!(moved, 0);
        assert_eq!(failures[0], (8, "no stored cookie to migrate".to_string()));
        assert_eq!(failures[1], (9, "Crypto error: cookie decryption failed".to_string()));
        assert!(store.accounts[1].encrypted_cookie.is_some());
    }
    assert_eq!(store.accounts.len(), 2);
}
