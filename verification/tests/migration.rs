use ram_core::crypto::{
    backend_toggle_commits, cm_begin_step, cm_finish_step, cookie_to_store, credential_target,
    decrypt_cookie, decrypt_store, encrypt_cookie, encrypt_cookie_with_nonce, file_account_step,
    seal_with_nonce, StepOutcome,
};
use ram_core::models::Account;
use ram_core::CoreError;

fn account() -> Account {
    Account::new(42, "user".to_string(), "User".to_string())
}

#[test]
fn file_step_encrypts_the_loaded_cookie() {
    let mut a = account();
    let outcome = file_account_step(&mut a, "pw", Ok("cookie".to_string()), Ok([7u8; 12]));
    assert!(matches!(outcome, StepOutcome::Moved));
    let enc = a.encrypted_cookie.clone().unwrap();
    assert_eq!(decrypt_cookie(&enc, "pw").unwrap(), "cookie");
    assert_eq!(enc, encrypt_cookie_with_nonce("cookie", "pw", Ok([7u8; 12])).unwrap());
}

#[test]
fn file_step_reports_a_load_failure_and_leaves_the_account() {
    let mut a = account();
    let outcome = file_account_step(&mut a, "pw", Err(CoreError::Keyring("no matching entry".to_string())), Ok([0u8; 12]));
    match outcome {
        StepOutcome::Failed(m) => assert_eq!(m, "Keyring error: no matching entry"),
        _ => panic!("expected a failure"),
    }
    assert!(a.encrypted_cookie.is_none());
}

#[test]
fn cm_finish_drops_the_file_copy_only_after_storing() {
    let mut a = account();
    a.encrypted_cookie = Some(encrypt_cookie("c", "pw").unwrap());
    let kept = a.encrypted_cookie.clone();
    match cm_finish_step(&mut a, Err(CoreError::Keyring("denied".to_string()))) {
        StepOutcome::Failed(m) => assert_eq!(m, "Keyring error: denied"),
        _ => panic!("expected a failure"),
    }
    assert_eq!(a.encrypted_cookie, kept);
    assert!(matches!(cm_finish_step(&mut a, Ok(())), StepOutcome::Moved));
    assert!(a.encrypted_cookie.is_none());
}

#[test]
fn cookie_to_store_decrypts_or_explains() {
    let mut a = account();
    assert_eq!(cookie_to_store(&a, "pw").unwrap_err(), "no stored cookie to migrate");
    a.encrypted_cookie = Some(encrypt_cookie("c", "pw").unwrap());
    assert_eq!(cookie_to_store(&a, "pw").unwrap(), "c");
    assert_eq!(cookie_to_store(&a, "wrong").unwrap_err(), "Crypto error: cookie decryption failed");
}

#[test]
fn file_step_reports_a_missing_nonce() {
    let mut a = account();
    match file_account_step(&mut a, "pw", Ok("cookie".to_string()), Err("no entropy".to_string())) {
        StepOutcome::Failed(m) => assert_eq!(m, "Crypto error: no entropy"),
        _ => panic!("expected a failure"),
    }
    assert!(a.encrypted_cookie.is_none());
}

#[test]
fn sealing_with_a_given_nonce_is_deterministic() {
    let a = seal_with_nonce(b"roster", "pw", Ok([1u8; 12])).unwrap();
    let b = seal_with_nonce(b"roster", "pw", Ok([1u8; 12])).unwrap();
    assert_eq!(a, b);
    assert_eq!(&a[..12], &[1u8; 12]);
    assert_eq!(a.len(), 12 + 6 + 16);
    assert_eq!(decrypt_store(&a, "pw").unwrap(), b"roster".to_vec());
    assert_ne!(a, seal_with_nonce(b"roster", "pw", Ok([2u8; 12])).unwrap());
    assert_eq!(seal_with_nonce(b"roster", "pw", Err("no entropy".to_string())).unwrap_err(), "no entropy");
}

#[test]
fn cookies_are_kept_under_the_service_and_decimal_id() {
    let (service, user) = credential_target(123456789);
    assert_eq!(service, "RM-Rust");
    assert_eq!(user, "123456789");
}

#[test]
fn cm_begin_drops_a_held_copy_and_otherwise_hands_over_the_cookie() {
    let mut a = account();
    a.encrypted_cookie = Some(encrypt_cookie("c", "pw").unwrap());
    let mut held = a.clone();
    assert!(matches!(cm_begin_step(&mut held, "pw", true), Err(StepOutcome::Skipped)));
    assert!(held.encrypted_cookie.is_none());
    assert_eq!(cm_begin_step(&mut a, "pw", false).unwrap(), "c");
    assert!(a.encrypted_cookie.is_some());
}

#[test]
fn backend_toggle_commits_only_without_failures() {
    assert!(backend_toggle_commits(&vec![]));
    assert!(!backend_toggle_commits(&vec![(1, "Keyring error: denied".to_string())]));
}
