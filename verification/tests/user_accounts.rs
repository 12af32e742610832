use ruuth::crypto;
use ruuth::db::Database;
use ruuth::errors::Error;
use ruuth::user_manager::TotpSecret;
use ruuth::user_manager::UserManager;

fn manager() -> UserManager {
    UserManager::new("example.org".to_owned(), crypto::sha512("cluster secret"))
}

fn now() -> u64 {
    ruuth::clock::now_unix_seconds()
}

#[test]
fn register_then_validate_round_trip() {
    let mut db = Database::new();
    let um = manager();
    um.register(&mut db, "alice".to_owned(), "correct horse battery staple".to_owned())
        .unwrap();
    let t = now();
    let secret = db.find_user(&"alice".to_owned()).unwrap().totp_secret.clone();
    let code = crypto::totp_code(&secret, t);
    assert!(um.validate_at(&db, "alice".to_owned(), "correct horse battery staple", &code, t));
}

#[test]
fn validate_fails_on_each_altered_coordinate() {
    let mut db = Database::new();
    let um = manager();
    um.register(&mut db, "alice".to_owned(), "correct horse battery staple".to_owned())
        .unwrap();
    let t = now();
    let secret = db.find_user(&"alice".to_owned()).unwrap().totp_secret.clone();
    let code = crypto::totp_code(&secret, t);
    // wrong username
    assert!(!um.validate_at(&db, "bob".to_owned(), "correct horse battery staple", &code, t));
    // wrong password
    assert!(!um.validate_at(&db, "alice".to_owned(), "incorrect horse", &code, t));
    // wrong passcode
    let wrong_code = if code == "000000" { "000001" } else { "000000" };
    assert!(!um.validate_at(
        &db,
        "alice".to_owned(),
        "correct horse battery staple",
        wrong_code,
        t
    ));
}

#[test]
fn register_rejects_duplicate_username() {
    let mut db = Database::new();
    let um = manager();
    um.register(&mut db, "alice".to_owned(), "first password here".to_owned())
        .unwrap();
    let r = um.register(&mut db, "alice".to_owned(), "second password here".to_owned());
    assert_eq!(r.err(), Some(Error::UserAlreadyExists));
}

#[test]
fn delete_requires_existing_user() {
    let mut db = Database::new();
    let um = manager();
    assert_eq!(
        um.delete(&mut db, "ghost".to_owned()).err(),
        Some(Error::UserNotFound)
    );
    um.register(&mut db, "alice".to_owned(), "a decent password".to_owned())
        .unwrap();
    assert!(um.delete(&mut db, "alice".to_owned()).is_ok());
    assert!(db.find_user(&"alice".to_owned()).is_none());
}

#[test]
fn password_rotation_invalidates_old_password() {
    // Register, rotate the password, old fails, new works.
    let mut db = Database::new();
    let um = manager();
    um.register(&mut db, "alice".to_owned(), "the old password".to_owned())
        .unwrap();
    um.reset_password(&mut db, "alice".to_owned(), "the new password".to_owned())
        .unwrap();
    let t = now();
    let secret = db.find_user(&"alice".to_owned()).unwrap().totp_secret.clone();
    let code = crypto::totp_code(&secret, t);
    assert!(!um.validate_at(&db, "alice".to_owned(), "the old password", &code, t));
    assert!(um.validate_at(&db, "alice".to_owned(), "the new password", &code, t));
}

#[test]
fn reset_password_keeps_totp_secret() {
    let mut db = Database::new();
    let um = manager();
    um.register(&mut db, "alice".to_owned(), "the old password".to_owned())
        .unwrap();
    let before = db.find_user(&"alice".to_owned()).unwrap().totp_secret.clone();
    um.reset_password(&mut db, "alice".to_owned(), "the new password".to_owned())
        .unwrap();
    let after = db.find_user(&"alice".to_owned()).unwrap().totp_secret.clone();
    assert_eq!(before, after);
}

#[test]
fn reset_mfa_replaces_secret_and_keeps_password() {
    let mut db = Database::new();
    let um = manager();
    um.register(&mut db, "alice".to_owned(), "a decent password".to_owned())
        .unwrap();
    let before = db.find_user(&"alice".to_owned()).unwrap().totp_secret.clone();
    um.reset_mfa(&mut db, "alice".to_owned()).unwrap();
    let after = db.find_user(&"alice".to_owned()).unwrap().totp_secret.clone();
    assert_ne!(before, after);
    let t = now();
    let code = crypto::totp_code(&after, t);
    assert!(um.validate_at(&db, "alice".to_owned(), "a decent password", &code, t));
    assert_eq!(
        um.reset_mfa(&mut db, "ghost".to_owned()).err(),
        Some(Error::UserNotFound)
    );
}

#[test]
fn setup_code_carries_base32_secret_and_parameters() {
    let secret = TotpSecret::new();
    let code = secret.get_setup_code("alice", "example.org");
    let url = code.get_raw_code();
    let bytes = secret.into_bytes();
    let b32 = ruuth::encode::base32_encode(&bytes);
    assert!(url.starts_with("otpauth://totp/example.org:alice?secret="));
    assert!(url.contains(&b32));
    assert!(url.ends_with("&issuer=example.org&algorithm=SHA1&digits=6&period=30"));
}

#[test]
fn setup_code_percent_encodes_issuer_and_username() {
    let secret = TotpSecret::new();
    let code = secret.get_setup_code("al ice", "ex ample");
    let url = code.get_raw_code();
    assert!(url.starts_with("otpauth://totp/ex%20ample:al%20ice?secret="));
    assert!(url.ends_with("&issuer=ex%20ample&algorithm=SHA1&digits=6&period=30"));
}

#[test]
fn qr_code_renders_for_setup_url() {
    let secret = TotpSecret::new();
    let code = secret.get_setup_code("alice", "example.org");
    let qr = code.get_qr_code().unwrap();
    assert!(!qr.is_empty());
    assert_ne!(qr, code.get_raw_code());
}

#[test]
fn totp_code_is_six_digits() {
    let code = crypto::totp_code(&[0u8; 128], 59);
    assert_eq!(code.len(), 6);
    assert!(code.chars().all(|c| c.is_ascii_digit()));
    // the code depends only on the 30-second step
    assert_eq!(crypto::totp_code(&[7u8; 16], 60), crypto::totp_code(&[7u8; 16], 89));
    assert_ne!(crypto::totp_code(&[7u8; 16], 60), crypto::totp_code(&[9u8; 16], 60));
}

#[test]
fn peppered_hash_verifies_only_with_same_pepper() {
    let pepper = crypto::sha512("cluster secret");
    let other_pepper = crypto::sha512("another secret");
    let hash = crypto::hash_password_with_pepper(&pepper, "hunter2").unwrap();
    assert!(hash.starts_with("$argon2id$"));
    assert!(crypto::verify_password_with_pepper(&pepper, &hash, "hunter2"));
    assert!(!crypto::verify_password_with_pepper(&pepper, &hash, "hunter3"));
    assert!(!crypto::verify_password_with_pepper(&other_pepper, &hash, "hunter2"));
    // an unparsable stored hash is a mismatch, not an error
    assert!(!crypto::verify_password_with_pepper(&pepper, "not a phc string", "hunter2"));
}

#[test]
fn sha512_digest_is_64_bytes_and_input_dependent() {
    let a = crypto::sha512("cluster secret");
    let b = crypto::sha512("cluster secret!");
    assert_eq!(a.len(), 64);
    assert_eq!(b.len(), 64);
    assert_ne!(a, b);
    assert_eq!(a, crypto::sha512("cluster secret"));
}

#[test]
fn unregistered_empty_username_fails_validation() {
    let mut db = Database::new();
    let um = manager();
    um.register(&mut db, "alice".to_owned(), "a decent password".to_owned())
        .unwrap();
    let t = now();
    let secret = db.find_user(&"alice".to_owned()).unwrap().totp_secret.clone();
    let code = crypto::totp_code(&secret, t);
    assert!(!um.validate_at(&db, "".to_owned(), "a decent password", &code, t));
}
