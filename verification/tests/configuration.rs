use ruuth::config::BehaviourSettings;
use ruuth::config::BindTo;
use ruuth::config::HostSettings;
use ruuth::config::Logging;
use ruuth::config::LogLevel;
use ruuth::config::SessionSettings;
use ruuth::config::SessionStorage;
use ruuth::config::Settings;
use ruuth::db::backend_for_url;
use ruuth::db::DatabaseBackend;
use ruuth::errors::Error;
use ruuth::session::cookie_name;
use ruuth::session::SessionBackendStorage;
use ruuth::session::SessionStore;
use ruuth::tui::check_password;
use ruuth::tui::passwords_match;
use ruuth::tui::setup_code_display;
use ruuth::tui::strength_meter;
use ruuth::tui::PasswordVerdict;
use ruuth::user_manager::TotpSecret;

#[test]
fn behaviour_defaults_to_no_gates() {
    let b = BehaviourSettings::default();
    assert!(b.captcha.is_none());
    assert!(b.fake_login.is_none());
    assert_eq!(b.expiration, 0);
}

#[test]
fn session_defaults_to_memory_backend() {
    let s = SessionSettings::default();
    assert!(matches!(s.backend, SessionStorage::InMemory));
    assert!(s.session_timeout_seconds.is_none());
    assert!(s.cookie_name.is_none());
}

#[test]
fn logging_defaults_to_info_and_conventional_path() {
    let l = Logging::default();
    assert!(l.trace_filter.is_none());
    assert!(matches!(l.minimum_level, Some(LogLevel::Info)));
    assert_eq!(l.file, "/var/log/ruuth/ruuth.log");
}

#[test]
fn bind_defaults_to_loopback_tcp() {
    match BindTo::default() {
        BindTo::Tcp { bind } => assert_eq!(bind, "127.0.0.1:3000"),
        _ => panic!("default transport must be plain TCP"),
    }
}

#[test]
fn settings_default_composes_the_parts() {
    let s = Settings::default();
    assert!(s.behaviour.captcha.is_none());
    assert!(matches!(s.session.backend, SessionStorage::InMemory));
    assert!(s.logging.is_some());
    assert!(s.host.cluster_secret.is_empty());
    let _ = HostSettings::default();
}

#[test]
fn connection_string_prefix_selects_the_driver() {
    assert_eq!(backend_for_url("mysql://u:p@h/db"), Some(DatabaseBackend::MySql));
    assert_eq!(backend_for_url("postgres://u:p@h/db"), Some(DatabaseBackend::Postgres));
    assert_eq!(backend_for_url("sqlite://file.db"), Some(DatabaseBackend::Sqlite));
    assert_eq!(backend_for_url("redis://h"), None);
    assert_eq!(backend_for_url(""), None);
    assert_eq!(backend_for_url("mysql:/"), None);
}

#[test]
fn session_backend_follows_settings_and_driver() {
    let mem = SessionSettings::default();
    assert!(matches!(
        SessionBackendStorage::from_settings(&mem, DatabaseBackend::Postgres),
        SessionBackendStorage::InMemory
    ));
    let sql = SessionSettings {
        backend: SessionStorage::Sql,
        session_timeout_seconds: None,
        cookie_name: None,
    };
    assert!(matches!(
        SessionBackendStorage::from_settings(&sql, DatabaseBackend::MySql),
        SessionBackendStorage::MySql
    ));
    assert!(matches!(
        SessionBackendStorage::from_settings(&sql, DatabaseBackend::Sqlite),
        SessionBackendStorage::Sqlite
    ));
    let redis = SessionSettings {
        backend: SessionStorage::Redis("redis://localhost".to_owned()),
        session_timeout_seconds: None,
        cookie_name: None,
    };
    match SessionBackendStorage::from_settings(&redis, DatabaseBackend::Sqlite) {
        SessionBackendStorage::Redis(url) => assert_eq!(url, "redis://localhost"),
        _ => panic!("redis settings must select the redis backend"),
    }
}

#[test]
fn cookie_name_defaults_to_ruuth() {
    let s = SessionSettings::default();
    assert_eq!(cookie_name(&s), "ruuth");
    let named = SessionSettings {
        backend: SessionStorage::InMemory,
        session_timeout_seconds: None,
        cookie_name: Some("corp_sso".to_owned()),
    };
    assert_eq!(cookie_name(&named), "corp_sso");
}

#[test]
fn encoders_match_known_vectors() {
    assert_eq!(ruuth::encode::base32_encode(b"hello"), "NBSWY3DP");
    assert_eq!(ruuth::encode::base32_encode(b""), "");
    assert_eq!(ruuth::encode::base64_encode(b"hello"), "aGVsbG8=");
    assert_eq!(ruuth::encode::base64_encode(b"he"), "aGU=");
    assert_eq!(ruuth::encode::urlencode("a b/c&d"), "a%20b/c%26d");
    assert_eq!(ruuth::encode::urlencode("plain-text_1.0~"), "plain-text_1.0~");
}

#[test]
fn error_messages_are_nonempty() {
    for e in [
        Error::UserAlreadyExists,
        Error::UserNotFound,
        Error::Crypto,
        Error::Render,
    ] {
        assert!(!e.message().is_empty());
    }
}

#[test]
fn password_prompt_verdicts() {
    let (verdict, score) = check_password("correct horse battery staple");
    assert_eq!(verdict, PasswordVerdict::StrongEnough);
    assert!(score.unwrap() >= ruuth::tui::MINIMUM_PASSWORD_SCORE);

    let (verdict, score) = check_password("aaa");
    assert_eq!(verdict, PasswordVerdict::TooWeak);
    assert!(score.unwrap() < ruuth::tui::MINIMUM_PASSWORD_SCORE);

    let (verdict, score) = check_password("");
    assert_eq!(verdict, PasswordVerdict::Unscorable);
    assert!(score.is_none());

    assert!(passwords_match("abc", "abc"));
    assert!(!passwords_match("abc", "abd"));

    assert_eq!(strength_meter(0), "\u{25af}\u{25af}\u{25af}\u{25af}");
    assert_eq!(strength_meter(3), "\u{25ae}\u{25ae}\u{25ae}\u{25af}");
    assert_eq!(strength_meter(4), "\u{25ae}\u{25ae}\u{25ae}\u{25ae}");
}

#[test]
fn setup_code_display_honours_the_qr_flag() {
    let code = TotpSecret::new().get_setup_code("alice", "example.org");
    let raw = setup_code_display(&code, false).unwrap();
    assert_eq!(raw, code.get_raw_code());
    let qr = setup_code_display(&code, true).unwrap();
    assert_ne!(qr, raw);
    assert!(!qr.is_empty());
}

#[test]
fn session_store_lifecycle() {
    let mut store = SessionStore::new();
    let now: u64 = 1_000;

    // a cookie for an unknown id yields a fresh session
    let s = store.load(Some(42), now);
    assert!(!s.data.logged_in);

    // save and reload round-trips the payload
    let mut s = store.load(None, now);
    s.set_logged_in(true);
    s.set_authenticity_token("tok".to_owned());
    store.save(&s);
    let again = store.load(Some(s.id), now);
    assert!(again.data.logged_in);
    assert_eq!(again.data.authenticity_token.as_deref(), Some("tok"));

    // regeneration moves the session to a new id and drops the old one
    let old_id = s.id;
    store.regenerate(&mut s);
    assert_ne!(s.id, old_id);
    store.save(&s);
    assert!(!store.load(Some(old_id), now).data.logged_in);
    assert!(store.load(Some(s.id), now).data.logged_in);

    // expiry: a session expires exactly at its deadline, and cleanup
    // removes it
    let mut s2 = store.load(None, now);
    s2.set_logged_in(true);
    s2.expire_in(now, 100);
    store.save(&s2);
    assert!(store.load(Some(s2.id), now + 99).data.logged_in);
    assert!(!store.load(Some(s2.id), now + 100).data.logged_in);
    store.cleanup(now + 100);
    assert!(!store.load(Some(s2.id), now + 99).data.logged_in);
    store.migrate();
}

#[test]
fn clock_reads_a_plausible_time() {
    let s = ruuth::clock::now_unix_seconds();
    // after 2023 on any sane clock
    assert!(s > 1_672_531_200);
    let m = ruuth::clock::minutes_for(s);
    assert_eq!(m, (s / 60) as i64);
    assert!(ruuth::clock::now_minutes() >= m);
}
