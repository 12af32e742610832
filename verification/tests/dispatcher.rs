use ruuth::challenge_manager::ChallengeManager;
use ruuth::config::BehaviourSettings;
use ruuth::crypto;
use ruuth::db::Database;
use ruuth::session::SessionStore;
use ruuth::web::AuthStatus;
use ruuth::web::ChallengeQuery;
use ruuth::web::LoginQuery;
use ruuth::web::LoginResponse;
use ruuth::web::WebServer;

fn user_manager() -> ruuth::user_manager::UserManager {
    ruuth::user_manager::UserManager::new("example.org".to_owned(), crypto::sha512("cluster secret"))
}

fn server(behaviour: BehaviourSettings, timeout: Option<u64>) -> WebServer {
    WebServer::new(
        user_manager(),
        ChallengeManager::new(behaviour),
        timeout,
        "example.org".to_owned(),
    )
}

fn register_alice(db: &mut Database) {
    user_manager()
        .register(db, "alice".to_owned(), "correct horse battery staple".to_owned())
        .unwrap();
}

fn alice_code(db: &Database, t: u64) -> String {
    let secret = db.find_user(&"alice".to_owned()).unwrap().totp_secret.clone();
    crypto::totp_code(&secret, t)
}

fn form(token: &str, password: &str, code: &str, captcha: Option<String>) -> LoginResponse {
    LoginResponse {
        authenticity_token: token.to_owned(),
        username: "alice".to_owned(),
        password: password.to_owned(),
        passcode: code.to_owned(),
        captcha,
    }
}

const NOW: u64 = 1_700_000_000;

#[test]
fn successful_login_redirects_and_authorizes() {
    // Correct CSRF token, no CAPTCHA, correct credentials.
    let behaviour = BehaviourSettings { captcha: None, fake_login: None, expiration: 60 };
    let ws = server(behaviour, None);
    let mut db = Database::new();
    let mut store = SessionStore::new();
    register_alice(&mut db);

    let (page, sid) = ws
        .auth_handler(
            &db,
            &mut store,
            None,
            ChallengeQuery { url: None, error: None },
            "1.2.3.4",
            NOW,
        )
        .unwrap();
    assert!(page.captcha.is_none());
    assert_eq!(page.realm, "example.org");

    let code = alice_code(&db, NOW);
    let (redirect, sid2) = ws.login_handler(
        &mut db,
        &mut store,
        Some(sid),
        LoginQuery { url: None },
        form(&page.authenticity_token, "correct horse battery staple", &code, None),
        "1.2.3.4",
        NOW,
    );
    assert_eq!(redirect.location, "/");
    // A successful login regenerates the session identifier.
    assert_ne!(sid2, sid);
    // no failure was recorded
    assert_eq!(db.count_failures(&"1.2.3.4".to_owned(), i64::MIN), 0);

    let (status, _) = ws.validate_handler(&mut store, Some(sid2), NOW);
    assert_eq!(status, AuthStatus::Authorized);
    // the old cookie no longer authorizes
    let (status_old, _) = ws.validate_handler(&mut store, Some(sid), NOW);
    assert_eq!(status_old, AuthStatus::Unauthorized);
}

#[test]
fn login_respects_redirect_query() {
    let behaviour = BehaviourSettings { captcha: None, fake_login: None, expiration: 60 };
    let ws = server(behaviour, None);
    let mut db = Database::new();
    let mut store = SessionStore::new();
    register_alice(&mut db);

    let (page, sid) = ws
        .auth_handler(
            &db,
            &mut store,
            None,
            ChallengeQuery { url: Some("/app".to_owned()), error: None },
            "1.2.3.4",
            NOW,
        )
        .unwrap();
    assert_eq!(page.url.as_deref(), Some("/app"));
    let code = alice_code(&db, NOW);
    let (redirect, _) = ws.login_handler(
        &mut db,
        &mut store,
        Some(sid),
        LoginQuery { url: Some("/app".to_owned()) },
        form(&page.authenticity_token, "correct horse battery staple", &code, None),
        "1.2.3.4",
        NOW,
    );
    assert_eq!(redirect.location, "/app");
}

#[test]
fn failed_login_redirects_with_error_and_records_failure() {
    // Wrong password.
    let behaviour = BehaviourSettings { captcha: None, fake_login: None, expiration: 60 };
    let ws = server(behaviour, None);
    let mut db = Database::new();
    let mut store = SessionStore::new();
    register_alice(&mut db);

    let (page, sid) = ws
        .auth_handler(
            &db,
            &mut store,
            None,
            ChallengeQuery { url: None, error: None },
            "9.9.9.9",
            NOW,
        )
        .unwrap();
    let code = alice_code(&db, NOW);
    let (redirect, sid2) = ws.login_handler(
        &mut db,
        &mut store,
        Some(sid),
        LoginQuery { url: None },
        form(&page.authenticity_token, "wrong password", &code, None),
        "9.9.9.9",
        NOW,
    );
    assert_eq!(redirect.location, "/?error=true");
    assert_eq!(sid2, sid);
    // a ban-tracker row was inserted for the origin host
    assert_eq!(db.count_failures(&"9.9.9.9".to_owned(), i64::MIN), 1);
    let (status, _) = ws.validate_handler(&mut store, Some(sid2), NOW);
    assert_eq!(status, AuthStatus::Unauthorized);
}

#[test]
fn captcha_required_after_failures_and_gates_login() {
    // With captcha = 2, three failures arm the CAPTCHA requirement; a
    // correct submission without the CAPTCHA fails, with it succeeds.
    let behaviour = BehaviourSettings { captcha: Some(2), fake_login: None, expiration: 60 };
    let ws = server(behaviour, None);
    let mut db = Database::new();
    let mut store = SessionStore::new();
    register_alice(&mut db);
    let host = "8.8.8.8";

    let cm = ChallengeManager::new(behaviour);
    let now_min = (NOW / 60) as i64;
    for _ in 0..3 {
        cm.add_failure_at(&mut db, host.to_owned(), now_min);
    }

    let (page, sid) = ws
        .auth_handler(
            &db,
            &mut store,
            None,
            ChallengeQuery { url: None, error: None },
            host,
            NOW,
        )
        .unwrap();
    let image = page.captcha.expect("captcha must be issued past the threshold");
    assert!(!image.base64.is_empty());
    let solution = store
        .load(Some(sid), NOW)
        .data
        .captcha_solution
        .expect("solution must sit in the session");
    assert!(!solution.is_empty());

    // without the CAPTCHA field: failure, despite correct credentials
    let code = alice_code(&db, NOW);
    let (redirect, _) = ws.login_handler(
        &mut db,
        &mut store,
        Some(sid),
        LoginQuery { url: None },
        form(&page.authenticity_token, "correct horse battery staple", &code, None),
        host,
        NOW,
    );
    assert_eq!(redirect.location, "/?error=true");

    // a fresh form, now echoing the stored solution: success
    let (page, sid) = ws
        .auth_handler(
            &db,
            &mut store,
            Some(sid),
            ChallengeQuery { url: None, error: Some(true) },
            host,
            NOW,
        )
        .unwrap();
    let solution = store.load(Some(sid), NOW).data.captcha_solution.unwrap();
    let code = alice_code(&db, NOW);
    let (redirect, sid2) = ws.login_handler(
        &mut db,
        &mut store,
        Some(sid),
        LoginQuery { url: None },
        form(
            &page.authenticity_token,
            "correct horse battery staple",
            &code,
            Some(solution),
        ),
        host,
        NOW,
    );
    assert_eq!(redirect.location, "/");
    let (status, _) = ws.validate_handler(&mut store, Some(sid2), NOW);
    assert_eq!(status, AuthStatus::Authorized);
}

#[test]
fn banned_host_cannot_login_with_correct_credentials() {
    // With fake_login = 5, six failures mask later successes.
    let behaviour = BehaviourSettings { captcha: None, fake_login: Some(5), expiration: 60 };
    let ws = server(behaviour, None);
    let mut db = Database::new();
    let mut store = SessionStore::new();
    register_alice(&mut db);
    let host = "6.6.6.6";

    let cm = ChallengeManager::new(behaviour);
    let now_min = (NOW / 60) as i64;
    for _ in 0..6 {
        cm.add_failure_at(&mut db, host.to_owned(), now_min);
    }

    let (page, sid) = ws
        .auth_handler(
            &db,
            &mut store,
            None,
            ChallengeQuery { url: None, error: None },
            host,
            NOW,
        )
        .unwrap();
    let code = alice_code(&db, NOW);
    let (redirect, _) = ws.login_handler(
        &mut db,
        &mut store,
        Some(sid),
        LoginQuery { url: None },
        form(&page.authenticity_token, "correct horse battery staple", &code, None),
        host,
        NOW,
    );
    assert_eq!(redirect.location, "/?error=true");
}

#[test]
fn validate_refreshes_ttl_and_expires_after_inactivity() {
    // Two checks within the timeout pass; one after it fails.
    let ttl: u64 = 600;
    let behaviour = BehaviourSettings { captcha: None, fake_login: None, expiration: 60 };
    let ws = server(behaviour, Some(ttl));
    let mut db = Database::new();
    let mut store = SessionStore::new();
    register_alice(&mut db);

    let (page, sid) = ws
        .auth_handler(
            &db,
            &mut store,
            None,
            ChallengeQuery { url: None, error: None },
            "1.2.3.4",
            NOW,
        )
        .unwrap();
    let code = alice_code(&db, NOW);
    let (_, sid) = ws.login_handler(
        &mut db,
        &mut store,
        Some(sid),
        LoginQuery { url: None },
        form(&page.authenticity_token, "correct horse battery staple", &code, None),
        "1.2.3.4",
        NOW,
    );

    let (s1, sid) = ws.validate_handler(&mut store, Some(sid), NOW + 500);
    assert_eq!(s1, AuthStatus::Authorized);
    // refreshed at NOW + 500, so alive at NOW + 1000
    let (s2, sid) = ws.validate_handler(&mut store, Some(sid), NOW + 1000);
    assert_eq!(s2, AuthStatus::Authorized);
    // but ttl seconds of silence end the session
    let (s3, _) = ws.validate_handler(&mut store, Some(sid), NOW + 1000 + ttl);
    assert_eq!(s3, AuthStatus::Unauthorized);
}

#[test]
fn logout_invalidates_the_session() {
    let behaviour = BehaviourSettings { captcha: None, fake_login: None, expiration: 60 };
    let ws = server(behaviour, None);
    let mut db = Database::new();
    let mut store = SessionStore::new();
    register_alice(&mut db);

    let (page, sid) = ws
        .auth_handler(
            &db,
            &mut store,
            None,
            ChallengeQuery { url: None, error: None },
            "1.2.3.4",
            NOW,
        )
        .unwrap();
    let code = alice_code(&db, NOW);
    let (_, sid) = ws.login_handler(
        &mut db,
        &mut store,
        Some(sid),
        LoginQuery { url: None },
        form(&page.authenticity_token, "correct horse battery staple", &code, None),
        "1.2.3.4",
        NOW,
    );
    let (status, sid) = ws.validate_handler(&mut store, Some(sid), NOW);
    assert_eq!(status, AuthStatus::Authorized);

    let sid_after = ws.logout_handler(&mut store, Some(sid), NOW);
    assert_ne!(sid_after, sid);
    let (old_status, _) = ws.validate_handler(&mut store, Some(sid), NOW);
    assert_eq!(old_status, AuthStatus::Unauthorized);
    let (new_status, _) = ws.validate_handler(&mut store, Some(sid_after), NOW);
    assert_eq!(new_status, AuthStatus::Unauthorized);
}

#[test]
fn captcha_solution_clears_once_the_window_expires() {
    // a solution sits in the session iff the most recent GET / issued a
    // CAPTCHA: after the failures age out, the next form carries no image
    // and leaves no solution behind
    let behaviour = BehaviourSettings { captcha: Some(2), fake_login: None, expiration: 60 };
    let ws = server(behaviour, None);
    let mut db = Database::new();
    let mut store = SessionStore::new();
    register_alice(&mut db);
    let host = "7.7.7.7";

    let cm = ChallengeManager::new(behaviour);
    let now_min = (NOW / 60) as i64;
    for _ in 0..3 {
        cm.add_failure_at(&mut db, host.to_owned(), now_min);
    }
    let (page, sid) = ws
        .auth_handler(
            &db,
            &mut store,
            None,
            ChallengeQuery { url: None, error: None },
            host,
            NOW,
        )
        .unwrap();
    assert!(page.captcha.is_some());
    assert!(store.load(Some(sid), NOW).data.captcha_solution.is_some());

    // 61 minutes later the window has moved past every failure
    let later = NOW + 61 * 60;
    let (page, sid) = ws
        .auth_handler(
            &db,
            &mut store,
            Some(sid),
            ChallengeQuery { url: None, error: None },
            host,
            later,
        )
        .unwrap();
    assert!(page.captcha.is_none());
    assert!(store.load(Some(sid), later).data.captcha_solution.is_none());
}
