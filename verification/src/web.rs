//! The dispatcher behind the four endpoints: the login page, the login
//! state machine, logout, and the sub-request check the reverse proxy makes.
//!
//! Each handler is a function of the stores, the session cookie, the
//! request data and one clock reading; the transport around them only moves
//! bytes. Alongside the response, a handler returns the session identifier
//! that the response's cookie must carry.

use vstd::prelude::*;

use crate::challenge_manager::spec_captcha_required;
use crate::challenge_manager::spec_challenge_valid;
use crate::challenge_manager::spec_failure_count;
use crate::challenge_manager::Base64Image;
use crate::challenge_manager::ChallengeManager;
use crate::clock;
use crate::db::Database;
use crate::errors::Error;
use crate::session::lookup_session;
use crate::session::spec_load_hit;
use crate::session::spec_loaded_session;
use crate::session::spec_saturating_add_u64;
use crate::session::SessionStore;
use crate::user_manager::spec_validate;
use crate::user_manager::UserManager;

verus! {

/// The login form body, as `POST /login` consumes it.
pub struct LoginResponse {
    pub authenticity_token: String,
    pub username: String,
    pub password: String,
    pub passcode: String,
    pub captcha: Option<String>,
}

/// What the login template is rendered from.
pub struct LoginChallengeRequest {
    pub authenticity_token: String,
    pub captcha: Option<Base64Image>,
    pub url: Option<String>,
    pub error: Option<bool>,
    pub realm: String,
}

/// Query parameters of `GET /`.
pub struct ChallengeQuery {
    pub url: Option<String>,
    pub error: Option<bool>,
}

/// Query parameters of `POST /login`.
pub struct LoginQuery {
    pub url: Option<String>,
}

/// A `303 See Other` answer.
pub struct Redirect {
    pub location: String,
}

/// The answer to the proxy's sub-request.
#[derive(Clone, Copy, PartialEq, Eq, Structural, Debug)]
pub enum AuthStatus {
    Authorized,
    Unauthorized,
}

/// The expiry a handler leaves on a session: pushed past `now` by the
/// configured timeout, or untouched when none is configured.
pub open spec fn spec_extended_expiry(
    timeout: Option<u64>,
    old_expiry: Option<u64>,
    now: u64,
) -> Option<u64> {
    match timeout {
        Some(ttl) => Some(spec_saturating_add_u64(now as int, ttl as int)),
        None => old_expiry,
    }
}

/// A login, once granted, keeps granting access: when the store holds a
/// logged-in session under `sid` — as it does after a successful
/// `POST /login` — and that session is still live at `t2`, loading `sid` at
/// `t2` yields a logged-in session, so the proxy's sub-request check at
/// `t2` answers Authorized.
pub proof fn lemma_logged_in_session_authorizes(st: SessionStore, sid: u64, t2: u64)
    requires
        lookup_session(st.sessions(), sid) matches Some(s) && s.data.logged_in
            && crate::session::session_live(s, t2),
    ensures
        spec_loaded_session(st, Some(sid), t2).data.logged_in,
{
}

/// The dispatcher: the managers, the session timeout, and the realm shown
/// on the login page.
pub struct WebServer {
    user_manager: UserManager,
    challenge_manager: ChallengeManager,
    session_timeout_seconds: Option<u64>,
    realm: String,
}

impl WebServer {
    pub closed spec fn user_manager(self) -> UserManager {
        self.user_manager
    }

    pub closed spec fn challenge_manager(self) -> ChallengeManager {
        self.challenge_manager
    }

    pub closed spec fn session_timeout_seconds(self) -> Option<u64> {
        self.session_timeout_seconds
    }

    pub closed spec fn realm(self) -> Seq<char> {
        self.realm@
    }

    pub fn new(
        user_manager: UserManager,
        challenge_manager: ChallengeManager,
        session_timeout_seconds: Option<u64>,
        realm: String,
    ) -> (r: WebServer)
        ensures
            r.user_manager() == user_manager,
            r.challenge_manager() == challenge_manager,
            r.session_timeout_seconds() == session_timeout_seconds,
            r.realm() == realm@,
    {
        WebServer { user_manager, challenge_manager, session_timeout_seconds, realm }
    }

    /// Push the session's expiry out by the configured timeout, if any.
    fn extend_session(&self, session: &mut crate::session::Session, now_seconds: u64)
        ensures
            final(session).expiry == spec_extended_expiry(
                self.session_timeout_seconds(),
                old(session).expiry,
                now_seconds,
            ),
            final(session).data == old(session).data,
            final(session).id == old(session).id,
    {
        if let Some(ttl) = self.session_timeout_seconds {
            session.expire_in(now_seconds, ttl);
        }
    }

    /// `GET /`: issue a CSRF token, issue a CAPTCHA when the origin host
    /// has failed too often, and hand back everything the login template
    /// needs. The session, under the returned identifier, keeps the token
    /// and any CAPTCHA solution for the coming `POST /login`.
    pub fn auth_handler(
        &self,
        db: &Database,
        store: &mut SessionStore,
        cookie: Option<u64>,
        query: ChallengeQuery,
        origin_host: &str,
        now_seconds: u64,
    ) -> (r: Result<(LoginChallengeRequest, u64), Error>)
        requires
            old(store).wf(),
            old(store).can_mint(),
        ensures
            final(store).wf(),
            old(store).next_id() <= final(store).next_id() <= old(store).next_id() + 1,
            ({
                let loaded = spec_loaded_session(*old(store), cookie, now_seconds);
                let required = spec_captcha_required(
                    self.challenge_manager().thresholds(),
                    spec_failure_count(
                        db.bans(),
                        origin_host@,
                        clock::minutes_of_seconds(now_seconds),
                        self.challenge_manager().thresholds().expiration as int,
                    ),
                );
                match r {
                    Ok(p) => {
                        &&& p.1 == loaded.id
                        &&& match p.0.captcha {
                            Some(img) => required && img.w == 220 && img.h == 120
                                && img.base64@.len() > 0,
                            None => !required,
                        }
                        &&& p.0.url == query.url
                        &&& p.0.error == query.error
                        &&& p.0.realm@ == self.realm()
                        &&& p.0.authenticity_token@.len() > 0
                        &&& (lookup_session(final(store).sessions(), p.1) matches Some(s) && {
                            &&& (s.data.authenticity_token matches Some(t) && t@
                                == p.0.authenticity_token@)
                            &&& (s.data.captcha_solution is Some <==> required)
                            &&& (s.data.captcha_solution matches Some(sol) ==> 4 <= sol@.len()
                                <= 6)
                            &&& s.data.logged_in == loaded.data.logged_in
                        })
                    },
                    Err(e) => e == Error::Render && required,
                }
            }),
    {
        let mut session = store.load(cookie, now_seconds);
        let now_min = clock::minutes_for(now_seconds);
        let authenticity_token = self.challenge_manager.issue_challenge(&mut session);
        let captcha = self.challenge_manager.maybe_issue_captcha(
            db,
            &mut session,
            origin_host,
            now_min,
        );
        store.save(&session);
        match captcha {
            Ok(captcha) => Ok(
                (
                    LoginChallengeRequest {
                        authenticity_token,
                        captcha,
                        url: query.url,
                        error: query.error,
                        realm: self.realm.clone(),
                    },
                    session.id,
                ),
            ),
            Err(e) => Err(e),
        }
    }

    /// `POST /login`: run the challenge gates and the credential check —
    /// both always, so valid and invalid submissions do the same work —
    /// and either log the session in under a fresh identifier or record
    /// the failure and bounce back to the form.
    pub fn login_handler(
        &self,
        db: &mut Database,
        store: &mut SessionStore,
        cookie: Option<u64>,
        query: LoginQuery,
        form: LoginResponse,
        origin_host: &str,
        now_seconds: u64,
    ) -> (r: (Redirect, u64))
        requires
            self.user_manager().wf(),
            old(store).wf(),
            old(store).next_id() < u64::MAX - 1,
        ensures
            final(store).wf(),
            old(store).next_id() <= final(store).next_id() <= old(store).next_id() + 2,
            final(db).users() == old(db).users(),
            final(db).wf() == old(db).wf(),
            ({
                let loaded = spec_loaded_session(*old(store), cookie, now_seconds);
                let now_min = clock::minutes_of_seconds(now_seconds);
                let ok = spec_challenge_valid(
                    self.challenge_manager().thresholds(),
                    old(db).bans(),
                    loaded.data,
                    form.authenticity_token@,
                    form.captcha,
                    origin_host@,
                    now_min,
                ) && spec_validate(
                    self.user_manager().pepper(),
                    old(db).users(),
                    form.username@,
                    form.password@,
                    form.passcode@,
                    now_seconds,
                );
                if ok {
                    &&& r.1 != loaded.id
                    &&& final(db).bans() == old(db).bans()
                    &&& r.0.location@ == (match query.url {
                        Some(u) => u@,
                        None => "/"@,
                    })
                    &&& (lookup_session(final(store).sessions(), r.1) matches Some(s) && {
                        &&& s.data.logged_in
                        &&& s.data.authenticity_token is None
                        &&& s.data.captcha_solution is None
                        &&& s.expiry == spec_extended_expiry(
                            self.session_timeout_seconds(),
                            loaded.expiry,
                            now_seconds,
                        )
                    })
                } else {
                    &&& r.1 == loaded.id
                    &&& r.0.location@ == "/?error=true"@
                    &&& final(db).bans().len() == old(db).bans().len() + 1
                    &&& final(db).bans().drop_last() == old(db).bans()
                    &&& final(db).bans().last().host@ == origin_host@
                    &&& final(db).bans().last().failure_timestamp == now_min
                    &&& (lookup_session(final(store).sessions(), r.1) matches Some(s) && {
                        &&& s.data.logged_in == loaded.data.logged_in
                        &&& s.data.authenticity_token is None
                        &&& s.data.captcha_solution is None
                    })
                }
            }),
    {
        let mut session = store.load(cookie, now_seconds);
        let now_min = clock::minutes_for(now_seconds);
        let challenge_ok = self.challenge_manager.validate_at(
            db,
            &mut session,
            form.authenticity_token.as_str(),
            &form.captcha,
            origin_host,
            now_min,
        );
        let user_ok = self.user_manager.validate_at(
            db,
            form.username,
            form.password.as_str(),
            form.passcode.as_str(),
            now_seconds,
        );
        // Both checks have already run by this point, unconditionally: the
        // work done is the same for valid and invalid submissions.
        if challenge_ok && user_ok {
            store.regenerate(&mut session);
            session.set_logged_in(true);
            self.extend_session(&mut session, now_seconds);
            store.save(&session);
            let location = match query.url {
                Some(url) => url,
                None => "/".to_owned(),
            };
            (Redirect { location }, session.id)
        } else {
            self.challenge_manager.add_failure_at(db, origin_host.to_owned(), now_min);
            store.save(&session);
            (Redirect { location: "/?error=true".to_owned() }, session.id)
        }
    }

    /// `POST /logout`: mark the session logged out and move it to a fresh
    /// identifier, so the old cookie no longer names a session.
    pub fn logout_handler(&self, store: &mut SessionStore, cookie: Option<u64>, now_seconds: u64) -> (r: u64)
        requires
            old(store).wf(),
            old(store).next_id() < u64::MAX - 1,
        ensures
            final(store).wf(),
            old(store).next_id() <= final(store).next_id() <= old(store).next_id() + 2,
            ({
                let loaded = spec_loaded_session(*old(store), cookie, now_seconds);
                &&& r != loaded.id
                &&& !crate::session::has_session(final(store).sessions(), loaded.id)
                &&& (lookup_session(final(store).sessions(), r) matches Some(s) && {
                    &&& !s.data.logged_in
                    &&& s.data.authenticity_token == loaded.data.authenticity_token
                    &&& s.data.captcha_solution == loaded.data.captcha_solution
                    &&& s.expiry == loaded.expiry
                })
            }),
    {
        let mut session = store.load(cookie, now_seconds);
        let ghost loaded_id = session.id;
        session.set_logged_in(false);
        store.regenerate(&mut session);
        let ghost pre_save = store.sessions();
        proof {
            crate::session::lemma_lookup_session_none(pre_save, loaded_id);
        }
        store.save(&session);
        proof {
            let after = store.sessions();
            assert(after == pre_save.push(session));
            assert forall|i: int| 0 <= i < after.len() implies #[trigger] after[i].id
                != loaded_id by {
                if i < pre_save.len() {
                    assert(after[i] == pre_save[i]);
                } else {
                    assert(after[i] == session);
                }
            }
            crate::session::lemma_lookup_session_absent(after, loaded_id);
        }
        session.id
    }

    /// `GET /validate`: the proxy's sub-request. Refresh the session's
    /// expiry and answer whether it is logged in.
    pub fn validate_handler(&self, store: &mut SessionStore, cookie: Option<u64>, now_seconds: u64) -> (r: (
        AuthStatus,
        u64,
    ))
        requires
            old(store).wf(),
            old(store).can_mint(),
        ensures
            final(store).wf(),
            old(store).next_id() <= final(store).next_id() <= old(store).next_id() + 1,
            ({
                let loaded = spec_loaded_session(*old(store), cookie, now_seconds);
                &&& (r.0 == AuthStatus::Authorized <==> loaded.data.logged_in)
                &&& r.1 == loaded.id
                &&& (lookup_session(final(store).sessions(), r.1) matches Some(s) && {
                    &&& s.data == loaded.data
                    &&& s.expiry == spec_extended_expiry(
                        self.session_timeout_seconds(),
                        loaded.expiry,
                        now_seconds,
                    )
                })
            }),
    {
        let mut session = store.load(cookie, now_seconds);
        self.extend_session(&mut session, now_seconds);
        store.save(&session);
        let status = if session.data.logged_in {
            AuthStatus::Authorized
        } else {
            AuthStatus::Unauthorized
        };
        (status, session.id)
    }
}

} // verus!
