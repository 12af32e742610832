//! Challenges around the login form: single-use CSRF tokens, adaptive
//! CAPTCHA, and the sliding-window ban gate, all fed by the failure counter.

use vstd::prelude::*;

use crate::clock;
use crate::config::BehaviourSettings;
use crate::crypto;
use crate::db::count_failures_spec;
use crate::db::retained_failures;
use crate::db::Database;
use crate::encode;
use crate::entities::ban_tracker;
use crate::errors::Error;
use crate::session::Session;
use crate::session::SessionData;

verus! {

/// Number of random bytes in a CSRF token.
pub const TOKEN_BYTES: usize = 128;

/// A base64-encoded PNG, with its pixel size.
pub struct Base64Image {
    pub w: u32,
    pub h: u32,
    pub base64: String,
}

/// Subtraction clamped to the i64 range, as the window start is computed.
pub open spec fn spec_saturating_sub(a: int, b: int) -> int {
    if a - b < i64::MIN {
        i64::MIN as int
    } else if a - b > i64::MAX {
        i64::MAX as int
    } else {
        a - b
    }
}

fn saturating_sub_i64(a: i64, b: i64) -> (r: i64)
    ensures
        r as int == spec_saturating_sub(a as int, b as int),
{
    let d: i128 = a as i128 - b as i128;
    if d < i64::MIN as i128 {
        i64::MIN
    } else if d > i64::MAX as i128 {
        i64::MAX
    } else {
        d as i64
    }
}

/// The failure count the gates consult: failures of `host` in the window of
/// `expiration` minutes ending at `now_min`.
pub open spec fn spec_failure_count(
    bans: Seq<ban_tracker::Model>,
    host: Seq<char>,
    now_min: int,
    expiration: int,
) -> nat {
    count_failures_spec(bans, host, spec_saturating_sub(now_min, expiration))
}

/// Whether a CAPTCHA must be solved: the count strictly exceeds the
/// threshold, when one is configured.
pub open spec fn spec_captcha_required(thresholds: BehaviourSettings, count: nat) -> bool {
    match thresholds.captcha {
        Some(t) => count > t,
        None => false,
    }
}

/// Whether a host can no longer succeed at login: the count strictly
/// exceeds the fake-login threshold, when one is configured.
pub open spec fn spec_banned(thresholds: BehaviourSettings, count: nat) -> bool {
    match thresholds.fake_login {
        Some(t) => count > t,
        None => false,
    }
}

/// CSRF gate: a token must be stored and the submission must match it.
pub open spec fn spec_csrf_valid(data: SessionData, token: Seq<char>) -> bool {
    match data.authenticity_token {
        Some(t) => t@ == token,
        None => false,
    }
}

/// CAPTCHA gate: with no stored solution there is nothing to answer; a
/// stored solution must be echoed exactly.
pub open spec fn spec_captcha_valid(data: SessionData, submitted: Option<String>) -> bool {
    match data.captcha_solution {
        Some(sol) => match submitted {
            Some(c) => sol@ == c@,
            None => false,
        },
        None => true,
    }
}

/// The whole challenge decision: all three gates must pass.
pub open spec fn spec_challenge_valid(
    thresholds: BehaviourSettings,
    bans: Seq<ban_tracker::Model>,
    data: SessionData,
    token: Seq<char>,
    submitted: Option<String>,
    host: Seq<char>,
    now_min: int,
) -> bool {
    &&& spec_csrf_valid(data, token)
    &&& spec_captcha_valid(data, submitted)
    &&& !spec_banned(
        thresholds,
        spec_failure_count(bans, host, now_min, thresholds.expiration as int),
    )
}

/// Relies on captcha::by_name (the Amelia style at medium difficulty): a
/// 220 x 120 pixel PNG of 4 to 6 random characters under noise, grid, wave
/// and dot filters, handed back base64-encoded beside its solution text.
/// The bundled font carries an image for every character it offers, so
/// exactly 4 to 6 are drawn. PNG encoding can fail; the drawn solution
/// comes back regardless, and an encoded image is never the empty string.
#[verifier::external_body]
fn generate_captcha() -> (r: (String, Option<String>))
    ensures
        4 <= r.0@.len() <= 6,
        r.1 matches Some(png) ==> png@.len() > 0,
{
    let c = captcha::by_name(captcha::Difficulty::Medium, captcha::CaptchaName::Amelia);
    (c.chars_as_string(), c.as_base64())
}

/// CSRF issuance, CAPTCHA gating, failure counting and the ban gate.
pub struct ChallengeManager {
    thresholds: BehaviourSettings,
}

impl ChallengeManager {
    /// The configured thresholds and window.
    pub closed spec fn thresholds(self) -> BehaviourSettings {
        self.thresholds
    }

    pub fn new(thresholds: BehaviourSettings) -> (r: ChallengeManager)
        ensures
            r.thresholds() == thresholds,
    {
        ChallengeManager { thresholds }
    }

    /// Issue a fresh CSRF token into the session and hand it back for the
    /// login form: the base64 of 128 fresh random bytes.
    pub fn issue_challenge(&self, session: &mut Session) -> (r: String)
        ensures
            final(session).data.authenticity_token matches Some(t) && t@ == r@,
            exists|b: Seq<u8>| b.len() == TOKEN_BYTES && r@ == encode::base64_of(b),
            r@.len() > 0,
            final(session).data.captcha_solution == old(session).data.captcha_solution,
            final(session).data.logged_in == old(session).data.logged_in,
            final(session).id == old(session).id,
            final(session).expiry == old(session).expiry,
    {
        let bytes = crypto::random_bytes(TOKEN_BYTES);
        let token = encode::base64_encode(bytes.as_slice());
        session.set_authenticity_token(token.clone());
        token
    }

    /// The failure count for `host` in the window ending at `now_min`.
    fn failure_count_at(&self, db: &Database, host: &String, now_min: i64) -> (r: u64)
        ensures
            r == spec_failure_count(
                db.bans(),
                host@,
                now_min as int,
                self.thresholds().expiration as int,
            ),
    {
        let cutoff = saturating_sub_i64(now_min, self.thresholds.expiration);
        db.count_failures(host, cutoff)
    }

    /// Issue a CAPTCHA when the host's failures pass the threshold: draw
    /// one, store its solution in the session, and hand the image back for
    /// the login form. Below the threshold no CAPTCHA is asked for, and any
    /// solution a previous form left behind is discarded: a solution sits
    /// in the session exactly when this — the most recent — form issued a
    /// CAPTCHA.
    pub fn maybe_issue_captcha(
        &self,
        db: &Database,
        session: &mut Session,
        host: &str,
        now_min: i64,
    ) -> (r: Result<Option<Base64Image>, Error>)
        ensures
            ({
                let required = spec_captcha_required(
                    self.thresholds(),
                    spec_failure_count(
                        db.bans(),
                        host@,
                        now_min as int,
                        self.thresholds().expiration as int,
                    ),
                );
                &&& (final(session).data.captcha_solution is Some <==> required)
                &&& match r {
                    Ok(None) => !required,
                    Ok(Some(img)) => required && img.w == 220 && img.h == 120
                        && img.base64@.len() > 0 && (
                        final(session).data.captcha_solution matches Some(sol) && 4 <= sol@.len()
                            <= 6),
                    Err(e) => e == Error::Render && required && (
                    final(session).data.captcha_solution matches Some(sol) && 4 <= sol@.len()
                        <= 6),
                }
                &&& final(session).data.authenticity_token == old(session).data.authenticity_token
                &&& final(session).data.logged_in == old(session).data.logged_in
                &&& final(session).id == old(session).id
                &&& final(session).expiry == old(session).expiry
            }),
    {
        session.clear_captcha_solution();
        let threshold = match self.thresholds.captcha {
            Some(t) => t,
            None => {
                return Ok(None);
            },
        };
        let host_s: String = host.to_owned();
        let count = self.failure_count_at(db, &host_s, now_min);
        if count > threshold {
            let (solution, png) = generate_captcha();
            session.set_captcha_solution(solution);
            match png {
                Some(b64) => Ok(Some(Base64Image { w: 220, h: 120, base64: b64 })),
                None => Err(Error::Render),
            }
        } else {
            Ok(None)
        }
    }

    /// The three login gates at a known minute. The stored CSRF token and
    /// CAPTCHA solution are consumed whatever the outcome: each is checked
    /// at most once.
    pub fn validate_at(
        &self,
        db: &Database,
        session: &mut Session,
        token: &str,
        captcha_text: &Option<String>,
        host: &str,
        now_min: i64,
    ) -> (r: bool)
        ensures
            r == spec_challenge_valid(
                self.thresholds(),
                db.bans(),
                old(session).data,
                token@,
                *captcha_text,
                host@,
                now_min as int,
            ),
            final(session).data.authenticity_token is None,
            final(session).data.captcha_solution is None,
            final(session).data.logged_in == old(session).data.logged_in,
            final(session).id == old(session).id,
            final(session).expiry == old(session).expiry,
    {
        let csrf_valid = match session.take_authenticity_token() {
            Some(stored) => {
                let submitted: String = token.to_owned();
                stored == submitted
            },
            None => false,
        };
        let captcha_valid = match session.take_captcha_solution() {
            Some(solution) => match captcha_text {
                Some(submitted) => solution == *submitted,
                None => false,
            },
            None => true,
        };
        let banned = match self.thresholds.fake_login {
            Some(threshold) => {
                let host_s: String = host.to_owned();
                self.failure_count_at(db, &host_s, now_min) > threshold
            },
            None => false,
        };
        csrf_valid && captcha_valid && !banned
    }

    /// The three login gates against the wall clock. Everything but the
    /// clock reading is pinned down by `spec_challenge_valid`, and the
    /// stored token and solution are consumed either way.
    pub fn validate(
        &self,
        db: &Database,
        session: &mut Session,
        token: &str,
        captcha_text: &Option<String>,
        host: &str,
    ) -> (r: bool)
        ensures
            exists|m: i64|
                #![auto]
                0 <= m && r == spec_challenge_valid(
                    self.thresholds(),
                    db.bans(),
                    old(session).data,
                    token@,
                    *captcha_text,
                    host@,
                    m as int,
                ),
            final(session).data.authenticity_token is None,
            final(session).data.captcha_solution is None,
            final(session).data.logged_in == old(session).data.logged_in,
            final(session).id == old(session).id,
            final(session).expiry == old(session).expiry,
    {
        let now_min = clock::now_minutes();
        self.validate_at(db, session, token, captcha_text, host, now_min)
    }

    /// Record one failed attempt for `host` at minute `now_min`.
    pub fn add_failure_at(&self, db: &mut Database, host: String, now_min: i64)
        ensures
            final(db).users() == old(db).users(),
            final(db).bans().len() == old(db).bans().len() + 1,
            final(db).bans().drop_last() == old(db).bans(),
            final(db).bans().last().host@ == host@,
            final(db).bans().last().failure_timestamp == now_min,
            final(db).wf() == old(db).wf(),
    {
        db.insert_failure(host, now_min);
    }

    /// Record one failed attempt for `host` at the current minute.
    pub fn add_failure(&self, db: &mut Database, host: String)
        ensures
            final(db).users() == old(db).users(),
            final(db).bans().len() == old(db).bans().len() + 1,
            final(db).bans().drop_last() == old(db).bans(),
            final(db).bans().last().host@ == host@,
            final(db).bans().last().failure_timestamp >= 0,
            final(db).wf() == old(db).wf(),
    {
        let now_min = clock::now_minutes();
        self.add_failure_at(db, host, now_min);
    }

    /// The garbage-collection tick, run hourly by the long-lived task around
    /// the service: delete every failure that has slid out of the window
    /// ending at `now_min`.
    pub fn cleanup_expired(&self, db: &mut Database, now_min: i64)
        ensures
            final(db).users() == old(db).users(),
            final(db).bans() == retained_failures(
                old(db).bans(),
                spec_saturating_sub(now_min as int, self.thresholds().expiration as int),
            ),
            final(db).wf() == old(db).wf(),
    {
        let cutoff = saturating_sub_i64(now_min, self.thresholds.expiration);
        db.delete_failures_older_than(cutoff);
    }
}

/// A consumed CSRF token cannot pass a second validation: with no token
/// stored in the session, the challenge fails for every submission.
pub proof fn lemma_csrf_single_use(
    thresholds: BehaviourSettings,
    bans: Seq<ban_tracker::Model>,
    data: SessionData,
    token: Seq<char>,
    submitted: Option<String>,
    host: Seq<char>,
    now_min: int,
)
    requires
        data.authenticity_token is None,
    ensures
        !spec_challenge_valid(thresholds, bans, data, token, submitted, host, now_min),
{
}

/// Appending one failure raises the window count by one when it names the
/// same host inside the window, and leaves it unchanged otherwise.
pub proof fn lemma_count_after_failure(
    bans: Seq<ban_tracker::Model>,
    entry: ban_tracker::Model,
    host: Seq<char>,
    since: int,
)
    ensures
        count_failures_spec(bans.push(entry), host, since) == count_failures_spec(
            bans,
            host,
            since,
        ) + (
        if entry.host@ == host && entry.failure_timestamp >= since {
            1nat
        } else {
            0nat
        }),
{
    assert(bans.push(entry).drop_last() =~= bans);
    assert(bans.push(entry).last() == entry);
}

/// The CAPTCHA requirement is monotone in the failure count: once the
/// count passes the threshold, further failures keep it required.
pub proof fn lemma_captcha_gate_monotonic(thresholds: BehaviourSettings, c1: nat, c2: nat)
    requires
        c1 <= c2,
        spec_captcha_required(thresholds, c1),
    ensures
        spec_captcha_required(thresholds, c2),
{
}

/// Past the fake-login threshold, the challenge fails however good the
/// CSRF token and the CAPTCHA answer are.
pub proof fn lemma_ban_masks_success(
    thresholds: BehaviourSettings,
    bans: Seq<ban_tracker::Model>,
    data: SessionData,
    token: Seq<char>,
    submitted: Option<String>,
    host: Seq<char>,
    now_min: int,
)
    requires
        spec_banned(
            thresholds,
            spec_failure_count(bans, host, now_min, thresholds.expiration as int),
        ),
    ensures
        !spec_challenge_valid(thresholds, bans, data, token, submitted, host, now_min),
{
}

/// A failure recorded at minute `t` no longer contributes to the failure
/// count once the clock reaches `t + expiration + 1`: the window has moved
/// past it.
pub proof fn lemma_failure_expires(
    bans: Seq<ban_tracker::Model>,
    entry: ban_tracker::Model,
    host: Seq<char>,
    t: int,
    expiration: int,
)
    requires
        entry.failure_timestamp == t,
        expiration >= 0,
        t + expiration + 1 <= i64::MAX,
    ensures
        spec_failure_count(bans.push(entry), host, t + expiration + 1, expiration)
            == spec_failure_count(bans, host, t + expiration + 1, expiration),
{
    lemma_count_after_failure(bans, entry, host, spec_saturating_sub(t + expiration + 1, expiration));
}

} // verus!
