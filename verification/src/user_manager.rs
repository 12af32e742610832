//! User accounts: registration, deletion, credential rotation, and the
//! constant-work credential check.

use vstd::prelude::*;
use vstd::string::StringExecFns;

use crate::crypto;
use crate::db::has_user;
use crate::db::lookup_user;
use crate::db::Database;
use crate::encode;
use crate::entities::user;
use crate::errors::Error;

verus! {

/// Size of a TOTP secret in raw bytes.
pub const TOTP_SECRET_BYTES: usize = 128;

/// Size of the pepper: a SHA-512 digest of the cluster secret.
pub const PEPPER_BYTES: usize = 64;

/// A freshly generated TOTP secret.
pub struct TotpSecret {
    bytes: Vec<u8>,
}

impl View for TotpSecret {
    type V = Seq<u8>;

    closed spec fn view(&self) -> Seq<u8> {
        self.bytes@
    }
}

/// The TOTP provisioning URL for a secret, as the authenticator app scans it:
/// issuer and account percent-encoded, the secret in padded base32, and the
/// fixed SHA-1 / 6 digit / 30 second parameters spelled out.
pub open spec fn setup_code_of(secret: Seq<u8>, username: Seq<char>, issuer: Seq<char>) -> Seq<
    char,
> {
    "otpauth://totp/"@ + encode::urlencoded_of(issuer) + ":"@ + encode::urlencoded_of(username)
        + "?secret="@ + encode::base32_of(secret) + "&issuer="@ + encode::urlencoded_of(issuer)
        + "&algorithm=SHA1&digits=6&period=30"@
}

impl TotpSecret {
    /// 128 fresh random bytes.
    pub fn new() -> (r: TotpSecret)
        ensures
            r@.len() == TOTP_SECRET_BYTES,
    {
        TotpSecret { bytes: crypto::random_bytes(TOTP_SECRET_BYTES) }
    }

    /// The provisioning URL binding this secret to an account and issuer.
    pub fn get_setup_code(&self, username: &str, issuer: &str) -> (r: SetupCode)
        ensures
            r@ == setup_code_of(self@, username@, issuer@),
    {
        let issuer_enc = encode::urlencode(issuer);
        let username_enc = encode::urlencode(username);
        let secret_b32 = encode::base32_encode(self.bytes.as_slice());
        let mut url = String::new();
        url.append("otpauth://totp/");
        url.append(issuer_enc.as_str());
        url.append(":");
        url.append(username_enc.as_str());
        url.append("?secret=");
        url.append(secret_b32.as_str());
        url.append("&issuer=");
        url.append(issuer_enc.as_str());
        url.append("&algorithm=SHA1&digits=6&period=30");
        proof {
            assert(url@ =~= setup_code_of(self@, username@, issuer@));
        }
        SetupCode { code: url }
    }

    /// The raw secret bytes, as they are persisted.
    pub fn into_bytes(self) -> (r: Vec<u8>)
        ensures
            r@ == self@,
    {
        self.bytes
    }
}

/// The unicode rendering of a QR code for a piece of text.
pub uninterp spec fn qr_unicode_of(s: Seq<char>) -> Seq<char>;

/// The longest ASCII text this crate counts on fitting in a QR code.
/// Version 40 at the medium correction level holds 18672 data bits, and
/// even at the coarsest segmenting a byte costs at most 28 bits, so 600
/// bytes always encode.
pub const QR_TEXT_CAPACITY: usize = 600;

/// Relies on qrcode::QrCode::new and its unicode Dense1x2 renderer (dark and
/// light swapped, for display on a dark terminal): deterministic in the
/// text, and failing only when the data outruns QR capacity — never for
/// ASCII text within `QR_TEXT_CAPACITY` characters.
#[verifier::external_body]
fn qr_render(text: &str) -> (r: Option<String>)
    ensures
        r matches Some(s) ==> s@ == qr_unicode_of(text@),
        vstd::utf8::is_ascii_chars(text@) && text@.len() <= QR_TEXT_CAPACITY ==> r is Some,
{
    match qrcode::QrCode::new(text) {
        Ok(code) => Some(
            code.render::<qrcode::render::unicode::Dense1x2>().dark_color(
                qrcode::render::unicode::Dense1x2::Light,
            ).light_color(qrcode::render::unicode::Dense1x2::Dark).build(),
        ),
        Err(_) => None,
    }
}

/// A TOTP provisioning URL ready to hand to the administrator.
pub struct SetupCode {
    code: String,
}

impl View for SetupCode {
    type V = Seq<char>;

    closed spec fn view(&self) -> Seq<char> {
        self.code@
    }
}

impl SetupCode {
    /// The provisioning URL rendered as a scannable QR code. Rendering is
    /// owed whenever the URL is ASCII and fits QR capacity, which every
    /// setup code with a reasonably sized issuer and username does.
    pub fn get_qr_code(&self) -> (r: Result<String, Error>)
        ensures
            r matches Ok(s) ==> s@ == qr_unicode_of(self@),
            r matches Err(e) ==> e == Error::Render,
            vstd::utf8::is_ascii_chars(self@) && self@.len() <= QR_TEXT_CAPACITY ==> r is Ok,
    {
        match qr_render(self.code.as_str()) {
            Some(s) => Ok(s),
            None => Err(Error::Render),
        }
    }

    /// The provisioning URL itself.
    pub fn get_raw_code(&self) -> (r: String)
        ensures
            r@ == self@,
    {
        self.code.clone()
    }
}

/// Whether a submission passes the credential check against a user table:
/// the username must be registered, the passcode must be the TOTP code of
/// the stored secret at the given moment, and the password must verify
/// against the stored peppered hash. An unknown username fails, after doing
/// the same work as a known one.
pub open spec fn spec_validate(
    pepper: Seq<u8>,
    users: Seq<user::Model>,
    username: Seq<char>,
    password: Seq<char>,
    passcode: Seq<char>,
    now_seconds: u64,
) -> bool {
    match lookup_user(users, username) {
        Some(u) => passcode == crypto::totp_of(u.totp_secret@, now_seconds)
            && crypto::argon2_verify_of(pepper, u.password_hash@, password),
        None => false,
    }
}

/// The credential check round-trips with registration, coordinate by
/// coordinate. A stored user validates under their own username, a password
/// their stored hash verifies, and the TOTP code of their stored secret at
/// the moment of the check. Changing the username to an unregistered one or
/// the passcode to anything but that TOTP code always fails the check, and
/// changing the password fails it whenever the hash verifier rejects the
/// substitute.
pub proof fn lemma_validate_round_trip(
    pepper: Seq<u8>,
    users: Seq<user::Model>,
    u: user::Model,
    i: int,
    password: Seq<char>,
    passcode: Seq<char>,
    t: u64,
)
    requires
        Database::users_unique(users),
        0 <= i < users.len(),
        users[i] == u,
        crypto::argon2_verify_of(pepper, u.password_hash@, password),
    ensures
        spec_validate(pepper, users, u.username@, password, crypto::totp_of(u.totp_secret@, t), t),
        forall|other: Seq<char>|
            !has_user(users, other) ==> !#[trigger] spec_validate(
                pepper,
                users,
                other,
                password,
                passcode,
                t,
            ),
        passcode != crypto::totp_of(u.totp_secret@, t) ==> !spec_validate(
            pepper,
            users,
            u.username@,
            password,
            passcode,
            t,
        ),
        forall|wrong: Seq<char>|
            !crypto::argon2_verify_of(pepper, u.password_hash@, wrong) ==> !#[trigger] spec_validate(
                pepper,
                users,
                u.username@,
                wrong,
                crypto::totp_of(u.totp_secret@, t),
                t,
            ),
{
    crate::db::lemma_lookup_unique(users, u.username@, i);
}

/// Account administration and the login credential check.
pub struct UserManager {
    issuer: String,
    pepper: Vec<u8>,
}

impl UserManager {
    /// The issuer label written into provisioning URLs.
    pub closed spec fn issuer(self) -> Seq<char> {
        self.issuer@
    }

    /// The process-wide pepper fed to the password hasher.
    pub closed spec fn pepper(self) -> Seq<u8> {
        self.pepper@
    }

    /// The pepper is a SHA-512 digest: 64 bytes.
    pub open spec fn wf(self) -> bool {
        self.pepper().len() == PEPPER_BYTES
    }

    pub fn new(issuer: String, pepper: Vec<u8>) -> (r: UserManager)
        requires
            pepper@.len() == PEPPER_BYTES,
        ensures
            r.wf(),
            r.issuer() == issuer@,
            r.pepper() == pepper@,
    {
        UserManager { issuer, pepper }
    }

    /// Hash a password under the pepper with a fresh random salt.
    fn hash_password(&self, password: &str) -> (r: Result<String, Error>)
        requires
            self.wf(),
        ensures
            r matches Ok(h) ==> crypto::argon2_verify_of(self.pepper(), h@, password@),
            r matches Err(e) ==> e == Error::Crypto && password@.len() > 0xffff,
    {
        match crypto::hash_password_with_pepper(self.pepper.as_slice(), password) {
            Some(h) => Ok(h),
            None => Err(Error::Crypto),
        }
    }

    /// Register a new account: generate a secret, hash the password, insert
    /// the record, and hand back the provisioning URL.
    pub fn register(&self, db: &mut Database, username: String, password: String) -> (r: Result<
        SetupCode,
        Error,
    >)
        requires
            self.wf(),
            old(db).wf(),
        ensures
            final(db).wf(),
            final(db).bans() == old(db).bans(),
            match r {
                Ok(code) => !has_user(old(db).users(), username@) && final(db).users().len() == old(db).users().len() + 1 && final(db).users().drop_last() == old(db).users() && ({
                    let u = final(db).users().last();
                    &&& u.username@ == username@
                    &&& u.totp_secret@.len() == TOTP_SECRET_BYTES
                    &&& crypto::argon2_verify_of(self.pepper(), u.password_hash@, password@)
                    &&& code@ == setup_code_of(u.totp_secret@, username@, self.issuer())
                }),
                Err(Error::UserAlreadyExists) => has_user(old(db).users(), username@) && final(db).users() == old(db).users(),
                Err(Error::Crypto) => password@.len() > 0xffff && final(db).users() == old(db).users(),
                Err(_) => false,
            },
            !has_user(old(db).users(), username@) && password@.len() <= 0xffff ==> r is Ok,
    {
        let totp_secret = TotpSecret::new();
        let setup_code = totp_secret.get_setup_code(username.as_str(), self.issuer.as_str());
        let password_hash = match self.hash_password(password.as_str()) {
            Ok(h) => h,
            Err(e) => {
                return Err(e);
            },
        };
        let record = user::Model {
            username,
            password_hash,
            totp_secret: totp_secret.into_bytes(),
        };
        match db.insert_user(record) {
            Ok(()) => {
                proof {
                    assert(db.users().drop_last() =~= old(db).users());
                }
                Ok(setup_code)
            },
            Err(e) => Err(e),
        }
    }

    /// Delete an account; fails when the username is unknown.
    pub fn delete(&self, db: &mut Database, username: String) -> (r: Result<(), Error>)
        requires
            old(db).wf(),
        ensures
            final(db).wf(),
            final(db).bans() == old(db).bans(),
            r is Ok <==> has_user(old(db).users(), username@),
            match r {
                Ok(()) => exists|i: int|
                    0 <= i < old(db).users().len() && old(db).users()[i].username@ == username@
                        && final(db).users() == old(db).users().remove(i),
                Err(e) => e == Error::UserNotFound && final(db).users() == old(db).users(),
            },
    {
        db.delete_user(&username)
    }

    /// Replace an account's password hash; fails when the username is unknown.
    pub fn reset_password(&self, db: &mut Database, username: String, password: String) -> (r:
        Result<(), Error>)
        requires
            self.wf(),
            old(db).wf(),
        ensures
            final(db).wf(),
            final(db).bans() == old(db).bans(),
            match r {
                Ok(()) => has_user(old(db).users(), username@) && exists|i: int|
                    0 <= i < old(db).users().len() && old(db).users()[i].username@ == username@
                        && ({
                        let u = final(db).users()[i];
                        &&& final(db).users() == old(db).users().update(i, u)
                        &&& u.username@ == username@
                        &&& u.totp_secret@ == old(db).users()[i].totp_secret@
                        &&& crypto::argon2_verify_of(self.pepper(), u.password_hash@, password@)
                    }),
                Err(Error::UserNotFound) => !has_user(old(db).users(), username@) && final(db).users() == old(db).users(),
                Err(Error::Crypto) => password@.len() > 0xffff && final(db).users() == old(db).users(),
                Err(_) => false,
            },
            has_user(old(db).users(), username@) && password@.len() <= 0xffff ==> r is Ok,
    {
        let secret_copy = match db.find_user(&username) {
            Some(u) => vstd::slice::slice_to_vec(u.totp_secret.as_slice()),
            None => {
                return Err(Error::UserNotFound);
            },
        };
        let password_hash = match self.hash_password(password.as_str()) {
            Ok(h) => h,
            Err(e) => {
                return Err(e);
            },
        };
        let ghost old_users = db.users();
        let record = user::Model { username, password_hash, totp_secret: secret_copy };
        let ghost record_snapshot = record;
        match db.update_user(record) {
            Ok(()) => {
                proof {
                    let i = choose|i: int|
                        0 <= i < old_users.len() && old_users[i].username@ == record_snapshot.username@
                            && db.users() == old_users.update(i, record_snapshot);
                    crate::db::lemma_lookup_unique(old_users, record_snapshot.username@, i);
                    assert(db.users()[i] == record_snapshot);
                }
                Ok(())
            },
            Err(e) => Err(e),
        }
    }

    /// Replace an account's TOTP secret; fails when the username is unknown.
    /// Hands back the new provisioning URL.
    pub fn reset_mfa(&self, db: &mut Database, username: String) -> (r: Result<SetupCode, Error>)
        requires
            old(db).wf(),
        ensures
            final(db).wf(),
            final(db).bans() == old(db).bans(),
            r is Ok <==> has_user(old(db).users(), username@),
            match r {
                Ok(code) => exists|i: int|
                    0 <= i < old(db).users().len() && old(db).users()[i].username@ == username@
                        && ({
                        let u = final(db).users()[i];
                        &&& final(db).users() == old(db).users().update(i, u)
                        &&& u.username@ == username@
                        &&& u.password_hash@ == old(db).users()[i].password_hash@
                        &&& u.totp_secret@.len() == TOTP_SECRET_BYTES
                        &&& code@ == setup_code_of(u.totp_secret@, username@, self.issuer())
                    }),
                Err(e) => e == Error::UserNotFound && final(db).users() == old(db).users(),
            },
    {
        let secret = TotpSecret::new();
        let setup_code = secret.get_setup_code(username.as_str(), self.issuer.as_str());
        let hash_copy = match db.find_user(&username) {
            Some(u) => u.password_hash.clone(),
            None => {
                return Err(Error::UserNotFound);
            },
        };
        let ghost old_users = db.users();
        let record = user::Model {
            username,
            password_hash: hash_copy,
            totp_secret: secret.into_bytes(),
        };
        let ghost record_snapshot = record;
        match db.update_user(record) {
            Ok(()) => {
                proof {
                    let i = choose|i: int|
                        0 <= i < old_users.len() && old_users[i].username@
                            == record_snapshot.username@ && db.users() == old_users.update(
                            i,
                            record_snapshot,
                        );
                    crate::db::lemma_lookup_unique(old_users, record_snapshot.username@, i);
                    assert(db.users()[i] == record_snapshot);
                }
                Ok(setup_code)
            },
            Err(e) => Err(e),
        }
    }

    /// The fixed stand-in account checked when a username is unknown, built
    /// afresh on every call so that the missing-username path hashes exactly
    /// as the known-username path does.
    fn create_fake_user(&self) -> (r: user::Model)
        requires
            self.wf(),
        ensures
            r.totp_secret@.len() == TOTP_SECRET_BYTES,
    {
        proof {
            reveal_strlit("hunter2");
        }
        let password_hash = match self.hash_password("hunter2") {
            Ok(h) => h,
            Err(_) => {
                proof {
                    assert(false);
                }
                String::new()
            },
        };
        let username = "kevin".to_owned();
        user::Model { username, password_hash, totp_secret: vec![0u8; TOTP_SECRET_BYTES] }
    }

    /// The credential check at a known moment: both the TOTP comparison and
    /// the peppered hash verification run whether or not the username is
    /// registered, so the two paths do the same work.
    pub fn validate_at(
        &self,
        db: &Database,
        username: String,
        password: &str,
        passcode: &str,
        now_seconds: u64,
    ) -> (r: bool)
        requires
            self.wf(),
        ensures
            r == spec_validate(
                self.pepper(),
                db.users(),
                username@,
                password@,
                passcode@,
                now_seconds,
            ),
    {
        let fake_user = self.create_fake_user();
        let found = db.find_user(&username);
        let faked = found.is_none();
        let user: &user::Model = match found {
            Some(u) => u,
            None => &fake_user,
        };

        let expected_code = crypto::totp_code(user.totp_secret.as_slice(), now_seconds);
        let submitted_code: String = passcode.to_owned();
        let passcode_valid = expected_code == submitted_code;

        let password_valid = crypto::verify_password_with_pepper(
            self.pepper.as_slice(),
            user.password_hash.as_str(),
            password,
        );

        !faked && passcode_valid && password_valid
    }

    /// The credential check against the wall clock. Everything but the
    /// reading of the clock is pinned down by `spec_validate`.
    pub fn validate(&self, db: &Database, username: String, password: &str, passcode: &str) -> (r:
        bool)
        requires
            self.wf(),
        ensures
            exists|t: u64|
                r == spec_validate(
                    self.pepper(),
                    db.users(),
                    username@,
                    password@,
                    passcode@,
                    t,
                ),
    {
        let now = crate::clock::now_unix_seconds();
        self.validate_at(db, username, password, passcode, now)
    }
}

} // verus!
