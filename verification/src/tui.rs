//! Decisions behind the administrator's password prompt: strength scoring,
//! the accept/re-prompt verdict, the strength meter, and what to print for
//! a fresh TOTP setup code. The terminal itself is driven by the binary
//! around the library.

use vstd::prelude::*;
use vstd::string::StringExecFns;

use crate::errors::Error;
use crate::user_manager::qr_unicode_of;
use crate::user_manager::SetupCode;

verus! {

/// The least zxcvbn score an administrator's password may have.
pub const MINIMUM_PASSWORD_SCORE: u8 = 3;

/// Relies on zxcvbn::zxcvbn with no extra user inputs: a score from 0
/// (guessable) to 4 (strong). The estimate is seeded with the current date
/// — a password containing a recent year scores by its distance from today
/// — so nothing beyond the range is claimed of the value. The estimator
/// refuses a blank password, and gives up when the system clock cannot be
/// read.
#[verifier::external_body]
fn estimate_strength(password: &str) -> (r: Option<u8>)
    ensures
        r matches Some(s) ==> s <= 4,
        password@.len() == 0 ==> r is None,
{
    match zxcvbn::zxcvbn(password, &[]) {
        Ok(e) => Some(e.score()),
        Err(_) => None,
    }
}

/// What the prompt does with a candidate password.
#[derive(Clone, Copy, PartialEq, Eq, Structural, Debug)]
pub enum PasswordVerdict {
    /// The estimator could not score it; prompt again.
    Unscorable,
    /// Scored below the minimum; prompt again.
    TooWeak,
    /// Strong enough; go on to the confirmation prompt.
    StrongEnough,
}

/// The verdict a score maps to.
pub open spec fn spec_password_verdict(score: Option<u8>) -> PasswordVerdict {
    match score {
        None => PasswordVerdict::Unscorable,
        Some(s) => if s < MINIMUM_PASSWORD_SCORE {
            PasswordVerdict::TooWeak
        } else {
            PasswordVerdict::StrongEnough
        },
    }
}

/// Score a candidate password and judge it, handing the score back for the
/// meter display.
pub fn check_password(password: &str) -> (r: (PasswordVerdict, Option<u8>))
    ensures
        r.1 matches Some(s) ==> s <= 4,
        password@.len() == 0 ==> r.1 is None,
        r.0 == spec_password_verdict(r.1),
{
    let score = estimate_strength(password);
    let verdict = match score {
        None => PasswordVerdict::Unscorable,
        Some(s) => if s < MINIMUM_PASSWORD_SCORE {
            PasswordVerdict::TooWeak
        } else {
            PasswordVerdict::StrongEnough
        },
    };
    (verdict, score)
}

/// Whether the confirmation retyping matches the first entry.
pub fn passwords_match(password: &str, confirm: &str) -> (r: bool)
    ensures
        r == (password@ == confirm@),
{
    let a: String = password.to_owned();
    let b: String = confirm.to_owned();
    a == b
}

/// The four-cell strength meter shown beside the score: one filled cell per
/// score point.
pub fn strength_meter(score: u8) -> (r: String)
    requires
        score <= 4,
    ensures
        r@.len() == 4,
        forall|i: int|
            0 <= i < 4 ==> r@[i] == (if i < score {
                '\u{25ae}'
            } else {
                '\u{25af}'
            }),
{
    proof {
        reveal_strlit("\u{25ae}");
        reveal_strlit("\u{25af}");
    }
    let mut meter = String::new();
    let mut i: u8 = 0;
    while i < 4
        invariant
            i <= 4,
            meter@.len() == i,
            forall|j: int|
                0 <= j < i ==> meter@[j] == (if j < score {
                    '\u{25ae}'
                } else {
                    '\u{25af}'
                }),
        decreases 4 - i,
    {
        proof {
            reveal_strlit("\u{25ae}");
            reveal_strlit("\u{25af}");
        }
        if i < score {
            meter.append("\u{25ae}");
        } else {
            meter.append("\u{25af}");
        }
        i = i + 1;
    }
    meter
}

/// What the admin terminal prints for a fresh setup code: the QR rendering
/// when asked for, else the raw provisioning URL. The QR rendering is owed
/// whenever the URL is ASCII and fits QR capacity.
pub fn setup_code_display(code: &SetupCode, show_qr: bool) -> (r: Result<String, Error>)
    ensures
        match r {
            Ok(s) => (show_qr && s@ == qr_unicode_of(code@)) || (!show_qr && s@ == code@),
            Err(e) => show_qr && e == Error::Render,
        },
        vstd::utf8::is_ascii_chars(code@) && code@.len()
            <= crate::user_manager::QR_TEXT_CAPACITY ==> r is Ok,
{
    if show_qr {
        code.get_qr_code()
    } else {
        Ok(code.get_raw_code())
    }
}

} // verus!
