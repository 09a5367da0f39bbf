//! The pure decisions of the request handlers.
//!
//! Queries, inserts and sends are I/O and live outside; each function here
//! takes what was fetched and decides what the handler does next, with the
//! exact error owed on each branch.

use vstd::prelude::*;
use vstd::string::StringExecFns;
use crate::constants::VERIFICATION_PIN_EXPIRATION_TIME;
use crate::dtos::UpdateProfileDto;
use crate::errors::HttpError;
use crate::errors::HttpErrorView;
use crate::models::User;
use crate::models::VerificationPin;

verus! {

/// Judges a fetched verification pin row at time `now` (epoch seconds): a
/// missing row is an invalid pin, a row past its expiry is an expired one,
/// and only a live row passes, unchanged.
pub fn check_verification_pin(pin_row: Option<VerificationPin>, now: i64) -> (r: Result<
    VerificationPin,
    HttpError,
>)
    ensures
        match pin_row {
            None => r matches Err(e) && e@ == (HttpErrorView {
                status: 400,
                message: "Invalid verification pin"@,
                errors: None,
            }),
            Some(p) => if p.expires_at < now {
                r matches Err(e) && e@ == (HttpErrorView {
                    status: 400,
                    message: "Verification pin expired"@,
                    errors: None,
                })
            } else {
                r matches Ok(q) && q@ == p@
            },
        },
{
    match pin_row {
        None => Err(HttpError::bad_request("Invalid verification pin".to_owned())),
        Some(p) => {
            if p.expires_at < now {
                Err(HttpError::bad_request("Verification pin expired".to_owned()))
            } else {
                Ok(p)
            }
        },
    }
}

/// Requires the user row a verification looked up: a missing account is a
/// bad request, not a server fault.
pub fn user_for_verification(user: Option<User>) -> (r: Result<User, HttpError>)
    ensures
        match user {
            None => r matches Err(e) && e@ == (HttpErrorView {
                status: 400,
                message: "User not found"@,
                errors: None,
            }),
            Some(u) => r matches Ok(v) && v@ == u@,
        },
{
    match user {
        None => Err(HttpError::bad_request("User not found".to_owned())),
        Some(u) => Ok(u),
    }
}

/// Requires the user row an authenticated read looked up: a missing
/// account is a 404.
pub fn user_or_not_found(user: Option<User>) -> (r: Result<User, HttpError>)
    ensures
        match user {
            None => r matches Err(e) && e@ == (HttpErrorView {
                status: 404,
                message: "User not found"@,
                errors: None,
            }),
            Some(u) => r matches Ok(v) && v@ == u@,
        },
{
    match user {
        None => Err(HttpError::not_found("User not found".to_owned())),
        Some(u) => Ok(u),
    }
}

/// Judges a username-uniqueness probe: any row found means the name is
/// taken.
pub fn check_username_free(existing: Option<User>) -> (r: Result<(), HttpError>)
    ensures
        match existing {
            Some(_) => r matches Err(e) && e@ == (HttpErrorView {
                status: 409,
                message: "Username already exists"@,
                errors: None,
            }),
            None => r is Ok,
        },
{
    match existing {
        Some(_) => Err(HttpError::conflict("Username already exists".to_owned())),
        None => Ok(()),
    }
}

/// The values a profile update writes: each field the body names, and the
/// stored value for each it leaves out.
pub fn merge_profile(user: &User, body: UpdateProfileDto) -> (r: (String, Option<String>))
    ensures
        r.0@ == (match body.username {
            Some(u) => u@,
            None => user@.username,
        }),
        (match r.1 {
            Some(p) => Some(p@),
            None => None,
        }) == (match body.profile_image_url {
            Some(p) => Some(p@),
            None => user@.profile_image_url,
        }),
{
    let username = match body.username {
        Some(u) => u,
        None => user.username.clone(),
    };
    let profile_image_url = match body.profile_image_url {
        Some(p) => Some(p),
        None => match &user.profile_image_url {
            Some(p) => Some(p.clone()),
            None => None,
        },
    };
    (username, profile_image_url)
}

/// What the like handler does to the store.
#[derive(Clone, Copy, PartialEq, Eq, Structural, Debug)]
pub enum LikeAction {
    /// Insert the (post, user) like row.
    Insert,
    /// Delete the (post, user) like row.
    Delete,
}

/// The like toggle: a user who has liked unlikes, one who has not likes —
/// the action and the state reported back are a function of the prior
/// state alone, so two racing toggles by one user land on insert-or-delete
/// of the same unique row, never on a duplicate.
pub fn toggle_like(has_liked: bool) -> (r: (LikeAction, bool))
    ensures
        has_liked ==> r == (LikeAction::Delete, false),
        !has_liked ==> r == (LikeAction::Insert, true),
{
    if has_liked {
        (LikeAction::Delete, false)
    } else {
        (LikeAction::Insert, true)
    }
}

/// Normalizes the comment listing's parent filter: an empty parent id
/// means no filter at all.
pub fn normalize_parent_filter(parent_id: Option<String>) -> (r: Option<String>)
    ensures
        match parent_id {
            Some(p) => if p@.len() == 0 {
                r is None
            } else {
                r matches Some(q) && q@ == p@
            },
            None => r is None,
        },
{
    match parent_id {
        Some(p) => {
            if p.as_str().unicode_len() == 0 {
                None
            } else {
                Some(p)
            }
        },
        None => None,
    }
}

/// When a pin drawn at `now` (epoch seconds) stops being accepted.
pub fn pin_expiry(now: i64) -> (r: i64)
    requires
        now + VERIFICATION_PIN_EXPIRATION_TIME <= i64::MAX,
    ensures
        r == now + VERIFICATION_PIN_EXPIRATION_TIME,
{
    now + (VERIFICATION_PIN_EXPIRATION_TIME as i64)
}

/// The text of the verification mail.
pub fn verification_mail_body(code: &str) -> (r: String)
    ensures
        r@ == "Your verification code is "@ + code@,
{
    let mut out = String::new();
    out.append("Your verification code is ");
    out.append(code);
    proof {
        assert(out@ =~= "Your verification code is "@ + code@);
    }
    out
}

} // verus!
