//! Account handling: registration, login, and the current user.
//!
//! The relational store answers existence and lookup questions; everything
//! decided from those answers is here, with the decision pinned down exactly.
//! A failed login names no cause: an unknown email and a wrong password
//! produce one and the same credential error, so a caller cannot probe which
//! accounts exist.

use vstd::prelude::*;
use crate::errors::{AppError, AppResult};
use crate::hashing::{hash_password, spec_password_matches, verify_password};
use crate::records::{AuthResponse, User, UserResponse};
use crate::token::{create_jwt, spec_signed_token, spec_token_carries};
use crate::validate::{CreateUser, LoginRequest, create_user_valid, login_request_valid, validate_create_user, validate_login_request};

verus! {

/// Admits a registration exactly when the payload is valid and the email is
/// still free, and otherwise says which rule failed; a taken email is a
/// validation failure, stated openly since registration is no secret.
pub fn check_registration(payload: &CreateUser, email_exists: bool) -> (r: Result<(), AppError>)
    ensures
        r is Ok <==> create_user_valid(payload) && !email_exists,
        r matches Err(e) ==> e.is_validation(),
        create_user_valid(payload) && email_exists ==> (r matches Err(e)
            && e.spec_client_message() == "Email already registered"@),
{
    match validate_create_user(payload) {
        Ok(_) => {
            if email_exists {
                Err(AppError::Validation("Email already registered".to_owned()))
            } else {
                Ok(())
            }
        },
        Err(e) => Err(e),
    }
}

/// Hashes the password of an admitted registration into its storable form.
/// The stored string verifies against exactly the registered password; the
/// only failure is the hasher's own catastrophic one.
pub fn registration_credential(payload: &CreateUser) -> (r: AppResult<String>)
    ensures
        r matches Ok(h) ==> spec_password_matches(payload.password@, h@),
        r matches Err(e) ==> e is PasswordHash,
{
    hash_password(payload.password.as_str())
}

/// Decides a login attempt from its payload and the user row found for the
/// email, if any. It succeeds exactly when the payload is valid, the account
/// exists and the password matches its stored credential — and an absent
/// account and a wrong password are turned away with one identical error.
pub fn check_login(payload: &LoginRequest, account: Option<&User>) -> (r: Result<(), AppError>)
    ensures
        r is Ok <==> login_request_valid(payload) && (account matches Some(u)
            && spec_password_matches(payload.password@, u.password_hash@)),
        login_request_valid(payload) && !(account matches Some(u) && spec_password_matches(
            payload.password@,
            u.password_hash@,
        )) ==> (r matches Err(e) && e matches AppError::Authentication(m) && m@
            == "Invalid credentials"@),
        !login_request_valid(payload) ==> (r matches Err(e) && e.is_validation()),
{
    match validate_login_request(payload) {
        Ok(_) => {
            match account {
                Some(u) => verify_password(payload.password.as_str(), u.password_hash.as_str()),
                None => Err(AppError::Authentication("Invalid credentials".to_owned())),
            }
        },
        Err(e) => Err(e),
    }
}

/// Builds the success payload of registration and login: a fresh token for the
/// user, expiring the configured hours past `now`, beside the client-visible
/// user — field for field the stored row, with the credential left out.
pub fn issue_auth_response(user: &User, secret: &str, expiration_hours: i64, now: i64) -> (r:
    AppResult<AuthResponse>)
    requires
        0 <= now,
        0 < expiration_hours,
        now + expiration_hours * 3600 <= i64::MAX,
    ensures
        r is Ok,
        r matches Ok(a) ==> a.token@ == spec_signed_token(
            user.id@,
            (now + expiration_hours * 3600) as i64,
            secret@,
        ),
        r matches Ok(a) ==> spec_token_carries(
            a.token@,
            user.id@,
            (now + expiration_hours * 3600) as i64,
            secret@,
        ),
        r matches Ok(a) ==> a.user.id@ == user.id@ && a.user.email@ == user.email@
            && a.user.full_name@ == user.full_name@ && a.user.created_at == user.created_at,
{
    let token = match create_jwt(&user.id, secret, expiration_hours, now) {
        Ok(t) => t,
        Err(e) => {
            return Err(e);
        },
    };
    Ok(AuthResponse { token, user: UserResponse::of_user(user) })
}

/// Answers the current-user request from the row found for the authenticated
/// subject: the client-visible user when the row is there, not-found when the
/// account has meanwhile gone.
pub fn current_user_response(row: Option<&User>) -> (r: AppResult<UserResponse>)
    ensures
        r is Ok <==> row is Some,
        row matches Some(u) ==> (r matches Ok(resp) && resp.id@ == u.id@ && resp.email@ == u.email@
            && resp.full_name@ == u.full_name@ && resp.created_at == u.created_at),
        r matches Err(e) ==> (e matches AppError::NotFound(m) && m@ == "User not found"@),
{
    match row {
        Some(u) => Ok(UserResponse::of_user(u)),
        None => Err(AppError::NotFound("User not found".to_owned())),
    }
}

} // verus!
