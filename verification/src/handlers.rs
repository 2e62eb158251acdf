//! The decision cores of the request handlers: input validation and the
//! accept/reject rules, as pure functions of the request and of what the
//! stores reported. The HTTP surface and the store queries stay outside the
//! library and act on what these functions decide.

use vstd::prelude::*;
use vstd::string::*;

use crate::error::AppError;
use crate::models::Dashboard;
use crate::models::LoginRequest;
use crate::models::RegisterRequest;
use crate::models::UpdateDashboardRequest;
use crate::text::is_blank;
use crate::text::is_space_char;
use crate::text::space_char;

verus! {

/// Registration is rejected, in this order, when email or password is empty,
/// when the password is shorter than eight bytes, and when the email is
/// already registered; otherwise it may proceed.
pub fn check_registration(req: &RegisterRequest, email_taken: bool) -> (r: Result<(), AppError>)
    ensures
        req.email@.len() == 0 || req.password@.len() == 0 ==> (r matches Err(e) && e matches
            AppError::Validation(m) && m@ == "Email and password are required"@),
        req.email@.len() > 0 && req.password@.len() > 0 && vstd::utf8::encode_utf8(
            req.password@,
        ).len() < 8 ==> (r matches Err(e) && e matches AppError::Validation(m) && m@
            == "Password must be at least 8 characters"@),
        req.email@.len() > 0 && req.password@.len() > 0 && vstd::utf8::encode_utf8(
            req.password@,
        ).len() >= 8 && email_taken ==> (r matches Err(e) && e matches AppError::Validation(m)
            && m@ == "Email already registered"@),
        r is Ok <==> (req.email@.len() > 0 && req.password@.len() > 0 && vstd::utf8::encode_utf8(
            req.password@,
        ).len() >= 8 && !email_taken),
{
    if req.email.as_str().is_empty() || req.password.as_str().is_empty() {
        return Err(AppError::Validation(String::from_str("Email and password are required")));
    }
    if req.password.as_str().as_bytes().len() < 8 {
        return Err(AppError::Validation(String::from_str("Password must be at least 8 characters")));
    }
    if email_taken {
        return Err(AppError::Validation(String::from_str("Email already registered")));
    }
    Ok(())
}

/// A login request must name both an email and a password.
pub fn check_login_request(req: &LoginRequest) -> (r: Result<(), AppError>)
    ensures
        r is Ok <==> (req.email@.len() > 0 && req.password@.len() > 0),
        r matches Err(e) ==> (e matches AppError::Validation(m) && m@
            == "Email and password are required"@),
{
    if req.email.as_str().is_empty() || req.password.as_str().is_empty() {
        return Err(AppError::Validation(String::from_str("Email and password are required")));
    }
    Ok(())
}

/// A login succeeds exactly when the user exists and the password matched;
/// either failure yields the same uniform message, so a caller cannot tell
/// which check failed.
pub fn login_decision(user_found: bool, password_ok: bool) -> (r: Result<(), AppError>)
    ensures
        r is Ok <==> (user_found && password_ok),
        r matches Err(e) ==> (e matches AppError::Auth(m) && m@ == "Invalid credentials"@),
{
    if user_found && password_ok {
        Ok(())
    } else {
        Err(AppError::Auth(String::from_str("Invalid credentials")))
    }
}

/// A dashboard needs a name with at least one non-whitespace character.
pub fn validate_dashboard_name(name: &str) -> (r: Result<(), AppError>)
    ensures
        r is Ok <==> !is_blank(name@),
        r matches Err(e) ==> (e matches AppError::Validation(m) && m@
            == "Dashboard name is required"@),
{
    let n = name.unicode_len();
    let mut i: usize = 0;
    while i < n
        invariant
            0 <= i <= n == name@.len(),
            forall|j: int| 0 <= j < i ==> is_space_char(name@[j]),
        decreases n - i,
    {
        let c = name.get_char(i);
        if !space_char(c) {
            return Ok(());
        }
        i += 1;
    }
    Err(AppError::Validation(String::from_str("Dashboard name is required")))
}

/// Resolve an update against the stored dashboard: each absent field keeps
/// its stored value. Returns the resolved (name, layout, settings).
pub fn merge_dashboard_update(existing: &Dashboard, update: UpdateDashboardRequest) -> (r: (
    String,
    String,
    String,
))
    ensures
        update.name matches Some(n) ==> r.0@ == n@,
        update.name is None ==> r.0@ == existing.name@,
        update.layout_json matches Some(l) ==> r.1@ == l@,
        update.layout_json is None ==> r.1@ == existing.layout_json@,
        update.settings_json matches Some(s) ==> r.2@ == s@,
        update.settings_json is None ==> r.2@ == existing.settings_json@,
{
    let name = match update.name {
        Some(n) => n,
        None => existing.name.clone(),
    };
    let layout = match update.layout_json {
        Some(l) => l,
        None => existing.layout_json.clone(),
    };
    let settings = match update.settings_json {
        Some(s) => s,
        None => existing.settings_json.clone(),
    };
    (name, layout, settings)
}

/// A deletion that touched no row means the dashboard was not there (or not
/// owned by the caller) and is reported as not found.
pub fn delete_outcome(rows_affected: u64) -> (r: Result<(), AppError>)
    ensures
        r is Ok <==> rows_affected != 0,
        r matches Err(e) ==> (e matches AppError::NotFound(m) && m@ == "Dashboard not found"@),
{
    if rows_affected == 0 {
        Err(AppError::NotFound(String::from_str("Dashboard not found")))
    } else {
        Ok(())
    }
}

} // verus!
