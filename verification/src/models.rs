//! The data shapes the handlers exchange with the identity and dashboard
//! stores, held as plain values: identifiers as their textual form,
//! timestamps as seconds since the epoch, layouts and settings as serialized
//! text.

use vstd::prelude::*;

verus! {

/// A stored user: subject identifier, contact attribute, and the PHC-encoded
/// password hash. The plaintext password is never stored.
#[derive(Debug, Clone, PartialEq, Eq)]
pub struct User {
    pub id: String,
    pub email: String,
    pub password_hash: String,
    pub created_at: i64,
}

/// A registration request.
#[derive(Debug, Clone, PartialEq, Eq)]
pub struct RegisterRequest {
    pub email: String,
    pub password: String,
}

/// A login request.
#[derive(Debug, Clone, PartialEq, Eq)]
pub struct LoginRequest {
    pub email: String,
    pub password: String,
}

/// A user as it is shown to callers: everything but the password hash.
#[derive(Debug, Clone, PartialEq, Eq)]
pub struct UserResponse {
    pub id: String,
    pub email: String,
    pub created_at: i64,
}

/// What a successful registration or login answers: a session token and the
/// user it names.
#[derive(Debug, Clone, PartialEq, Eq)]
pub struct AuthResponse {
    pub token: String,
    pub user: UserResponse,
}

impl User {
    /// The caller-facing view of this user, with the password hash dropped.
    pub fn to_response(&self) -> (r: UserResponse)
        ensures
            r.id@ == self.id@,
            r.email@ == self.email@,
            r.created_at == self.created_at,
    {
        UserResponse { id: self.id.clone(), email: self.email.clone(), created_at: self.created_at }
    }
}

/// A stored dashboard, owned by one user.
#[derive(Debug, Clone, PartialEq, Eq)]
pub struct Dashboard {
    pub id: String,
    pub user_id: String,
    pub name: String,
    pub layout_json: String,
    pub settings_json: String,
    pub created_at: i64,
    pub updated_at: i64,
}

/// A request to create a dashboard.
#[derive(Debug, Clone, PartialEq, Eq)]
pub struct CreateDashboardRequest {
    pub name: String,
    pub layout_json: String,
    pub settings_json: String,
}

/// A request to update a dashboard; absent fields keep their stored value.
#[derive(Debug, Clone, PartialEq, Eq)]
pub struct UpdateDashboardRequest {
    pub name: Option<String>,
    pub layout_json: Option<String>,
    pub settings_json: Option<String>,
}

/// A dashboard as it is shown to callers.
#[derive(Debug, Clone, PartialEq, Eq)]
pub struct DashboardResponse {
    pub id: String,
    pub user_id: String,
    pub name: String,
    pub layout_json: String,
    pub settings_json: String,
    pub created_at: i64,
    pub updated_at: i64,
}

impl Dashboard {
    /// The caller-facing view of this dashboard.
    pub fn to_response(&self) -> (r: DashboardResponse)
        ensures
            r.id@ == self.id@,
            r.user_id@ == self.user_id@,
            r.name@ == self.name@,
            r.layout_json@ == self.layout_json@,
            r.settings_json@ == self.settings_json@,
            r.created_at == self.created_at,
            r.updated_at == self.updated_at,
    {
        DashboardResponse {
            id: self.id.clone(),
            user_id: self.user_id.clone(),
            name: self.name.clone(),
            layout_json: self.layout_json.clone(),
            settings_json: self.settings_json.clone(),
            created_at: self.created_at,
            updated_at: self.updated_at,
        }
    }
}

} // verus!
