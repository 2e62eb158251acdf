use insightboard::error::AppError;
use insightboard::handlers::{
    check_login_request, check_registration, delete_outcome, login_decision,
    merge_dashboard_update, validate_dashboard_name,
};
use insightboard::models::{
    Dashboard, LoginRequest, RegisterRequest, UpdateDashboardRequest, User,
};

fn register_request(email: &str, password: &str) -> RegisterRequest {
    RegisterRequest { email: email.to_string(), password: password.to_string() }
}

#[test]
fn registration_requires_email_and_password() {
    let missing = AppError::Validation("Email and password are required".to_string());
    assert_eq!(check_registration(&register_request("", "password123"), false).unwrap_err(), missing);
    assert_eq!(check_registration(&register_request("a@b.com", ""), false).unwrap_err(), missing);
    let e = check_registration(&register_request("", ""), false).unwrap_err();
    assert_eq!(e.status_code(), 400);
}

#[test]
fn registration_requires_eight_byte_password() {
    let e = check_registration(&register_request("a@b.com", "1234567"), false).unwrap_err();
    assert_eq!(e, AppError::Validation("Password must be at least 8 characters".to_string()));
    assert!(check_registration(&register_request("a@b.com", "12345678"), false).is_ok());
}

#[test]
fn registration_rejects_taken_email() {
    let e = check_registration(&register_request("a@b.com", "password123"), true).unwrap_err();
    assert_eq!(e, AppError::Validation("Email already registered".to_string()));
    assert!(check_registration(&register_request("a@b.com", "password123"), false).is_ok());
}

#[test]
fn login_request_requires_both_fields() {
    let ok = LoginRequest { email: "a@b.com".to_string(), password: "pw".to_string() };
    assert!(check_login_request(&ok).is_ok());
    let missing = LoginRequest { email: String::new(), password: "pw".to_string() };
    assert_eq!(
        check_login_request(&missing).unwrap_err(),
        AppError::Validation("Email and password are required".to_string())
    );
}

#[test]
fn login_failures_are_uniform() {
    let invalid = AppError::Auth("Invalid credentials".to_string());
    assert_eq!(login_decision(false, false).unwrap_err(), invalid);
    assert_eq!(login_decision(false, true).unwrap_err(), invalid);
    assert_eq!(login_decision(true, false).unwrap_err(), invalid);
    assert!(login_decision(true, true).is_ok());
}

#[test]
fn dashboard_name_must_not_be_blank() {
    let required = AppError::Validation("Dashboard name is required".to_string());
    assert_eq!(validate_dashboard_name("").unwrap_err(), required);
    assert_eq!(validate_dashboard_name("  \t ").unwrap_err(), required);
    assert!(validate_dashboard_name(" Home ").is_ok());
}

fn stored_dashboard() -> Dashboard {
    Dashboard {
        id: "d1".to_string(),
        user_id: "u1".to_string(),
        name: "Home".to_string(),
        layout_json: "{}".to_string(),
        settings_json: "{\"theme\":\"dark\"}".to_string(),
        created_at: 100,
        updated_at: 200,
    }
}

#[test]
fn update_keeps_absent_fields() {
    let update = UpdateDashboardRequest { name: None, layout_json: None, settings_json: None };
    let (name, layout, settings) = merge_dashboard_update(&stored_dashboard(), update);
    assert_eq!(name, "Home");
    assert_eq!(layout, "{}");
    assert_eq!(settings, "{\"theme\":\"dark\"}");
}

#[test]
fn update_takes_present_fields() {
    let update = UpdateDashboardRequest {
        name: Some("Work".to_string()),
        layout_json: Some("{\"cols\":2}".to_string()),
        settings_json: None,
    };
    let (name, layout, settings) = merge_dashboard_update(&stored_dashboard(), update);
    assert_eq!(name, "Work");
    assert_eq!(layout, "{\"cols\":2}");
    assert_eq!(settings, "{\"theme\":\"dark\"}");
}

#[test]
fn delete_of_nothing_is_not_found() {
    let e = delete_outcome(0).unwrap_err();
    assert_eq!(e, AppError::NotFound("Dashboard not found".to_string()));
    assert_eq!(e.status_code(), 404);
    assert!(delete_outcome(1).is_ok());
}

#[test]
fn user_response_drops_password_hash() {
    let user = User {
        id: "u1".to_string(),
        email: "a@b.com".to_string(),
        password_hash: "not-shown".to_string(),
        created_at: 100,
    };
    let resp = user.to_response();
    assert_eq!(resp.id, "u1");
    assert_eq!(resp.email, "a@b.com");
    assert_eq!(resp.created_at, 100);
}

#[test]
fn dashboard_response_mirrors_dashboard() {
    let d = stored_dashboard();
    let r = d.to_response();
    assert_eq!(r.id, d.id);
    assert_eq!(r.user_id, d.user_id);
    assert_eq!(r.name, d.name);
    assert_eq!(r.layout_json, d.layout_json);
    assert_eq!(r.settings_json, d.settings_json);
}

#[test]
fn error_statuses_and_messages() {
    let cases: Vec<(AppError, u16, &str)> = vec![
        (AppError::Database("boom".to_string()), 500, "Database error occurred"),
        (AppError::Redis("down".to_string()), 500, "Cache error occurred"),
        (AppError::Auth("Invalid token".to_string()), 401, "Invalid token"),
        (AppError::Validation("bad".to_string()), 400, "bad"),
        (AppError::NotFound("gone".to_string()), 404, "gone"),
        (AppError::Unauthorized, 401, "Unauthorized"),
        (AppError::Forbidden, 403, "Forbidden"),
        (AppError::ExternalApi("503".to_string()), 502, "External service error"),
        (AppError::Internal("oops".to_string()), 500, "Internal server error"),
    ];
    for (e, status, message) in cases {
        assert_eq!(e.status_code(), status);
        assert_eq!(e.client_message(), message);
    }
}
