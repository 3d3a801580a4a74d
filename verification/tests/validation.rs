//! Request-body validation and record shaping.

use session_auth::model::{
    apply_update, new_user_record, restore_record, soft_delete_record, CreateUserRequest,
    LoginRequest, UpdateUserRequest, UserInfo,
};
use session_auth::errors::ApiError;
use session_auth::roles::{UserRole, UserStatus};

fn create_request() -> CreateUserRequest {
    CreateUserRequest {
        account_id: 11,
        branch_id: Some(2),
        name: Some("Ada".to_string()),
        email: "a@x.com".to_string(),
        password: "longenough1".to_string(),
        role: "CUSTOMER".to_string(),
    }
}

#[test]
fn well_formed_create_request_passes() {
    assert!(create_request().validate().is_ok());
}

#[test]
fn create_request_name_bounds_are_checked_first() {
    let mut request = create_request();
    request.name = Some("".to_string());
    request.email = "also-bad".to_string();
    match request.validate().unwrap_err() {
        ApiError::InvalidInput(m) => {
            assert_eq!(m, "Name must be between 1 and 100 characters")
        },
        _ => panic!("unexpected error kind"),
    }
    let mut request = create_request();
    request.name = Some("x".repeat(101));
    assert!(request.validate().is_err());
    request.name = Some("x".repeat(100));
    assert!(request.validate().is_ok());
    request.name = None;
    assert!(request.validate().is_ok());
}

#[test]
fn create_request_email_and_password_are_checked() {
    let mut request = create_request();
    request.email = "missing-at-sign".to_string();
    match request.validate().unwrap_err() {
        ApiError::InvalidInput(m) => assert_eq!(m, "Invalid email format"),
        _ => panic!("unexpected error kind"),
    }
    let mut request = create_request();
    request.password = "1234567".to_string();
    assert!(request.validate().is_err());
    request.password = "12345678".to_string();
    assert!(request.validate().is_ok());
    request.password = "p".repeat(101);
    assert!(request.validate().is_err());
}

#[test]
fn update_request_checks_only_present_fields() {
    let empty = UpdateUserRequest {
        branch_id: None,
        name: None,
        email: None,
        password: None,
        role: None,
        status: None,
    };
    assert!(empty.validate().is_ok());
    let bad_email = UpdateUserRequest {
        branch_id: None,
        name: None,
        email: Some("nope".to_string()),
        password: None,
        role: None,
        status: None,
    };
    match bad_email.validate().unwrap_err() {
        ApiError::InvalidInput(m) => assert_eq!(m, "Invalid email format"),
        _ => panic!("unexpected error kind"),
    }
}

#[test]
fn login_request_requires_email_then_password() {
    let ok = LoginRequest { email: "a@x.com".to_string(), password: "p".to_string() };
    assert!(ok.validate().is_ok());
    let bad = LoginRequest { email: "ax.com".to_string(), password: "".to_string() };
    match bad.validate().unwrap_err() {
        ApiError::InvalidInput(m) => assert_eq!(m, "Invalid email format"),
        _ => panic!("unexpected error kind"),
    }
    let empty_pw = LoginRequest { email: "a@x.com".to_string(), password: "".to_string() };
    match empty_pw.validate().unwrap_err() {
        ApiError::InvalidInput(m) => assert_eq!(m, "Password is required"),
        _ => panic!("unexpected error kind"),
    }
}

#[test]
fn shaping_marks_and_clears_soft_deletion() {
    let user = new_user_record(&create_request(), UserRole::Customer, "$hash".to_string(), 7, 100);
    assert!(user.deleted_at.is_none());
    let gone = soft_delete_record(&user, 200);
    assert_eq!(gone.deleted_at, Some(200));
    assert_eq!(gone.updated_at, 200);
    assert_eq!(gone.created_at, 100);
    assert_eq!(gone.email, "a@x.com");
    let back = restore_record(&gone, 300);
    assert!(back.deleted_at.is_none());
    assert_eq!(back.updated_at, 300);
}

#[test]
fn apply_update_keeps_absent_fields() {
    let user = new_user_record(&create_request(), UserRole::Customer, "$hash".to_string(), 7, 100);
    let change = UpdateUserRequest {
        branch_id: None,
        name: None,
        email: Some("new@x.com".to_string()),
        password: None,
        role: None,
        status: None,
    };
    let updated = apply_update(&user, &change, None, 150);
    assert_eq!(updated.email, "new@x.com");
    assert_eq!(updated.name, Some("Ada".to_string()));
    assert_eq!(updated.password_hash, Some("$hash".to_string()));
    assert_eq!(updated.updated_at, 150);
    let info = UserInfo::from(updated);
    assert_eq!(info.email, "new@x.com");
    assert_eq!(info.status, UserStatus::Active);
}
