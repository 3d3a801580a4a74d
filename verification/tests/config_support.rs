//! Configuration building, address and URL formatting, parsing
//! fallbacks, role and status names, error mapping, and the health
//! report.

use session_auth::config::{Config, ConfigSources};
use session_auth::errors::ApiError;
use session_auth::health::HealthResponse;
use session_auth::roles::{is_valid_role, UserRole, UserStatus};
use session_auth::session::{parse_same_site, SameSitePolicy};
use session_auth::text::{parse_i64_or, parse_u16_or, parse_u64, u64_to_string};

fn empty_sources() -> ConfigSources {
    ConfigSources {
        host: None,
        port: None,
        database_host: None,
        database_port: None,
        database_name: None,
        database_user: None,
        database_password: None,
        database_max_connections: None,
        database_min_connections: None,
        database_acquire_timeout: None,
        database_idle_timeout: None,
        log_level: None,
        session_secret: None,
        redis_url: None,
        session_cookie_name: None,
        session_cookie_domain: None,
        session_cookie_secure: None,
        session_cookie_same_site: None,
        session_max_age_seconds: None,
    }
}

#[test]
fn defaults_apply_when_nothing_is_set() {
    let config = Config::from_sources(empty_sources());
    assert_eq!(config.server.host, "0.0.0.0");
    assert_eq!(config.server.port, 3000);
    assert_eq!(config.database.port, 5432);
    assert_eq!(config.database.max_connections, 10);
    assert_eq!(config.database.min_connections, 1);
    assert_eq!(config.database.acquire_timeout_seconds, 30);
    assert_eq!(config.database.idle_timeout_seconds, 600);
    assert_eq!(config.logging.level, "info");
    assert_eq!(config.session.cookie_name, "connect.sid");
    assert!(!config.session.cookie_secure);
    assert_eq!(config.session.cookie_same_site, "lax");
    assert_eq!(config.session.max_age_seconds, 86400);
}

#[test]
fn set_values_override_and_bad_numbers_fall_back() {
    let mut sources = empty_sources();
    sources.port = Some("8080".to_string());
    sources.database_port = Some("not a number".to_string());
    sources.session_cookie_secure = Some("true".to_string());
    sources.session_max_age_seconds = Some("3600".to_string());
    let config = Config::from_sources(sources);
    assert_eq!(config.server.port, 8080);
    assert_eq!(config.database.port, 5432);
    assert!(config.session.cookie_secure);
    assert_eq!(config.session.max_age_seconds, 3600);
}

#[test]
fn server_address_joins_host_and_port() {
    let mut sources = empty_sources();
    sources.host = Some("127.0.0.1".to_string());
    sources.port = Some("8080".to_string());
    let config = Config::from_sources(sources);
    assert_eq!(config.server_address(), "127.0.0.1:8080");
}

#[test]
fn database_url_is_assembled_from_parts() {
    let mut sources = empty_sources();
    sources.database_host = Some("db.internal".to_string());
    sources.database_port = Some("5433".to_string());
    sources.database_name = Some("accounts".to_string());
    sources.database_user = Some("svc".to_string());
    sources.database_password = Some("pw".to_string());
    let config = Config::from_sources(sources);
    assert_eq!(config.database.url(), "postgres://svc:pw@db.internal:5433/accounts");
}

#[test]
fn decimal_rendering_and_parsing() {
    assert_eq!(u64_to_string(0), "0");
    assert_eq!(u64_to_string(86400), "86400");
    assert_eq!(u64_to_string(u64::MAX), "18446744073709551615");
    assert_eq!(parse_u64("86400"), Some(86400));
    assert_eq!(parse_u64("18446744073709551615"), Some(u64::MAX));
    assert_eq!(parse_u64("18446744073709551616"), None);
    assert_eq!(parse_u64(""), None);
    assert_eq!(parse_u64("12a"), None);
    assert_eq!(parse_u16_or("70000", 3000), 3000);
    assert_eq!(parse_i64_or("-600", 0), -600);
    assert_eq!(parse_i64_or("x", 86400), 86400);
}

#[test]
fn same_site_parsing_is_case_insensitive_with_lax_fallback() {
    assert_eq!(parse_same_site("Strict"), SameSitePolicy::Strict);
    assert_eq!(parse_same_site("LAX"), SameSitePolicy::Lax);
    assert_eq!(parse_same_site("none"), SameSitePolicy::CrossSite);
    assert_eq!(parse_same_site("NONE"), SameSitePolicy::CrossSite);
    assert_eq!(parse_same_site("anything else"), SameSitePolicy::Lax);
    assert_eq!(parse_same_site(""), SameSitePolicy::Lax);
}

#[test]
fn role_names_round_trip_and_unknowns_are_invalid() {
    assert_eq!(UserRole::Manager.name(), "MANAGER");
    assert_eq!(UserRole::CashRegister.name(), "CASH_REGISTER");
    assert_eq!(UserRole::from_name("GENERAL_MANAGER"), Some(UserRole::GeneralManager));
    assert_eq!(UserRole::from_name("general_manager"), None);
    assert!(is_valid_role("WAITER"));
    assert!(is_valid_role("BARMAN"));
    assert!(!is_valid_role("SUPERVISOR"));
    assert_eq!(UserStatus::Active.name(), "ACTIVE");
    assert_eq!(UserStatus::from_name("INACTIVE"), Some(UserStatus::Inactive));
    assert_eq!(UserStatus::from_name("DISABLED"), None);
}

#[test]
fn errors_map_to_documented_statuses_and_mask_backend_detail() {
    assert_eq!(ApiError::UserNotFound.status_code(), 404);
    assert_eq!(ApiError::InvalidInput("bad".to_string()).status_code(), 400);
    assert_eq!(ApiError::UserAlreadyExists.status_code(), 409);
    assert_eq!(ApiError::Unauthorized("no".to_string()).status_code(), 401);
    assert_eq!(ApiError::InvalidCredentials.status_code(), 401);
    assert_eq!(ApiError::InternalServerError.status_code(), 500);
    let db = ApiError::DatabaseError("connection refused at 10.0.0.3".to_string());
    assert_eq!(db.status_code(), 500);
    assert_eq!(db.client_message(), "Internal server error");
    assert_eq!(ApiError::InvalidCredentials.client_message(), "Invalid credentials");
}

#[test]
fn health_report_is_healthy_at_given_uptime() {
    let health = HealthResponse::new(12);
    assert_eq!(health.status, "healthy");
    assert_eq!(health.version, "0.1.0");
    assert_eq!(health.uptime, 12);
}
