use axtra::errors::ErrorCode;
use axtra::{health_report, LogLevel, NotifierKind};

const ALL: [ErrorCode; 7] = [
    ErrorCode::Authentication,
    ErrorCode::Authorization,
    ErrorCode::BadRequest,
    ErrorCode::Database,
    ErrorCode::Exception,
    ErrorCode::NotFound,
    ErrorCode::Validation,
];

#[test]
fn status_codes_of_errors() {
    let got: Vec<u16> = ALL.iter().map(|c| c.status_code()).collect();
    assert_eq!(got, vec![401, 403, 400, 500, 500, 404, 400]);
}

#[test]
fn severities_of_errors() {
    let got: Vec<LogLevel> = ALL.iter().map(|c| c.severity()).collect();
    assert_eq!(got, vec![
            LogLevel::Info,
            LogLevel::Info,
            LogLevel::Warn,
            LogLevel::Error,
            LogLevel::Error,
            LogLevel::Warn,
            LogLevel::Warn,
        ]);
    let critical: Vec<bool> = ALL.iter().map(|c| c.is_critical()).collect();
    assert_eq!(critical, vec![false, false, false, true, true, false, false]);
}

#[test]
fn user_messages_of_errors() {
    assert_eq!(ErrorCode::BadRequest.user_message("Invalid data"), "Invalid data");
    assert_eq!(
        ErrorCode::Authentication.user_message("x"),
        "Authentication is required to access this resource."
    );
    assert_eq!(
        ErrorCode::Authorization.user_message("x"),
        "You are not authorized to perform this action."
    );
    assert_eq!(ErrorCode::Database.user_message("x"), "A database error occurred.");
    assert_eq!(ErrorCode::Exception.user_message("x"), "An internal server error occurred.");
    assert_eq!(ErrorCode::NotFound.user_message("x"), "The requested resource was not found.");
    assert_eq!(
        ErrorCode::Validation.user_message("x"),
        "There was a validation error with your request."
    );
}

#[test]
fn error_pages() {
    assert_eq!(ErrorCode::NotFound.error_page(), "dist/404.html");
    assert_eq!(ErrorCode::Exception.error_page(), "dist/500.html");
    assert_eq!(ErrorCode::BadRequest.error_page(), "dist/500.html");
}

#[test]
fn health_reports() {
    let ok = health_report(true, "2024-01-01T00:00:00Z".to_string());
    match ok {
        Ok(h) => {
            assert_eq!(h.status, "healthy");
            assert!(h.postgres);
            assert_eq!(h.timestamp, "2024-01-01T00:00:00Z");
        }
        Err(_) => panic!("expected a report"),
    }
    assert!(matches!(health_report(false, String::new()), Err(503)));
}

#[test]
fn notifier_payload_fields() {
    assert_eq!(NotifierKind::Slack.text_field(), "text");
    assert_eq!(NotifierKind::Discord.text_field(), "content");
    assert_eq!(NotifierKind::Slack.rich_field(), "blocks");
    assert_eq!(NotifierKind::Discord.rich_field(), "embeds");
}

#[test]
fn response_keys_of_single_values_and_lists() {
    assert_eq!(axtra::wrapping_key("user", false), "user");
    assert_eq!(axtra::wrapping_key("user", true), "users");
    assert_eq!(axtra::wrapping_key("category", true), "categories");
}

#[test]
fn cache_headers_of_static_files() {
    assert_eq!(axtra::cache_control_for("/_astro/app.js"), Some("public, max-age=2628000"));
    assert_eq!(axtra::cache_control_for("/_static/logo.png"), Some("public, max-age=31536000"));
    assert_eq!(axtra::cache_control_for("/_static/_astro/x.css"), Some("public, max-age=2628000"));
    assert_eq!(axtra::cache_control_for("/index.html"), None);
    assert_eq!(axtra::cache_control_for("/_static"), None);
}
