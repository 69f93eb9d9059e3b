use simple_api_demo::error::AppError;

#[test]
fn test_app_error_creation() {
    let config_error = AppError::config("Invalid port");
    assert!(matches!(config_error, AppError::Config { .. }));

    let server_error = AppError::server("Failed to bind");
    assert!(matches!(server_error, AppError::Server { .. }));

    let env_error = AppError::environment("PORT", "Not a number");
    assert!(matches!(env_error, AppError::Environment { .. }));
}

#[test]
fn test_error_status_codes() {
    let config_error = AppError::config("test");
    assert_eq!(
        config_error.status_code(),
        actix_web::http::StatusCode::INTERNAL_SERVER_ERROR.as_u16()
    );

    let validation_error = AppError::validation("test");
    assert_eq!(
        validation_error.status_code(),
        actix_web::http::StatusCode::BAD_REQUEST.as_u16()
    );
}

#[test]
fn test_error_types() {
    let config_error = AppError::config("test");
    assert_eq!(config_error.error_type(), "configuration_error");

    let validation_error = AppError::validation("test");
    assert_eq!(validation_error.error_type(), "validation_error");
}

#[test]
fn every_kind_has_its_identifier_and_status() {
    let cases = vec![
        (AppError::config("m"), "configuration_error", 500),
        (AppError::server("m"), "server_error", 500),
        (AppError::environment("V", "m"), "environment_error", 500),
        (AppError::internal("m"), "internal_error", 500),
        (AppError::validation("m"), "validation_error", 400),
    ];
    for (error, kind, status) in cases {
        assert_eq!(error.error_type(), kind);
        assert_eq!(error.status_code(), status);
    }
}

#[test]
fn every_kind_has_its_display_string() {
    assert_eq!(AppError::config("Invalid port").to_string(), "Configuration error: Invalid port");
    assert_eq!(AppError::server("Failed to bind").to_string(), "Server error: Failed to bind");
    assert_eq!(
        AppError::environment("PORT", "Not a number").to_string(),
        "Environment variable error: PORT - Not a number"
    );
    assert_eq!(AppError::internal("boom").to_string(), "Internal server error: boom");
    assert_eq!(AppError::validation("bad").to_string(), "Validation error: bad");
    assert_eq!(AppError::internal("").to_string(), "Internal server error: ");
}

#[test]
fn constructors_keep_their_arguments() {
    match AppError::environment("PORT_APP", "Not a number") {
        AppError::Environment { var_name, message } => {
            assert_eq!(var_name, "PORT_APP");
            assert_eq!(message, "Not a number");
        }
        other => panic!("unexpected error: {:?}", other),
    }
    match AppError::validation("too long") {
        AppError::Validation { message } => assert_eq!(message, "too long"),
        other => panic!("unexpected error: {:?}", other),
    }
}

#[test]
fn error_response_at_carries_kind_message_and_stamp() {
    let error = AppError::validation("name is empty");
    let response = error.error_response_at("2024-01-02T03:04:05+00:00".to_string());
    assert_eq!(response.status, 400);
    assert_eq!(response.body.error_type, "validation_error");
    assert_eq!(response.body.message, "Validation error: name is empty");
    assert_eq!(response.body.timestamp, "2024-01-02T03:04:05+00:00");

    let response = AppError::server("down").error_response_at(String::new());
    assert_eq!(response.status, 500);
    assert_eq!(response.body.error_type, "server_error");
    assert_eq!(response.body.message, "Server error: down");
}

#[test]
fn error_response_is_stamped_with_the_current_time() {
    let before = chrono::Utc::now();
    let response = AppError::internal("boom").error_response();
    let after = chrono::Utc::now();
    assert_eq!(response.status, 500);
    assert_eq!(response.body.error_type, "internal_error");
    assert_eq!(response.body.message, "Internal server error: boom");
    let stamp = chrono::DateTime::parse_from_rfc3339(&response.body.timestamp).unwrap();
    assert_eq!(stamp.offset().local_minus_utc(), 0);
    assert!(before <= stamp && stamp <= after);
}

#[test]
fn error_body_has_type_message_and_timestamp() {
    let response = AppError::config("bad").error_response_at("T".to_string());
    let members: Vec<(String, String)> =
        response.body.fields().into_iter().map(|f| (f.name, f.value)).collect();
    assert_eq!(
        members,
        vec![
            ("type".to_string(), "configuration_error".to_string()),
            ("message".to_string(), "Configuration error: bad".to_string()),
            ("timestamp".to_string(), "T".to_string()),
        ]
    );
    assert_eq!(simple_api_demo::error::ERROR_KEY, "error");
}
