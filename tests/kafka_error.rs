use rust_common::kafka::error::{Error, KafkaError};
use rust_common::kafka::error_codes;
use rust_common::kafka::json::JsonValue;

#[test]
fn test_internal_server_error() {
    let error = KafkaError::InternalServerError("Database connection failed".to_string());

    assert_eq!(
        error.to_string(),
        "Internal Server Error: Database connection failed"
    );

    let response = error.to_response();
    assert!(response.status.is_some());
    let status = response.status.unwrap();
    assert_eq!(status.code, error_codes::INTERNAL_SERVER_ERROR);
    assert_eq!(
        status.message,
        "Internal Server Error: Database connection failed"
    );
    assert!(status.data.is_none());
    assert!(response.data.is_none());
}

#[test]
fn test_uri_not_found_error() {
    let error = KafkaError::UriNotFound("/api/users/123".to_string());

    assert_eq!(error.to_string(), "Uri not found: /api/users/123");

    let response = error.to_response();
    assert!(response.status.is_some());
    let status = response.status.unwrap();
    assert_eq!(status.code, error_codes::URI_NOT_FOUND);
    assert_eq!(status.message, "Uri not found: /api/users/123");
    assert!(status.data.is_none());
    assert!(response.data.is_none());
}

#[test]
fn test_serialization_error() {
    let error = KafkaError::SerializationError("Invalid JSON format".to_string());

    assert_eq!(
        error.to_string(),
        "Serialization Error: Invalid JSON format"
    );

    let response = error.to_response();
    assert!(response.status.is_some());
    let status = response.status.unwrap();
    assert_eq!(status.code, error_codes::VALUE_INVALID);
    assert_eq!(status.message, "Serialization Error: Invalid JSON format");
    assert!(status.data.is_none());
    assert!(response.data.is_none());
}

#[test]
fn test_connection_error() {
    let error = KafkaError::ConnectionError("Kafka broker unreachable".to_string());

    assert_eq!(
        error.to_string(),
        "Connection Error: Kafka broker unreachable"
    );

    let response = error.to_response();
    assert!(response.status.is_some());
    let status = response.status.unwrap();
    assert_eq!(status.code, error_codes::TIMEOUT_ERROR);
    assert_eq!(status.message, "Connection Error: Kafka broker unreachable");
    assert!(status.data.is_none());
    assert!(response.data.is_none());
}

#[test]
fn test_timeout_error() {
    let error = KafkaError::TimeoutError("Request timed out after 30 seconds".to_string());

    assert_eq!(
        error.to_string(),
        "Timeout Error: Request timed out after 30 seconds"
    );

    let response = error.to_response();
    assert!(response.status.is_some());
    let status = response.status.unwrap();
    assert_eq!(status.code, error_codes::TIMEOUT_ERROR);
    assert_eq!(
        status.message,
        "Timeout Error: Request timed out after 30 seconds"
    );
    assert!(status.data.is_none());
    assert!(response.data.is_none());
}

#[test]
fn test_configuration_error() {
    let error = KafkaError::ConfigurationError("Missing bootstrap.servers".to_string());

    assert_eq!(
        error.to_string(),
        "Configuration Error: Missing bootstrap.servers"
    );

    let response = error.to_response();
    assert!(response.status.is_some());
    let status = response.status.unwrap();
    assert_eq!(status.code, error_codes::INVALID_PARAMETER);
    assert_eq!(
        status.message,
        "Configuration Error: Missing bootstrap.servers"
    );
    assert!(status.data.is_none());
    assert!(response.data.is_none());
}

#[test]
fn test_error_codes() {
    assert_eq!(error_codes::INTERNAL_SERVER_ERROR, "INTERNAL_SERVER_ERROR");
    assert_eq!(error_codes::URI_NOT_FOUND, "URI_NOT_FOUND");
    assert_eq!(error_codes::INVALID_PARAMETER, "INVALID_PARAMETER");
    assert_eq!(error_codes::FIELD_REQUIRED, "FIELD_REQUIRED");
    assert_eq!(error_codes::VALUE_INVALID, "VALUE_INVALID");
    assert_eq!(error_codes::TIMEOUT_ERROR, "TIMEOUT_ERROR");
    assert_eq!(error_codes::UNAUTHORIZED, "UNAUTHORIZED");
    assert_eq!(error_codes::OBJECT_NOT_FOUND, "OBJECT_NOT_FOUND");
    assert_eq!(
        error_codes::SECOND_FACTOR_REQUIRED,
        "SECOND_FACTOR_REQUIRED"
    );
}

#[test]
fn test_error_debug() {
    let error = KafkaError::InternalServerError("Test error".to_string());
    let debug_str = format!("{:?}", error);
    assert!(debug_str.contains("InternalServerError"));
    assert!(debug_str.contains("Test error"));
}

#[test]
fn test_error_clone() {
    let error = KafkaError::TimeoutError("Test timeout".to_string());
    let cloned_error = error.to_string();
    assert_eq!(cloned_error, "Timeout Error: Test timeout");
}

#[test]
fn test_all_error_variants() {
    let errors = vec![
        KafkaError::InternalServerError("test".to_string()),
        KafkaError::UriNotFound("test".to_string()),
        KafkaError::SerializationError("test".to_string()),
        KafkaError::ConnectionError("test".to_string()),
        KafkaError::TimeoutError("test".to_string()),
        KafkaError::ConfigurationError("test".to_string()),
    ];

    for error in errors {
        let response = error.to_response();
        assert!(response.status.is_some());
        let status = response.status.unwrap();
        assert!(!status.code.is_empty());
        assert!(!status.message.is_empty());
        assert!(status.data.is_none());
        assert!(response.data.is_none());
    }
}

#[test]
fn error_value_has_status_and_null_data() {
    let value = KafkaError::InternalServerError("boom".to_string()).to_response_value();
    match value {
        JsonValue::Object(fields) => {
            assert_eq!(fields.len(), 2);
            assert_eq!(fields[0].0, "status");
            assert_eq!(fields[1].0, "data");
            assert!(matches!(fields[1].1, JsonValue::Null));
            match &fields[0].1 {
                JsonValue::Object(status) => {
                    assert_eq!(status[0].0, "code");
                    assert!(matches!(&status[0].1, JsonValue::Str(c) if c == "INTERNAL_SERVER_ERROR"));
                    assert_eq!(status[1].0, "message");
                    assert!(matches!(&status[1].1, JsonValue::Str(m) if m == "Internal Server Error: boom"));
                    assert_eq!(status[2].0, "data");
                    assert!(matches!(status[2].1, JsonValue::Null));
                }
                _ => panic!("status is not an object"),
            }
        }
        _ => panic!("error value is not an object"),
    }
}

#[test]
fn error_codes_of_each_variant() {
    assert_eq!(KafkaError::InternalServerError("x".to_string()).code(), "INTERNAL_SERVER_ERROR");
    assert_eq!(KafkaError::UriNotFound("x".to_string()).code(), "URI_NOT_FOUND");
    assert_eq!(KafkaError::SerializationError("x".to_string()).code(), "VALUE_INVALID");
    assert_eq!(KafkaError::ConnectionError("x".to_string()).code(), "TIMEOUT_ERROR");
    assert_eq!(KafkaError::TimeoutError("x".to_string()).code(), "TIMEOUT_ERROR");
    assert_eq!(KafkaError::ConfigurationError("x".to_string()).code(), "INVALID_PARAMETER");
}

#[test]
fn route_error_responses() {
    let e = Error::UriNotFound("/missing".to_string());
    assert_eq!(e.to_string(), "Uri not found: /missing");
    let status = e.to_response().status.unwrap();
    assert_eq!(status.code, "URI_NOT_FOUND");
    assert_eq!(status.message, "Uri not found: /missing");
    let i = Error::InternalServerError("down".to_string());
    assert_eq!(i.to_response().status.unwrap().code, "INTERNAL_SERVER_ERROR");
    assert_eq!(i.to_string(), "Internal Server Error: down");
}

#[test]
fn response_json_matches_error_value() {
    let e = KafkaError::ConfigurationError("no brokers".to_string());
    match e.to_response().into_json() {
        JsonValue::Object(f) => {
            assert_eq!(f[0].0, "status");
            match &f[0].1 {
                JsonValue::Object(st) => {
                    assert!(matches!(&st[0].1, JsonValue::Str(c) if c == "INVALID_PARAMETER"));
                    assert!(matches!(&st[1].1, JsonValue::Str(m) if m == "Configuration Error: no brokers"));
                    assert!(matches!(st[2].1, JsonValue::Null));
                }
                _ => panic!("status is not an object"),
            }
            assert!(matches!(f[1].1, JsonValue::Null));
        }
        _ => panic!("not an object"),
    }
}
