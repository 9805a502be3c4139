use llm_core::validation::{validate_chat_request, validate_conversation_id, validate_tts_request, ApiError};

#[test]
fn validation_test_validate_tts_request_valid() {
    assert!(validate_tts_request("Hello", Some("de_DE")).is_ok());
    assert!(validate_tts_request("Test", None).is_ok());
}

#[test]
fn validation_test_validate_tts_request_empty_text() {
    let result = validate_tts_request("", Some("de_DE"));
    assert!(result.is_err());
    if let Err(ApiError::InvalidInput(msg)) = result {
        assert!(msg.contains("empty"));
    }
}

#[test]
fn validation_test_validate_tts_request_too_long() {
    let long_text = "a".repeat(6000);
    let result = validate_tts_request(&long_text, Some("de_DE"));
    assert!(result.is_err());
    if let Err(ApiError::InvalidInput(msg)) = result {
        assert!(msg.contains("too long"));
    }
}

#[test]
fn validation_test_validate_tts_request_invalid_language_code() {
    let result = validate_tts_request("Hello", Some("invalid"));
    assert!(result.is_err());

    let result = validate_tts_request("Hello", Some("INVALID"));
    assert!(result.is_err());

    let result = validate_tts_request("Hello", Some("en"));
    assert!(result.is_ok());

    let result = validate_tts_request("Hello", Some("en_US"));
    assert!(result.is_ok());
}

#[test]
fn validation_test_validate_chat_request_valid() {
    assert!(validate_chat_request("Hello").is_ok());
}

#[test]
fn validation_test_validate_chat_request_empty() {
    let result = validate_chat_request("");
    assert!(result.is_err());
}

#[test]
fn validation_test_validate_chat_request_too_long() {
    let long_message = "a".repeat(11000);
    let result = validate_chat_request(&long_message);
    assert!(result.is_err());
}

#[test]
fn validation_test_validate_conversation_id_valid() {
    let valid_uuid = uuid::Uuid::new_v4().to_string();
    assert!(validate_conversation_id(&valid_uuid).is_ok());
}

#[test]
fn validation_test_validate_conversation_id_invalid() {
    assert!(validate_conversation_id("invalid-uuid").is_err());
    assert!(validate_conversation_id("").is_err());
}

fn message_of(r: Result<(), ApiError>) -> String {
    match r {
        Err(ApiError::InvalidInput(m)) => m,
        Ok(()) => panic!("expected an error"),
    }
}

#[test]
fn tts_error_messages_are_exact() {
    assert_eq!(message_of(validate_tts_request("", None)), "Text cannot be empty");
    assert_eq!(
        message_of(validate_tts_request(&"a".repeat(5001), None)),
        "Text too long (max 5000 characters)"
    );
    assert_eq!(
        message_of(validate_tts_request("Hi", Some("en_us"))),
        "Invalid language code format: en_us. Expected format: ll_CC (e.g., en_US, de_DE)"
    );
}

#[test]
fn tts_length_limit_counts_bytes() {
    assert!(validate_tts_request(&"a".repeat(5000), None).is_ok());
    assert!(validate_tts_request(&"é".repeat(2501), None).is_err());
}

#[test]
fn language_code_shapes() {
    for ok in ["en", "de_DE", "zz_AA"] {
        assert!(validate_tts_request("x", Some(ok)).is_ok(), "{}", ok);
    }
    for bad in ["", "e", "eng", "en_", "en_U", "en-US", "En_US", "en_Us", "en_US_x", "é_US"] {
        assert!(validate_tts_request("x", Some(bad)).is_err(), "{}", bad);
    }
}

#[test]
fn chat_request_limits_and_messages() {
    assert!(validate_chat_request(&"a".repeat(10000)).is_ok());
    assert_eq!(message_of(validate_chat_request("")), "Message cannot be empty");
    assert_eq!(
        message_of(validate_chat_request(&"a".repeat(10001))),
        "Message too long (max 10000 characters)"
    );
}

#[test]
fn conversation_id_formats() {
    assert!(validate_conversation_id("550e8400-e29b-41d4-a716-446655440000").is_ok());
    assert!(validate_conversation_id("550e8400e29b41d4a716446655440000").is_ok());
    assert_eq!(
        message_of(validate_conversation_id("")),
        "Conversation ID cannot be empty"
    );
    assert_eq!(
        message_of(validate_conversation_id("550e8400-e29b-41d4-a716-44665544000g")),
        "Invalid conversation ID format. Expected UUID"
    );
}
