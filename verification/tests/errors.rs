use onepassword_sdk::errors::{
    classify_core_error, invalid_utf8_error, try_unmarshal_error, unmarshal_core_error,
    unmarshal_error, CoreError,
};
use onepassword_sdk::SdkError;

/// Reads a core error object from JSON text, as the client does before it
/// classifies an error.
fn read_core_error(text: &str) -> Option<CoreError> {
    let value: serde_json::Value = serde_json::from_str(text).ok()?;
    let name = value.get("name")?.as_str()?.to_string();
    let message = value.get("message")?.as_str()?.to_string();
    Some(CoreError { name, message })
}

fn unmarshal(text: &str) -> SdkError {
    unmarshal_error(text, read_core_error(text))
}

fn unmarshal_transport(err: SdkError) -> SdkError {
    let parsed = match &err {
        SdkError::Plugin(m) | SdkError::SharedLib(m) => read_core_error(m),
        _ => None,
    };
    unmarshal_core_error(err, parsed)
}

#[test]
fn unmarshal_core_json_error() {
    let err = unmarshal(r#"{"name":"SomeError","message":"something broke"}"#);
    match err {
        SdkError::Core { name, message } => {
            assert_eq!(name, "SomeError");
            assert_eq!(message, "something broke");
        }
        _ => panic!("expected Core error"),
    }
}

#[test]
fn unmarshal_session_expired() {
    let err = unmarshal(r#"{"name":"DesktopSessionExpired","message":"session gone"}"#);
    assert!(matches!(err, SdkError::DesktopSessionExpired(_)));
}

#[test]
fn unmarshal_rate_limit() {
    let err = unmarshal(r#"{"name":"RateLimitExceeded","message":"slow down"}"#);
    assert!(matches!(err, SdkError::RateLimitExceeded(_)));
}

#[test]
fn unmarshal_invalid_json() {
    let err = unmarshal("not json at all");
    match err {
        SdkError::Core { message, .. } => assert_eq!(message, "not json at all"),
        _ => panic!("expected Core error for invalid JSON"),
    }
}

#[test]
fn unmarshal_core_error_preserves_non_json_shared_lib_error() {
    let err = unmarshal_transport(SdkError::SharedLib("connection dropped".to_string()));
    match err {
        SdkError::SharedLib(message) => assert_eq!(message, "connection dropped"),
        _ => panic!("expected SharedLib error"),
    }
}

#[test]
fn unmarshal_core_error_maps_json_shared_lib_error() {
    let err = unmarshal_transport(SdkError::SharedLib(
        r#"{"name":"RateLimitExceeded","message":"slow down"}"#.to_string(),
    ));
    assert!(matches!(err, SdkError::RateLimitExceeded(_)));
}

#[test]
fn unmarshal_invalid_json_is_named_unknown() {
    match unmarshal("not json at all") {
        SdkError::Core { name, .. } => assert_eq!(name, "Unknown"),
        _ => panic!("expected Core error"),
    }
}

#[test]
fn session_expiry_keeps_its_message() {
    match unmarshal(r#"{"name":"DesktopSessionExpired","message":"session gone"}"#) {
        SdkError::DesktopSessionExpired(m) => assert_eq!(m, "session gone"),
        _ => panic!("expected DesktopSessionExpired"),
    }
}

#[test]
fn plugin_error_without_json_becomes_unknown_core_error() {
    match unmarshal_transport(SdkError::Plugin("trap".to_string())) {
        SdkError::Core { name, message } => {
            assert_eq!(name, "Unknown");
            assert_eq!(message, "trap");
        }
        _ => panic!("expected Core error"),
    }
}

#[test]
fn plugin_error_with_json_is_classified() {
    let err = unmarshal_transport(SdkError::Plugin(
        r#"{"name":"DesktopSessionExpired","message":"expired"}"#.to_string(),
    ));
    assert!(matches!(err, SdkError::DesktopSessionExpired(m) if m == "expired"));
}

#[test]
fn other_errors_pass_through_unmarshal() {
    let err = unmarshal_transport(SdkError::Config("bad config".to_string()));
    assert!(matches!(err, SdkError::Config(m) if m == "bad config"));
    // Even when a parsed error is offered, a configuration error is kept.
    let offered = Some(CoreError {
        name: "RateLimitExceeded".to_string(),
        message: "x".to_string(),
    });
    let err = unmarshal_core_error(SdkError::Config("c".to_string()), offered);
    assert!(matches!(err, SdkError::Config(m) if m == "c"));
}

#[test]
fn unmarshal_twice_gives_the_same_error() {
    let text = r#"{"name":"SomeError","message":"m"}"#;
    let once = unmarshal_transport(SdkError::SharedLib(text.to_string()));
    let twice = unmarshal_core_error(once, read_core_error(text));
    match twice {
        SdkError::Core { name, message } => {
            assert_eq!(name, "SomeError");
            assert_eq!(message, "m");
        }
        _ => panic!("expected Core error"),
    }
}

#[test]
fn try_unmarshal_error_is_none_without_a_core_error() {
    assert!(try_unmarshal_error(None).is_none());
    let some = try_unmarshal_error(Some(CoreError {
        name: "X".to_string(),
        message: "y".to_string(),
    }));
    assert!(matches!(some, Some(SdkError::Core { name, .. }) if name == "X"));
}

#[test]
fn classify_keeps_unrecognised_names() {
    let err = classify_core_error(CoreError {
        name: "ItemNotFound".to_string(),
        message: "no item".to_string(),
    });
    assert!(matches!(err, SdkError::Core { name, message } if name == "ItemNotFound" && message == "no item"));
}

#[test]
fn invalid_utf8_error_describes_the_failure() {
    let utf8_err = String::from_utf8(vec![0xff]).unwrap_err();
    match invalid_utf8_error(&utf8_err.to_string()) {
        SdkError::Core { name, message } => {
            assert_eq!(name, "InvalidUtf8");
            assert!(message.starts_with("core response was not valid UTF-8: "));
            assert!(message.len() > "core response was not valid UTF-8: ".len());
            assert_eq!(message, format!("core response was not valid UTF-8: {utf8_err}"));
        }
        _ => panic!("expected Core error"),
    }
}

#[test]
fn display_texts_follow_the_error_kind() {
    let core = SdkError::Core { name: "N".to_string(), message: "broken".to_string() };
    assert_eq!(core.display_text(), "1Password SDK error: broken");
    assert_eq!(SdkError::Plugin("p".to_string()).display_text(), "WASM plugin error: p");
    assert_eq!(SdkError::Config("c".to_string()).display_text(), "configuration error: c");
    assert_eq!(
        SdkError::DesktopSessionExpired("d".to_string()).display_text(),
        "desktop session expired: d"
    );
    assert_eq!(
        SdkError::RateLimitExceeded("r".to_string()).display_text(),
        "rate limit exceeded: r"
    );
    assert_eq!(SdkError::SharedLib("s".to_string()).display_text(), "shared library error: s");
    let json_err = serde_json::from_str::<u64>("x").unwrap_err();
    let text = SdkError::Serialization(json_err).display_text();
    assert!(text.starts_with("serialization error: "));
    assert!(text.len() > "serialization error: ".len());
}
