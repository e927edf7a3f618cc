use onepassword_sdk::protocol::{
    check_message_size, client_id_message, decode_client_id, decode_response,
    decode_string_response, json_param, prepare_invoke, string_param, ClientConfig, Invocation,
    InvokeConfig, Parameters, MESSAGE_LIMIT,
};
use onepassword_sdk::encode::json_array;
use onepassword_sdk::wire::{i32_decimal, json_object, json_string, u64_decimal};
use onepassword_sdk::SdkError;

fn default_config() -> ClientConfig {
    ClientConfig::new_default("linux", "x86_64")
}

#[test]
fn default_config_has_correct_language() {
    let config = default_config();
    assert_eq!(config.language, "Rust");
    assert_eq!(config.system_os, "linux");
    assert_eq!(config.system_arch, "x86_64");
}

#[test]
fn default_config_names_an_unknown_integration() {
    let config = default_config();
    assert_eq!(config.sa_token, "");
    assert_eq!(config.sdk_version, "0040101");
    assert_eq!(config.integration_name, "Unknown");
    assert_eq!(config.integration_version, "Unknown");
    assert_eq!(config.request_library_name, "reqwest");
    assert!(config.account_name.is_none());
}

#[test]
fn invoke_config_serializes_correctly() {
    let config = InvokeConfig {
        invocation: Invocation {
            client_id: Some(42),
            parameters: Parameters {
                name: "SecretsResolve".to_string(),
                parameters: vec![string_param("secret_reference", "op://vault/item/field")],
            },
        },
    };
    let json = config.to_json();
    assert!(json.contains("\"clientId\":42"));
    assert!(json.contains("\"name\":\"SecretsResolve\""));
}

#[test]
fn invoke_config_is_the_json_of_its_parts() {
    let config = InvokeConfig::new(
        Some(42),
        Parameters {
            name: "SecretsResolve".to_string(),
            parameters: vec![string_param("secret_reference", "op://vault/item/field")],
        },
    );
    assert_eq!(
        config.to_json(),
        r#"{"invocation":{"clientId":42,"parameters":{"name":"SecretsResolve","parameters":{"secret_reference":"op://vault/item/field"}}}}"#
    );
    let value: serde_json::Value = serde_json::from_str(&config.to_json()).unwrap();
    assert_eq!(value["invocation"]["parameters"]["parameters"]["secret_reference"], "op://vault/item/field");
}

#[test]
fn invocation_without_client_omits_client_id() {
    let config = InvokeConfig::new(
        None,
        Parameters { name: "GeneratePassword".to_string(), parameters: vec![] },
    );
    assert_eq!(
        config.to_json(),
        r#"{"invocation":{"parameters":{"name":"GeneratePassword","parameters":{}}}}"#
    );
}

#[test]
fn service_account_config_serializes_token() {
    let mut config = default_config();
    config.sa_token = "ops_test".to_string();

    let value: serde_json::Value = serde_json::from_str(&config.to_json()).unwrap();
    assert_eq!(value["serviceAccountToken"], "ops_test");
}

#[test]
fn desktop_config_omits_auth_fields_from_core_config() {
    let mut config = default_config();
    config.account_name = Some("myaccount".to_string());

    let value: serde_json::Value = serde_json::from_str(&config.to_json()).unwrap();
    assert!(value.get("serviceAccountToken").is_none());
    assert!(value.get("account_name").is_none());
}

#[test]
fn config_json_lists_every_field_in_order() {
    let mut config = default_config();
    config.sa_token = "ops_x".to_string();
    assert_eq!(
        config.to_json(),
        r#"{"serviceAccountToken":"ops_x","programmingLanguage":"Rust","sdkVersion":"0040101","integrationName":"Unknown","integrationVersion":"Unknown","requestLibraryName":"reqwest","requestLibraryVersion":"0.0.0","os":"linux","osVersion":"0.0.0","architecture":"x86_64"}"#
    );
    assert_eq!(config.to_json_bytes(), config.to_json().into_bytes());
}

#[test]
fn invoke_rejects_invalid_utf8_response() {
    let err = decode_response(vec![0xff]).unwrap_err();
    match err {
        SdkError::Core { name, message } => {
            assert_eq!(name, "InvalidUtf8");
            assert!(message.contains("not valid UTF-8"));
        }
        _ => panic!("expected InvalidUtf8 core error"),
    }
}

#[test]
fn decode_response_accepts_utf8() {
    assert_eq!(decode_response("\"ok\" ✓".as_bytes().to_vec()).unwrap(), "\"ok\" ✓");
}

#[test]
fn message_size_limit_is_fifty_mebibytes() {
    assert_eq!(MESSAGE_LIMIT, 52_428_800);
    let at_limit = vec![b' '; MESSAGE_LIMIT];
    assert!(check_message_size(&at_limit).is_ok());
    let over = vec![b' '; MESSAGE_LIMIT + 1];
    match check_message_size(&over) {
        Err(SdkError::Config(m)) => {
            assert_eq!(m, "message size exceeds the limit of 52428800 bytes")
        }
        _ => panic!("expected Config error"),
    }
}

#[test]
fn prepare_invoke_refuses_oversized_messages() {
    let big = "x".repeat(MESSAGE_LIMIT);
    let config = InvokeConfig::new(
        Some(1),
        Parameters { name: "ItemsPut".to_string(), parameters: vec![json_param("item", &big)] },
    );
    assert!(matches!(prepare_invoke(&config), Err(SdkError::Config(_))));
    let small = InvokeConfig::new(
        Some(1),
        Parameters { name: "ItemsGet".to_string(), parameters: vec![] },
    );
    assert_eq!(prepare_invoke(&small).unwrap(), small.to_json().into_bytes());
}

#[test]
fn client_ids_are_read_from_json_numbers() {
    assert_eq!(decode_client_id(b"99").unwrap(), 99);
    assert!(matches!(decode_client_id(b"\"99\""), Err(SdkError::Serialization(_))));
    assert!(matches!(decode_client_id(b"-1"), Err(SdkError::Serialization(_))));
}

#[test]
fn client_id_message_is_a_json_number() {
    assert_eq!(client_id_message(42), b"42".to_vec());
    assert_eq!(client_id_message(0), b"0".to_vec());
}

#[test]
fn string_responses_are_read_from_json_strings() {
    assert_eq!(decode_string_response("\"s3cr\\\"et\"").unwrap(), "s3cr\"et");
    assert!(matches!(decode_string_response("42"), Err(SdkError::Serialization(_))));
}

#[test]
fn decimal_texts() {
    assert_eq!(u64_decimal(0), "0");
    assert_eq!(u64_decimal(1234567890), "1234567890");
    assert_eq!(u64_decimal(u64::MAX), "18446744073709551615");
    assert_eq!(i32_decimal(-5), "-5");
    assert_eq!(i32_decimal(i32::MIN), "-2147483648");
    assert_eq!(i32_decimal(7), "7");
}

#[test]
fn json_strings_are_escaped() {
    assert_eq!(json_string("a\"b\\c\n"), "\"a\\\"b\\\\c\\n\"");
    assert_eq!(json_string(""), "\"\"");
}

#[test]
fn json_arrays_and_objects_are_framed() {
    let items = vec!["a".to_string(), "b\"".to_string()];
    assert_eq!(json_array(&items), r#"["a","b\""]"#);
    let none: Vec<String> = vec![];
    assert_eq!(json_array(&none), "[]");
    let entries = vec![
        ("k".to_string(), "1".to_string()),
        ("q\"".to_string(), "[true]".to_string()),
    ];
    assert_eq!(json_object(&entries), r#"{"k":1,"q\"":[true]}"#);
    assert_eq!(json_object(&[]), "{}");
}

#[test]
fn json_strings_escape_control_characters_only() {
    assert_eq!(json_string("\u{1}\u{1f}"), "\"\\u0001\\u001f\"");
    assert_eq!(json_string("\u{8}\u{c}\r\t"), "\"\\b\\f\\r\\t\"");
    assert_eq!(json_string("/\u{7f}é✓"), "\"/\u{7f}é✓\"");
}

#[test]
fn an_invalid_response_names_where_decoding_failed() {
    let err = decode_response(vec![b'o', b'k', 0xc3]).unwrap_err();
    match err {
        SdkError::Core { name, message } => {
            assert_eq!(name, "InvalidUtf8");
            assert_eq!(
                message,
                "core response was not valid UTF-8: incomplete utf-8 byte sequence from index 2"
            );
        }
        _ => panic!("expected InvalidUtf8 core error"),
    }
    match decode_response(vec![0xff]).unwrap_err() {
        SdkError::Core { message, .. } => assert_eq!(
            message,
            "core response was not valid UTF-8: invalid utf-8 sequence of 1 bytes from index 0"
        ),
        _ => panic!("expected InvalidUtf8 core error"),
    }
}
