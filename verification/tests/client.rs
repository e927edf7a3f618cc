use onepassword_sdk::client::{
    after_first_attempt, after_retry, client_id_from_init, CoreBackend, InvokeAction,
    InvokeDecision, InvokeEvent, InvokeSession, InvokeStage,
};
use onepassword_sdk::errors::CoreError;
use onepassword_sdk::protocol::{ClientConfig, Parameters};
use onepassword_sdk::{ClientBuilder, SdkError};

fn builder() -> ClientBuilder {
    ClientBuilder::new(ClientConfig::new_default("linux", "x86_64"))
}

fn read_core_error(text: &str) -> Option<CoreError> {
    let value: serde_json::Value = serde_json::from_str(text).ok()?;
    let name = value.get("name")?.as_str()?.to_string();
    let message = value.get("message")?.as_str()?.to_string();
    Some(CoreError { name, message })
}

fn parsed_text(err: &SdkError) -> Option<CoreError> {
    match err {
        SdkError::Plugin(m) | SdkError::SharedLib(m) => read_core_error(m),
        _ => None,
    }
}

#[test]
fn builder_rejects_both_auth_methods() {
    let builder = builder().service_account_token("ops_test").desktop_app_integration("myaccount");
    let result = builder.build();
    assert!(result.is_err());
    let err = match result {
        Err(e) => e.display_text(),
        Ok(_) => panic!("expected an error"),
    };
    assert!(err.contains("cannot use both"));
}

#[test]
fn builder_requires_an_auth_method() {
    match builder().build() {
        Err(SdkError::Config(m)) => {
            assert_eq!(m, "must set either service_account_token or desktop_app_integration")
        }
        _ => panic!("expected Config error"),
    }
}

#[test]
fn service_account_builds_for_the_wasm_core() {
    let setup = match builder().service_account_token("ops_abc").integration_info("App", "v1").build()
    {
        Ok(setup) => setup,
        Err(e) => panic!("unexpected error: {}", e.display_text()),
    };
    assert_eq!(setup.backend, CoreBackend::Wasm);
    assert_eq!(setup.config.sa_token, "ops_abc");
    assert_eq!(setup.config.integration_name, "App");
    assert_eq!(setup.config.integration_version, "v1");
}

#[test]
fn desktop_integration_builds_for_the_desktop_app() {
    let setup = match builder().desktop_app_integration("my.1password.com").build() {
        Ok(setup) => setup,
        Err(e) => panic!("unexpected error: {}", e.display_text()),
    };
    assert_eq!(
        setup.backend,
        CoreBackend::Desktop { account_name: "my.1password.com".to_string() }
    );
    assert_eq!(setup.config.sa_token, "");
}

#[test]
fn builder_setters_change_only_their_fields() {
    let b = builder().integration_info("Name", "1.2.3").service_account_token("tok");
    let config = b.config();
    assert_eq!(config.integration_name, "Name");
    assert_eq!(config.integration_version, "1.2.3");
    assert_eq!(config.sa_token, "tok");
    assert_eq!(config.language, "Rust");
    assert!(config.account_name.is_none());
}

/// The core of the retry test: its first call reports an expired desktop
/// session, its next calls succeed.
fn respond(invoke_calls: u32) -> InvokeEvent {
    if invoke_calls == 1 {
        InvokeEvent::Invoked(Err(SdkError::SharedLib(
            r#"{"name":"DesktopSessionExpired","message":"expired"}"#.to_string(),
        )))
    } else {
        InvokeEvent::Invoked(Ok(r#""ok""#.to_string()))
    }
}

/// Runs a call as the client does, against the core of `respond`, whose
/// `init_client` returns the id 99.
#[test]
fn client_invoke_retries_shared_lib_session_expired() {
    let mut client_id: u64 = 1;
    let mut invoke_calls = 0;
    let call = Parameters { name: "SecretsResolve".to_string(), parameters: vec![] };
    let (mut session, mut action) = InvokeSession::start(client_id, call);
    let response = loop {
        let event = match action {
            InvokeAction::Invoke(_) => {
                invoke_calls += 1;
                respond(invoke_calls)
            }
            InvokeAction::CreateClient => {
                InvokeEvent::ClientCreated { old_id: client_id, response: Ok(b"99".to_vec()) }
            }
            InvokeAction::SwitchClient { new_id, .. } => {
                client_id = new_id;
                invoke_calls += 1;
                respond(invoke_calls)
            }
            InvokeAction::Return(result) => break result,
        };
        let parsed = match &event {
            InvokeEvent::Invoked(Err(e)) => parsed_text(e),
            _ => None,
        };
        action = session.step(event, parsed);
    }
    .unwrap();
    assert_eq!(response, r#""ok""#);
    assert_eq!(client_id, 99);
    assert_eq!(session.stage(), InvokeStage::Done);
}

#[test]
fn session_switches_to_the_new_client_once() {
    let call = Parameters { name: "ItemsGet".to_string(), parameters: vec![] };
    let (mut session, first) = InvokeSession::start(7, call.clone());
    match first {
        InvokeAction::Invoke(m) => assert_eq!(m.invocation.client_id, Some(7)),
        _ => panic!("expected the first call"),
    }
    let expired = SdkError::DesktopSessionExpired("gone".to_string());
    assert!(matches!(session.step(InvokeEvent::Invoked(Err(expired)), None), InvokeAction::CreateClient));
    assert_eq!(session.stage(), InvokeStage::CreatingClient);
    match session.step(InvokeEvent::ClientCreated { old_id: 7, response: Ok(b"8".to_vec()) }, None) {
        InvokeAction::SwitchClient { old_id, new_id, message } => {
            assert_eq!((old_id, new_id), (7, 8));
            assert_eq!(message.invocation.client_id, Some(8));
            assert_eq!(message.invocation.parameters, call);
        }
        _ => panic!("expected a switch to the new client"),
    }
    let again = SdkError::DesktopSessionExpired("gone again".to_string());
    match session.step(InvokeEvent::Invoked(Err(again)), None) {
        InvokeAction::Return(Err(SdkError::DesktopSessionExpired(m))) => assert_eq!(m, "gone again"),
        _ => panic!("a second expiry is final"),
    }
    assert_eq!(session.stage(), InvokeStage::Done);
}

#[test]
fn session_reports_a_failed_client_creation() {
    let call = Parameters { name: "ItemsGet".to_string(), parameters: vec![] };
    let (mut session, _) = InvokeSession::start(1, call);
    let text = r#"{"name":"DesktopSessionExpired","message":"x"}"#;
    let parsed = read_core_error(text);
    let first = InvokeEvent::Invoked(Err(SdkError::Plugin(text.to_string())));
    assert!(matches!(session.step(first, parsed), InvokeAction::CreateClient));
    let failed = InvokeEvent::ClientCreated {
        old_id: 1,
        response: Err(SdkError::SharedLib("no app".to_string())),
    };
    assert!(matches!(
        session.step(failed, None),
        InvokeAction::Return(Err(SdkError::SharedLib(m))) if m == "no app"
    ));
}

#[test]
fn other_errors_are_not_retried() {
    let first: Result<String, SdkError> = Err(SdkError::SharedLib(
        r#"{"name":"RateLimitExceeded","message":"slow"}"#.to_string(),
    ));
    let parsed = first.as_ref().err().and_then(parsed_text);
    match after_first_attempt(first, parsed) {
        InvokeDecision::Finish(Err(SdkError::RateLimitExceeded(m))) => assert_eq!(m, "slow"),
        _ => panic!("expected a final rate limit error"),
    }
    match after_first_attempt(Ok("\"v\"".to_string()), None) {
        InvokeDecision::Finish(Ok(v)) => assert_eq!(v, "\"v\""),
        _ => panic!("expected the response"),
    }
}

#[test]
fn a_session_expiry_after_the_retry_is_final() {
    let second: Result<String, SdkError> = Err(SdkError::Plugin(
        r#"{"name":"DesktopSessionExpired","message":"again"}"#.to_string(),
    ));
    let parsed = second.as_ref().err().and_then(parsed_text);
    match after_retry(second, parsed) {
        Err(SdkError::DesktopSessionExpired(m)) => assert_eq!(m, "again"),
        _ => panic!("expected a final session expiry"),
    }
}

#[test]
fn failed_reinitialization_is_reported() {
    let init: Result<Vec<u8>, SdkError> = Err(SdkError::Plugin("boom".to_string()));
    match client_id_from_init(init, None) {
        Err(SdkError::Core { name, message }) => {
            assert_eq!(name, "Unknown");
            assert_eq!(message, "boom");
        }
        _ => panic!("expected a core error"),
    }
    assert!(matches!(
        client_id_from_init(Ok(b"nope".to_vec()), None),
        Err(SdkError::Serialization(_))
    ));
}
