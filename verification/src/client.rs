//! Building a client, and the decisions of a call to the core: a call whose
//! desktop session expired is retried once, on a client created anew.
use vstd::prelude::*;

use crate::errors::{
    parsed_view, unmarshal_core_error, unmarshal_core_error_view, CoreError, SdkError,
    SdkErrorView,
};
use crate::protocol::{decode_client_id, parameters_view, ClientConfig, InvokeConfig, Parameters};
use crate::wire::json_u64_value;

verus! {

/// Collects the configuration of a client. Exactly one way to authenticate
/// must be chosen before it is built.
pub struct ClientBuilder {
    config: ClientConfig,
}

/// The core that serves a client.
#[derive(Debug, Clone, PartialEq, Eq)]
pub enum CoreBackend {
    /// The embedded WASM core, authenticated with a service account token.
    Wasm,
    /// The 1Password desktop app's shared library, for this account.
    Desktop { account_name: String },
}

/// A validated client configuration and the core that will serve it.
#[derive(Clone)]
pub struct ClientSetup {
    pub config: ClientConfig,
    pub backend: CoreBackend,
}

impl ClientBuilder {
    /// The configuration collected so far.
    pub closed spec fn spec_config(&self) -> ClientConfig {
        self.config
    }

    /// A builder that starts from `config`.
    pub fn new(config: ClientConfig) -> (res: ClientBuilder)
        ensures
            res.spec_config() == config,
    {
        ClientBuilder { config }
    }

    /// The configuration collected so far.
    pub fn config(&self) -> (res: &ClientConfig)
        ensures
            *res == self.spec_config(),
    {
        &self.config
    }

    /// Authenticates with a service account token.
    pub fn service_account_token(self, token: &str) -> (res: ClientBuilder)
        ensures
            res.spec_config().sa_token@ == token@,
            res.spec_config() == (ClientConfig { sa_token: res.spec_config().sa_token, ..self.spec_config() }),
    {
        let mut builder = self;
        builder.config.sa_token = token.to_owned();
        builder
    }

    /// Authenticates through the 1Password desktop app, for this account.
    pub fn desktop_app_integration(self, account_name: &str) -> (res: ClientBuilder)
        ensures
            res.spec_config().account_name matches Some(a) && a@ == account_name@,
            res.spec_config() == (ClientConfig {
                account_name: res.spec_config().account_name,
                ..self.spec_config()
            }),
    {
        let mut builder = self;
        builder.config.account_name = Some(account_name.to_owned());
        builder
    }

    /// Names the integration and its version, as the core reports them.
    pub fn integration_info(self, name: &str, version: &str) -> (res: ClientBuilder)
        ensures
            res.spec_config().integration_name@ == name@,
            res.spec_config().integration_version@ == version@,
            res.spec_config() == (ClientConfig {
                integration_name: res.spec_config().integration_name,
                integration_version: res.spec_config().integration_version,
                ..self.spec_config()
            }),
    {
        let mut builder = self;
        builder.config.integration_name = name.to_owned();
        builder.config.integration_version = version.to_owned();
        builder
    }

    /// Checks that exactly one way to authenticate was chosen, and picks
    /// the core for it: the desktop app for an account name, the WASM core
    /// for a service account token.
    pub fn build(self) -> (res: Result<ClientSetup, SdkError>)
        ensures
            ({
                let has_token = self.spec_config().sa_token@.len() > 0;
                let has_desktop = self.spec_config().account_name is Some;
                &&& res is Ok <==> has_token != has_desktop
                &&& has_token && has_desktop ==> (res matches Err(e) && e@
                    == SdkErrorView::Config(
                    "cannot use both SA token and desktop app authentication"@,
                ))
                &&& !has_token && !has_desktop ==> (res matches Err(e) && e@
                    == SdkErrorView::Config(
                    "must set either service_account_token or desktop_app_integration"@,
                ))
                &&& res matches Ok(setup) ==> setup.config == self.spec_config() && match setup.backend {
                    CoreBackend::Wasm => has_token,
                    CoreBackend::Desktop { account_name } => self.spec_config().account_name
                        == Some(account_name),
                }
            }),
    {
        let has_sa_token = !self.config.sa_token.as_str().is_empty();
        let has_desktop = self.config.account_name.is_some();
        if has_sa_token && has_desktop {
            return Err(
                SdkError::Config(
                    "cannot use both SA token and desktop app authentication".to_owned(),
                ),
            );
        }
        if !has_sa_token && !has_desktop {
            return Err(
                SdkError::Config(
                    "must set either service_account_token or desktop_app_integration".to_owned(),
                ),
            );
        }
        let backend = match &self.config.account_name {
            Some(account_name) => CoreBackend::Desktop { account_name: account_name.clone() },
            None => CoreBackend::Wasm,
        };
        Ok(ClientSetup { config: self.config, backend })
    }
}

/// The id of a client that the core's `init_client` created, from what the
/// call returned: the id read from its JSON response, or the call's error
/// read as a core error (`parsed` is what was read from its text).
pub fn client_id_from_init(response: Result<Vec<u8>, SdkError>, parsed: Option<CoreError>) -> (res:
    Result<u64, SdkError>)
    ensures
        response matches Ok(bytes) ==> (res is Ok <==> json_u64_value(bytes@) is Some),
        response matches Ok(bytes) ==> (res matches Ok(id) ==> json_u64_value(bytes@) == Some(id)),
        response matches Ok(bytes) ==> (res matches Err(e) ==> e@ is Serialization),
        response matches Err(e) ==> (res matches Err(e2) && e2@ == unmarshal_core_error_view(
            e@,
            parsed_view(parsed),
        )),
{
    match response {
        Ok(bytes) => decode_client_id(bytes.as_slice()),
        Err(e) => Err(unmarshal_core_error(e, parsed)),
    }
}

/// What to do after a call of the core's `invoke` came back.
#[derive(Debug)]
pub enum InvokeDecision {
    /// The call is over, with this result.
    Finish(Result<String, SdkError>),
    /// The desktop session expired: create the client anew, release the old
    /// one, and call once more with the new client's id.
    Reinitialize,
}

/// The decision after the first call: a success is the result; an error is
/// read as a core error, and a desktop session expiry asks for one retry
/// while any other error is the result.
pub open spec fn first_attempt_decides_retry(
    outcome: Result<String, SdkError>,
    parsed: Option<(Seq<char>, Seq<char>)>,
) -> bool {
    outcome matches Err(e) && unmarshal_core_error_view(e@, parsed) is DesktopSessionExpired
}

/// Decides what follows the first call; `parsed` is what was read from the
/// text of the error, if the call failed with a plugin or shared library
/// error.
pub fn after_first_attempt(outcome: Result<String, SdkError>, parsed: Option<CoreError>) -> (res:
    InvokeDecision)
    ensures
        first_attempt_decides_retry(outcome, parsed_view(parsed)) <==> res is Reinitialize,
        outcome matches Ok(s) ==> res == InvokeDecision::Finish(Ok(s)),
        outcome matches Err(e) ==> (!first_attempt_decides_retry(outcome, parsed_view(parsed))
            ==> (res matches InvokeDecision::Finish(Err(e2)) && e2@ == unmarshal_core_error_view(
            e@,
            parsed_view(parsed),
        ))),
{
    match outcome {
        Ok(s) => InvokeDecision::Finish(Ok(s)),
        Err(e) => {
            let err = unmarshal_core_error(e, parsed);
            match err {
                SdkError::DesktopSessionExpired(_) => InvokeDecision::Reinitialize,
                other => InvokeDecision::Finish(Err(other)),
            }
        },
    }
}

/// The result of a call after the client was created anew, or of creating
/// it anew: a success is kept; an error is read as a core error. There is
/// no second retry.
pub fn after_retry<T>(outcome: Result<T, SdkError>, parsed: Option<CoreError>) -> (res: Result<
    T,
    SdkError,
>)
    ensures
        outcome matches Ok(v) ==> res == Ok::<T, SdkError>(v),
        outcome matches Err(e) ==> (res matches Err(e2) && e2@ == unmarshal_core_error_view(
            e@,
            parsed_view(parsed),
        )),
{
    match outcome {
        Ok(v) => Ok(v),
        Err(e) => Err(unmarshal_core_error(e, parsed)),
    }
}

/// Where a call of the core stands.
#[derive(Debug, Clone, Copy, PartialEq, Eq)]
pub enum InvokeStage {
    /// The call was sent for the client with this id.
    FirstAttempt { client_id: u64 },
    /// The desktop session expired and a new client is being created.
    CreatingClient,
    /// The call was sent again, for the new client with this id.
    Retry { client_id: u64 },
    /// The call is over.
    Done,
}

/// What the caller does next for a call of the core.
#[derive(Debug)]
pub enum InvokeAction {
    /// Send this message to the core's `invoke`, and report what came back
    /// as `Invoked`.
    Invoke(InvokeConfig),
    /// Create a client anew with the client's configuration, and report the
    /// response with the id of the client it replaces as `ClientCreated`.
    CreateClient,
    /// Release the client `old_id`, use `new_id` from now on, send this
    /// message to the core's `invoke`, and report what came back as `Invoked`.
    SwitchClient { old_id: u64, new_id: u64, message: InvokeConfig },
    /// The call is over, with this result.
    Return(Result<String, SdkError>),
}

/// What came back from an action.
#[derive(Debug)]
pub enum InvokeEvent {
    /// The core's `invoke` returned this text or error.
    Invoked(Result<String, SdkError>),
    /// The core's `init_client` returned this response or error; `old_id` is
    /// the id of the client in use when the new one was asked for.
    ClientCreated { old_id: u64, response: Result<Vec<u8>, SdkError> },
}

/// A call of the core for a client: sends it, and when the desktop session
/// expired, creates the client anew and sends it once more.
pub struct InvokeSession {
    call: Parameters,
    stage: InvokeStage,
}

/// Whether a message calls the method of `call`, with its parameters, for
/// the client `client_id`.
pub open spec fn sends(message: InvokeConfig, client_id: u64, call: Parameters) -> bool {
    message.invocation.client_id == Some(client_id) && parameters_view(message.invocation.parameters)
        == parameters_view(call)
}

/// How many more times a call in this stage may create its client anew.
pub open spec fn retries_left(stage: InvokeStage) -> nat {
    match stage {
        InvokeStage::FirstAttempt { .. } => 1,
        _ => 0,
    }
}

/// How many more events a call in this stage can take.
pub open spec fn steps_left(stage: InvokeStage) -> nat {
    match stage {
        InvokeStage::FirstAttempt { .. } => 3,
        InvokeStage::CreatingClient => 2,
        InvokeStage::Retry { .. } => 1,
        InvokeStage::Done => 0,
    }
}

/// Whether a call in this stage waits for this kind of event.
pub open spec fn awaits(stage: InvokeStage, event: InvokeEvent) -> bool {
    match stage {
        InvokeStage::FirstAttempt { .. } => event is Invoked,
        InvokeStage::CreatingClient => event is ClientCreated,
        InvokeStage::Retry { .. } => event is Invoked,
        InvokeStage::Done => false,
    }
}

impl InvokeSession {
    /// The method called and its parameters.
    pub closed spec fn spec_call(&self) -> Parameters {
        self.call
    }

    /// Where the call stands.
    pub closed spec fn spec_stage(&self) -> InvokeStage {
        self.stage
    }

    /// Where the call stands.
    pub fn stage(&self) -> (res: InvokeStage)
        ensures
            res == self.spec_stage(),
    {
        self.stage
    }

    /// Starts a call of `call` for the client `client_id`: its first action
    /// sends the call with that id.
    pub fn start(client_id: u64, call: Parameters) -> (res: (InvokeSession, InvokeAction))
        ensures
            res.0.spec_call() == call,
            res.0.spec_stage() == (InvokeStage::FirstAttempt { client_id }),
            res.1 matches InvokeAction::Invoke(message) && sends(message, client_id, call),
    {
        let message = InvokeConfig::new(Some(client_id), call.duplicate());
        (InvokeSession { call, stage: InvokeStage::FirstAttempt { client_id } }, InvokeAction::Invoke(message))
    }

    /// Takes what came back from the last action and gives the next one;
    /// `parsed` is what was read from the text of the event's error, if it
    /// is a plugin or shared library error.
    ///
    /// A success is returned as it is. A desktop session expiry on the first
    /// attempt creates the client anew and, once that succeeded, sends the
    /// call again for the new client; every other error, and every error
    /// after that, is returned as a typed error.
    pub fn step(&mut self, event: InvokeEvent, parsed: Option<CoreError>) -> (res: InvokeAction)
        requires
            awaits(old(self).spec_stage(), event),
        ensures
            final(self).spec_call() == old(self).spec_call(),
            steps_left(final(self).spec_stage()) < steps_left(old(self).spec_stage()),
            retries_left(final(self).spec_stage()) <= retries_left(old(self).spec_stage()),
            res is CreateClient ==> retries_left(old(self).spec_stage()) == 1
                && final(self).spec_stage() == InvokeStage::CreatingClient,
            res is Return <==> final(self).spec_stage() == InvokeStage::Done,
            match (old(self).spec_stage(), event) {
                (InvokeStage::FirstAttempt { .. }, InvokeEvent::Invoked(outcome)) => {
                    if first_attempt_decides_retry(outcome, parsed_view(parsed)) {
                        res is CreateClient
                    } else {
                        match outcome {
                            Ok(text) => res == InvokeAction::Return(Ok(text)),
                            Err(e) => res matches InvokeAction::Return(Err(e2)) && e2@
                                == unmarshal_core_error_view(e@, parsed_view(parsed)),
                        }
                    }
                },
                (InvokeStage::CreatingClient, InvokeEvent::ClientCreated { old_id, response }) => {
                    match response {
                        Ok(bytes) => match json_u64_value(bytes@) {
                            Some(new_id) => (res matches InvokeAction::SwitchClient {
                                old_id: o,
                                new_id: n,
                                message,
                            } && o == old_id && n == new_id && sends(message, new_id, old(self).spec_call()))
                                && final(self).spec_stage() == (InvokeStage::Retry { client_id: new_id }),
                            None => res matches InvokeAction::Return(Err(e)) && e@ is Serialization,
                        },
                        Err(e) => res matches InvokeAction::Return(Err(e2)) && e2@
                            == unmarshal_core_error_view(e@, parsed_view(parsed)),
                    }
                },
                (InvokeStage::Retry { .. }, InvokeEvent::Invoked(outcome)) => match outcome {
                    Ok(text) => res == InvokeAction::Return(Ok(text)),
                    Err(e) => res matches InvokeAction::Return(Err(e2)) && e2@
                        == unmarshal_core_error_view(e@, parsed_view(parsed)),
                },
                _ => false,
            },
    {
        match event {
            InvokeEvent::Invoked(outcome) => {
                match self.stage {
                    InvokeStage::FirstAttempt { .. } => match after_first_attempt(outcome, parsed) {
                        InvokeDecision::Finish(result) => {
                            self.stage = InvokeStage::Done;
                            InvokeAction::Return(result)
                        },
                        InvokeDecision::Reinitialize => {
                            self.stage = InvokeStage::CreatingClient;
                            InvokeAction::CreateClient
                        },
                    },
                    _ => {
                        self.stage = InvokeStage::Done;
                        InvokeAction::Return(after_retry(outcome, parsed))
                    },
                }
            },
            InvokeEvent::ClientCreated { old_id, response } => {
                match client_id_from_init(response, parsed) {
                    Ok(new_id) => {
                        self.stage = InvokeStage::Retry { client_id: new_id };
                        let message = InvokeConfig::new(Some(new_id), self.call.duplicate());
                        InvokeAction::SwitchClient { old_id, new_id, message }
                    },
                    Err(e) => {
                        self.stage = InvokeStage::Done;
                        InvokeAction::Return(Err(e))
                    },
                }
            },
        }
    }
}

/// Only a desktop session expiry makes a call retry: an error that already
/// says so, or a plugin or shared library error whose text is a core error
/// of that name. Every other outcome is final.
pub proof fn lemma_retry_happens_only_on_session_expiry(
    outcome: Result<String, SdkError>,
    parsed: Option<(Seq<char>, Seq<char>)>,
)
    ensures
        first_attempt_decides_retry(outcome, parsed) ==> outcome is Err,
        first_attempt_decides_retry(outcome, parsed) ==> match outcome {
            Err(e) => match e@ {
                SdkErrorView::DesktopSessionExpired(_) => true,
                SdkErrorView::Plugin(_) => parsed matches Some(p) && p.0 == "DesktopSessionExpired"@,
                SdkErrorView::SharedLib(_) => parsed matches Some(p) && p.0
                    == "DesktopSessionExpired"@,
                _ => false,
            },
            Ok(_) => false,
        },
{
}

} // verus!
