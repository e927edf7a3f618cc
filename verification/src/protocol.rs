//! The messages exchanged with the 1Password core: the client configuration
//! that creates a client, the invocations that call a method of it, and the
//! checks on what goes in and comes back.
use vstd::prelude::*;
use vstd::slice::slice_to_vec;
use vstd::utf8::{decode_utf8, valid_utf8};

use crate::errors::{invalid_utf8_error, invalid_utf8_prefix, SdkError, SdkErrorView};
use crate::wire::{
    decimal_text, entry_views, json_object, json_object_text, json_string, json_string_text,
    json_string_value, json_u64_value, read_json_string, read_json_u64, u64_decimal,
};

verus! {

/// The language the SDK reports to the core.
pub const SDK_LANGUAGE: &'static str = "Rust";

/// The request library the SDK reports to the core.
pub const DEFAULT_REQUEST_LIBRARY: &'static str = "reqwest";

/// The largest invocation, in bytes, that the core accepts.
pub const MESSAGE_LIMIT: usize = 50 * 1024 * 1024;

/// The configuration a client is created with. The service account token
/// is a secret: this type has no `Debug`.
#[derive(Clone)]
pub struct ClientConfig {
    pub sa_token: String,
    pub language: String,
    pub sdk_version: String,
    pub integration_name: String,
    pub integration_version: String,
    pub request_library_name: String,
    pub request_library_version: String,
    pub system_os: String,
    pub system_os_version: String,
    pub system_arch: String,
    /// The desktop app account. It chooses the desktop app as the core; it
    /// is not a member of the configuration's JSON text.
    pub account_name: Option<String>,
}

/// The members of the configuration's JSON object, in order: the token only
/// when one is set; the desktop app account is not among them.
pub open spec fn config_entries(c: ClientConfig) -> Seq<(Seq<char>, Seq<char>)> {
    let token: Seq<(Seq<char>, Seq<char>)> = if c.sa_token@.len() == 0 {
        Seq::empty()
    } else {
        seq![("serviceAccountToken"@, json_string_text(c.sa_token@))]
    };
    token + seq![
        ("programmingLanguage"@, json_string_text(c.language@)),
        ("sdkVersion"@, json_string_text(c.sdk_version@)),
        ("integrationName"@, json_string_text(c.integration_name@)),
        ("integrationVersion"@, json_string_text(c.integration_version@)),
        ("requestLibraryName"@, json_string_text(c.request_library_name@)),
        ("requestLibraryVersion"@, json_string_text(c.request_library_version@)),
        ("os"@, json_string_text(c.system_os@)),
        ("osVersion"@, json_string_text(c.system_os_version@)),
        ("architecture"@, json_string_text(c.system_arch@)),
    ]
}

/// The JSON text of a client configuration.
pub open spec fn config_text(c: ClientConfig) -> Seq<char> {
    json_object_text(config_entries(c))
}

/// The keys of the configuration's JSON members.
pub open spec fn config_keys(c: ClientConfig) -> Seq<Seq<char>> {
    Seq::new(config_entries(c).len(), |i: int| config_entries(c)[i].0)
}

/// The configuration's JSON text holds a service account token member
/// exactly when a token is set, and is the same whatever the desktop app
/// account is: that account chooses the core the client runs on and is not
/// written into this text.
pub proof fn lemma_config_json_members(c: ClientConfig, account_name: Option<String>)
    ensures
        config_keys(c).contains("serviceAccountToken"@) <==> c.sa_token@.len() > 0,
        config_text(ClientConfig { account_name, ..c }) == config_text(c),
{
    reveal_strlit("serviceAccountToken");
    reveal_strlit("programmingLanguage");
    reveal_strlit("sdkVersion");
    reveal_strlit("integrationName");
    reveal_strlit("integrationVersion");
    reveal_strlit("requestLibraryName");
    reveal_strlit("requestLibraryVersion");
    reveal_strlit("os");
    reveal_strlit("osVersion");
    reveal_strlit("architecture");
    let keys = config_keys(c);
    if c.sa_token@.len() > 0 {
        assert(keys[0] == "serviceAccountToken"@);
    } else {
        assert forall|i: int| 0 <= i < keys.len() implies keys[i] != "serviceAccountToken"@ by {
            assert(keys[i].len() != 19 || keys[i][0] != 's');
        }
    }
}

/// One member of a JSON object, with its value already written as JSON.
fn entry(key: &str, value: String) -> (res: (String, String))
    ensures
        res.0@ == key@,
        res.1@ == value@,
{
    (key.to_owned(), value)
}

impl ClientConfig {
    /// The configuration before any authentication or integration is set,
    /// for a system with the given operating system and architecture.
    pub fn new_default(system_os: &str, system_arch: &str) -> (res: ClientConfig)
        ensures
            res.sa_token@ == Seq::<char>::empty(),
            res.language@ == "Rust"@,
            res.sdk_version@ == "0040101"@,
            res.integration_name@ == "Unknown"@,
            res.integration_version@ == "Unknown"@,
            res.request_library_name@ == "reqwest"@,
            res.request_library_version@ == "0.0.0"@,
            res.system_os@ == system_os@,
            res.system_os_version@ == "0.0.0"@,
            res.system_arch@ == system_arch@,
            res.account_name is None,
    {
        ClientConfig {
            sa_token: String::new(),
            language: SDK_LANGUAGE.to_owned(),
            // The version of the core this SDK speaks to, in the 7-digit
            // form Mmmppbb (0.4.1 beta 1).
            sdk_version: "0040101".to_owned(),
            integration_name: "Unknown".to_owned(),
            integration_version: "Unknown".to_owned(),
            request_library_name: DEFAULT_REQUEST_LIBRARY.to_owned(),
            request_library_version: "0.0.0".to_owned(),
            system_os: system_os.to_owned(),
            system_os_version: "0.0.0".to_owned(),
            system_arch: system_arch.to_owned(),
            account_name: None,
        }
    }

    /// The configuration as JSON text, as the core reads it.
    pub fn to_json(&self) -> (res: String)
        ensures
            res@ == config_text(*self),
    {
        let mut entries: Vec<(String, String)> = Vec::new();
        if self.sa_token.as_str().is_empty() {
        } else {
            entries.push(entry("serviceAccountToken", json_string(self.sa_token.as_str())));
        }
        entries.push(entry("programmingLanguage", json_string(self.language.as_str())));
        entries.push(entry("sdkVersion", json_string(self.sdk_version.as_str())));
        entries.push(entry("integrationName", json_string(self.integration_name.as_str())));
        entries.push(entry("integrationVersion", json_string(self.integration_version.as_str())));
        entries.push(entry("requestLibraryName", json_string(self.request_library_name.as_str())));
        entries.push(
            entry("requestLibraryVersion", json_string(self.request_library_version.as_str())),
        );
        entries.push(entry("os", json_string(self.system_os.as_str())));
        entries.push(entry("osVersion", json_string(self.system_os_version.as_str())));
        entries.push(entry("architecture", json_string(self.system_arch.as_str())));
        assert(entry_views(entries@) =~= config_entries(*self));
        json_object(entries.as_slice())
    }

    /// The configuration as the bytes of its JSON text.
    pub fn to_json_bytes(&self) -> (res: Vec<u8>)
        ensures
            res@ == vstd::utf8::encode_utf8(config_text(*self)),
    {
        let text = self.to_json();
        slice_to_vec(text.as_str().as_bytes())
    }
}

/// A method of the core and its parameters: each parameter pairs a name
/// with the JSON text of its value. The parameters stand for a map from
/// names to values: a call is written only when no two share a name.
#[derive(Debug, Clone, PartialEq, Eq)]
pub struct Parameters {
    pub name: String,
    pub parameters: Vec<(String, String)>,
}

/// A call of a method, for the client with the given id (none for the
/// calls that need no client).
#[derive(Debug, Clone, PartialEq, Eq)]
pub struct Invocation {
    pub client_id: Option<u64>,
    pub parameters: Parameters,
}

/// The message that invokes a method of the core.
#[derive(Debug, Clone, PartialEq, Eq)]
pub struct InvokeConfig {
    pub invocation: Invocation,
}

/// The method's name and the parameters by name and JSON text.
pub open spec fn parameters_view(p: Parameters) -> (Seq<char>, Seq<(Seq<char>, Seq<char>)>) {
    (p.name@, entry_views(p.parameters@))
}

/// Whether no two parameters share a name: the parameters are a map from
/// names to values.
pub open spec fn distinct_names(entries: Seq<(Seq<char>, Seq<char>)>) -> bool {
    forall|i: int, j: int|
        #![trigger entries[i], entries[j]]
        0 <= i < j < entries.len() ==> entries[i].0 != entries[j].0
}

/// The JSON text of a method call: its name and an object of its parameters.
pub open spec fn parameters_text(p: Parameters) -> Seq<char> {
    json_object_text(
        seq![
            ("name"@, json_string_text(p.name@)),
            ("parameters"@, json_object_text(entry_views(p.parameters@))),
        ],
    )
}

/// The JSON text of an invocation: the client id, when there is one, is
/// written before the parameters; without one it is left out.
pub open spec fn invocation_text(inv: Invocation) -> Seq<char> {
    let id: Seq<(Seq<char>, Seq<char>)> = match inv.client_id {
        Some(id) => seq![("clientId"@, decimal_text(id as nat))],
        None => Seq::empty(),
    };
    json_object_text(id + seq![("parameters"@, parameters_text(inv.parameters))])
}

/// The JSON text of the message that invokes a method.
pub open spec fn invoke_config_text(c: InvokeConfig) -> Seq<char> {
    json_object_text(seq![("invocation"@, invocation_text(c.invocation))])
}

/// The text of the error for a message larger than the core accepts.
pub open spec fn size_error_text() -> Seq<char> {
    "message size exceeds the limit of "@ + decimal_text(MESSAGE_LIMIT as nat) + " bytes"@
}

impl Parameters {
    /// Whether no two of the call's parameters share a name.
    pub open spec fn names_distinct(self) -> bool {
        distinct_names(entry_views(self.parameters@))
    }

    /// Whether no two of the call's parameters share a name.
    pub fn has_distinct_names(&self) -> (res: bool)
        ensures
            res == self.names_distinct(),
    {
        let ghost entries = entry_views(self.parameters@);
        let n = self.parameters.len();
        let mut i: usize = 0;
        while i < n
            invariant
                n == self.parameters@.len(),
                entries == entry_views(self.parameters@),
                i <= n,
                forall|a: int, b: int|
                    #![trigger entries[a], entries[b]]
                    0 <= a < i && a < b < n ==> entries[a].0 != entries[b].0,
            decreases n - i,
        {
            let mut j: usize = i + 1;
            while j < n
                invariant
                    n == self.parameters@.len(),
                    entries == entry_views(self.parameters@),
                    i < n,
                    i < j <= n,
                    forall|a: int, b: int|
                        #![trigger entries[a], entries[b]]
                        0 <= a < i && a < b < n ==> entries[a].0 != entries[b].0,
                    forall|b: int| #![trigger entries[b]] i < b < j ==> entries[i as int].0 != entries[b].0,
                decreases n - j,
            {
                if self.parameters[i].0 == self.parameters[j].0 {
                    assert(entries[i as int].0 == entries[j as int].0);
                    return false;
                }
                j = j + 1;
            }
            i = i + 1;
        }
        true
    }

    /// A copy of the method call.
    pub fn duplicate(&self) -> (res: Parameters)
        ensures
            parameters_view(res) == parameters_view(*self),
    {
        let mut copy: Vec<(String, String)> = Vec::new();
        let n = self.parameters.len();
        let mut i: usize = 0;
        while i < n
            invariant
                n == self.parameters@.len(),
                i <= n,
                copy@.len() == i,
                forall|j: int| 0 <= j < i ==> #[trigger] copy@[j] == self.parameters@[j],
            decreases n - i,
        {
            let entry = &self.parameters[i];
            copy.push((entry.0.clone(), entry.1.clone()));
            i = i + 1;
        }
        let res = Parameters { name: self.name.clone(), parameters: copy };
        assert(entry_views(res.parameters@) =~= entry_views(self.parameters@));
        res
    }

    /// The JSON text of the method call.
    pub fn to_json(&self) -> (res: String)
        requires
            self.names_distinct(),
        ensures
            res@ == parameters_text(*self),
    {
        let mut entries: Vec<(String, String)> = Vec::new();
        entries.push(entry("name", json_string(self.name.as_str())));
        entries.push(entry("parameters", json_object(self.parameters.as_slice())));
        assert(entry_views(entries@) =~= seq![
            ("name"@, json_string_text(self.name@)),
            ("parameters"@, json_object_text(entry_views(self.parameters@))),
        ]);
        json_object(entries.as_slice())
    }
}

impl Invocation {
    /// The JSON text of the invocation.
    pub fn to_json(&self) -> (res: String)
        requires
            self.parameters.names_distinct(),
        ensures
            res@ == invocation_text(*self),
    {
        let mut entries: Vec<(String, String)> = Vec::new();
        match self.client_id {
            Some(id) => entries.push(entry("clientId", u64_decimal(id))),
            None => {},
        }
        entries.push(entry("parameters", self.parameters.to_json()));
        let ghost id: Seq<(Seq<char>, Seq<char>)> = match self.client_id {
            Some(id) => seq![("clientId"@, decimal_text(id as nat))],
            None => Seq::empty(),
        };
        assert(entry_views(entries@) =~= id + seq![("parameters"@, parameters_text(self.parameters))]);
        json_object(entries.as_slice())
    }
}

impl InvokeConfig {
    /// The message that calls `parameters` for the client `client_id`.
    pub open spec fn new_spec(client_id: Option<u64>, parameters: Parameters) -> InvokeConfig {
        InvokeConfig { invocation: Invocation { client_id, parameters } }
    }

    /// The message that calls `parameters` for the client `client_id`.
    pub fn new(client_id: Option<u64>, parameters: Parameters) -> (res: InvokeConfig)
        ensures
            res == InvokeConfig::new_spec(client_id, parameters),
    {
        InvokeConfig { invocation: Invocation { client_id, parameters } }
    }

    /// The JSON text of the message.
    pub fn to_json(&self) -> (res: String)
        requires
            self.invocation.parameters.names_distinct(),
        ensures
            res@ == invoke_config_text(*self),
    {
        let mut entries: Vec<(String, String)> = Vec::new();
        entries.push(entry("invocation", self.invocation.to_json()));
        assert(entry_views(entries@) =~= seq![("invocation"@, invocation_text(self.invocation))]);
        json_object(entries.as_slice())
    }
}

/// The message size check of the core: a message over the limit is refused
/// with a configuration error that names the limit.
pub fn check_message_size(message: &[u8]) -> (res: Result<(), SdkError>)
    ensures
        res is Ok <==> message@.len() <= MESSAGE_LIMIT,
        res matches Err(e) ==> e@ == SdkErrorView::Config(size_error_text()),
{
    if message.len() > MESSAGE_LIMIT {
        let mut text = "message size exceeds the limit of ".to_owned();
        text.append(u64_decimal(MESSAGE_LIMIT as u64).as_str());
        text.append(" bytes");
        Err(SdkError::Config(text))
    } else {
        Ok(())
    }
}

/// The bytes sent to the core's `invoke` for this message: its JSON text,
/// unless that is larger than the core accepts.
pub fn prepare_invoke(config: &InvokeConfig) -> (res: Result<Vec<u8>, SdkError>)
    requires
        config.invocation.parameters.names_distinct(),
    ensures
        ({
            let bytes = vstd::utf8::encode_utf8(invoke_config_text(*config));
            &&& res is Ok <==> bytes.len() <= MESSAGE_LIMIT
            &&& res matches Ok(b) ==> b@ == bytes
            &&& res matches Err(e) ==> e@ == SdkErrorView::Config(size_error_text())
        }),
{
    let text = config.to_json();
    let bytes = slice_to_vec(text.as_str().as_bytes());
    match check_message_size(bytes.as_slice()) {
        Ok(()) => Ok(bytes),
        Err(e) => Err(e),
    }
}

/// The text `std::string::FromUtf8Error` displays for bytes that are not
/// UTF-8: where the decoding failed and why.
pub uninterp spec fn utf8_error_display(bytes: Seq<u8>) -> Seq<char>;

/// Decodes bytes as UTF-8 with `String::from_utf8`; a failure gives the
/// text its `FromUtf8Error` displays. Trusted to succeed exactly on valid
/// UTF-8 and then to give the decoded characters; the failure's text is
/// named, as it is a function of the bytes alone.
#[verifier::external_body]
fn string_from_utf8(bytes: Vec<u8>) -> (res: Result<String, String>)
    ensures
        res is Ok <==> valid_utf8(bytes@),
        res matches Ok(s) ==> s@ == decode_utf8(bytes@),
        res matches Err(t) ==> t@ == utf8_error_display(bytes@),
{
    match String::from_utf8(bytes) {
        Ok(s) => Ok(s),
        Err(e) => Err(format!("{e}")),
    }
}

/// The text of a response of the core's `invoke`: the response decoded as
/// UTF-8, or a core error named "InvalidUtf8" when it is not UTF-8, whose
/// message describes the decoding error.
pub fn decode_response(response: Vec<u8>) -> (res: Result<String, SdkError>)
    ensures
        res is Ok <==> valid_utf8(response@),
        res matches Ok(s) ==> s@ == decode_utf8(response@),
        res matches Err(e) ==> e@ == (SdkErrorView::Core {
            name: "InvalidUtf8"@,
            message: invalid_utf8_prefix() + utf8_error_display(response@),
        }),
{
    match string_from_utf8(response) {
        Ok(s) => Ok(s),
        Err(detail) => Err(invalid_utf8_error(detail.as_str())),
    }
}

/// The id of a client that the core's `init_client` returned as JSON.
pub fn decode_client_id(response: &[u8]) -> (res: Result<u64, SdkError>)
    ensures
        res is Ok <==> json_u64_value(response@) is Some,
        res matches Ok(id) ==> json_u64_value(response@) == Some(id),
        res matches Err(e) ==> e@ is Serialization,
{
    match read_json_u64(response) {
        Ok(id) => Ok(id),
        Err(e) => Err(SdkError::Serialization(e)),
    }
}

/// A parameter whose value is the JSON string for `value`.
pub fn string_param(key: &str, value: &str) -> (res: (String, String))
    ensures
        res.0@ == key@,
        res.1@ == json_string_text(value@),
{
    (key.to_owned(), json_string(value))
}

/// A parameter whose value is the given JSON text.
pub fn json_param(key: &str, json: &str) -> (res: (String, String))
    ensures
        res.0@ == key@,
        res.1@ == json@,
{
    (key.to_owned(), json.to_owned())
}

/// The string that a JSON response holds, as the core returns a resolved
/// secret or a share link.
pub fn decode_string_response(text: &str) -> (res: Result<String, SdkError>)
    ensures
        res is Ok <==> json_string_value(text@) is Some,
        res matches Ok(s) ==> json_string_value(text@) == Some(s@),
        res matches Err(e) ==> e@ is Serialization,
{
    match read_json_string(text) {
        Ok(s) => Ok(s),
        Err(e) => Err(SdkError::Serialization(e)),
    }
}

/// The bytes that name a client to the core's `release_client`: the id as
/// a JSON number.
pub fn client_id_message(client_id: u64) -> (res: Vec<u8>)
    ensures
        res@ == vstd::utf8::encode_utf8(decimal_text(client_id as nat)),
{
    let text = u64_decimal(client_id);
    slice_to_vec(text.as_str().as_bytes())
}

} // verus!
