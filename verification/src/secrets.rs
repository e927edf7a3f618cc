//! Requests of the secrets API: resolving secret references, alone or
//! many at once, validating them and generating passwords.
//!
//! Each function names the core method and writes its parameters.
use vstd::prelude::*;

use crate::errors::{display_prefix, display_view, SdkError, SdkErrorView};
use crate::encode::{Json, element_texts, json_array};
use crate::protocol::{InvokeConfig, Parameters, json_param, string_param};
use crate::types::{PasswordRecipe};
use crate::wire::{entry_views, json_array_text, json_string_text};

verus! {

/// Resolves a secret reference such as `op://vault/item/field`.
pub fn resolve_request(secret_reference: &str) -> (res: Parameters)
    ensures
        res.name@ == "SecretsResolve"@,
        res.names_distinct(),
        entry_views(res.parameters@) == seq![
            ("secret_reference"@, json_string_text(secret_reference@)),
        ],
{
    let mut parameters: Vec<(String, String)> = Vec::new();
    parameters.push(string_param("secret_reference", secret_reference));
    let res = Parameters { name: "SecretsResolve".to_owned(), parameters };
    assert(entry_views(res.parameters@) =~= seq![
            ("secret_reference"@, json_string_text(secret_reference@)),
        ]);
    res
}

/// Resolves many secret references in one call.
pub fn resolve_all_request(secret_references: &[String]) -> (res: Parameters)
    ensures
        res.name@ == "SecretsResolveAll"@,
        res.names_distinct(),
        entry_views(res.parameters@) == seq![
            ("secret_references"@, json_array_text(element_texts(secret_references@))),
        ],
{
    let mut parameters: Vec<(String, String)> = Vec::new();
    parameters.push(json_param("secret_references", json_array(secret_references).as_str()));
    let res = Parameters { name: "SecretsResolveAll".to_owned(), parameters };
    assert(entry_views(res.parameters@) =~= seq![
            ("secret_references"@, json_array_text(element_texts(secret_references@))),
        ]);
    res
}

/// The error every call that needs no client returns when the core for such
/// calls could not be started: a plugin error whose message is the display
/// text of the error the start failed with.
pub fn standalone_core_error(start_error: &SdkError) -> (res: SdkError)
    ensures
        res@ matches SdkErrorView::Plugin(m) && (start_error@ is Serialization ==> m.take(
            display_prefix(start_error@).len() as int,
        ) == display_prefix(start_error@)) && (!(start_error@ is Serialization) ==> m
            == display_view(start_error@)),
{
    SdkError::Plugin(start_error.display_text())
}

/// The secret utilities that need no client: they call the core without a
/// client id.
pub struct Secrets;

impl Secrets {
    /// The message that checks a secret reference's syntax without
    /// resolving it.
    pub fn validate_secret_reference_request(secret_reference: &str) -> (res: InvokeConfig)
        ensures
            res.invocation.client_id is None,
            res.invocation.parameters.name@ == "ValidateSecretReference"@,
            res.invocation.parameters.names_distinct(),
            entry_views(res.invocation.parameters.parameters@) == seq![
                ("secret_reference"@, json_string_text(secret_reference@)),
            ],
    {
        let mut parameters: Vec<(String, String)> = Vec::new();
        parameters.push(string_param("secret_reference", secret_reference));
        let call = Parameters { name: "ValidateSecretReference".to_owned(), parameters };
        assert(entry_views(call.parameters@) =~= seq![
            ("secret_reference"@, json_string_text(secret_reference@)),
        ]);
        InvokeConfig::new(None, call)
    }

    /// The message that generates a password from a recipe.
    pub fn generate_password_request(recipe: &PasswordRecipe) -> (res: InvokeConfig)
        ensures
            res.invocation.client_id is None,
            res.invocation.parameters.name@ == "GeneratePassword"@,
            res.invocation.parameters.names_distinct(),
            entry_views(res.invocation.parameters.parameters@) == seq![("recipe"@, recipe.json())],
    {
        let mut parameters: Vec<(String, String)> = Vec::new();
        parameters.push(json_param("recipe", recipe.to_json().as_str()));
        let call = Parameters { name: "GeneratePassword".to_owned(), parameters };
        assert(entry_views(call.parameters@) =~= seq![("recipe"@, recipe.json())]);
        InvokeConfig::new(None, call)
    }
}

} // verus!
