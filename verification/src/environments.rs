//! Requests of the environments API.
//!
//! Each function names the core method and writes its parameters.
use vstd::prelude::*;

use crate::protocol::{Parameters, string_param};
use crate::wire::{entry_views, json_string_text};

verus! {

/// Gets the variables of a 1Password environment.
pub fn get_variables_request(environment_id: &str) -> (res: Parameters)
    ensures
        res.name@ == "EnvironmentsGetVariables"@,
        res.names_distinct(),
        entry_views(res.parameters@) == seq![
            ("environment_id"@, json_string_text(environment_id@)),
        ],
{
    let mut parameters: Vec<(String, String)> = Vec::new();
    parameters.push(string_param("environment_id", environment_id));
    let res = Parameters { name: "EnvironmentsGetVariables".to_owned(), parameters };
    assert(entry_views(res.parameters@) =~= seq![
            ("environment_id"@, json_string_text(environment_id@)),
        ]);
    res
}

} // verus!
