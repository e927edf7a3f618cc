//! Requests of the groups API.
//!
//! Each function names the core method and writes its parameters.
use vstd::prelude::*;

use crate::encode::{Json};
use crate::protocol::{Parameters, json_param, string_param};
use crate::types::{GroupGetParams};
use crate::wire::{entry_views, json_string_text};

verus! {

/// Gets a group.
pub fn get_request(group_id: &str, params: &GroupGetParams) -> (res: Parameters)
    ensures
        res.name@ == "GroupsGet"@,
        res.names_distinct(),
        entry_views(res.parameters@) == seq![
            ("group_id"@, json_string_text(group_id@)),
            ("group_params"@, params.json()),
        ],
{
    let mut parameters: Vec<(String, String)> = Vec::new();
    parameters.push(string_param("group_id", group_id));
    parameters.push(json_param("group_params", params.to_json().as_str()));
    proof {
        reveal_strlit("group_id");
        reveal_strlit("group_params");
        assert("group_id"@.len() != "group_params"@.len());
    }
    let res = Parameters { name: "GroupsGet".to_owned(), parameters };
    assert(entry_views(res.parameters@) =~= seq![
            ("group_id"@, json_string_text(group_id@)),
            ("group_params"@, params.json()),
        ]);
    res
}

} // verus!
