//! Requests of the item sharing API.
//!
//! Each function names the core method and writes its parameters.
use vstd::prelude::*;

use crate::encode::{Json, element_texts, json_array};
use crate::protocol::{Parameters, json_param, string_param};
use crate::types::{Item, ItemShareAccountPolicy, ItemShareParams};
use crate::wire::{entry_views, json_array_text, json_string_text};

verus! {

/// Gets the sharing policy that applies to an item.
pub fn get_account_policy_request(vault_id: &str, item_id: &str) -> (res: Parameters)
    ensures
        res.name@ == "ItemsSharesGetAccountPolicy"@,
        res.names_distinct(),
        entry_views(res.parameters@) == seq![
            ("vault_id"@, json_string_text(vault_id@)),
            ("item_id"@, json_string_text(item_id@)),
        ],
{
    let mut parameters: Vec<(String, String)> = Vec::new();
    parameters.push(string_param("vault_id", vault_id));
    parameters.push(string_param("item_id", item_id));
    proof {
        reveal_strlit("vault_id");
        reveal_strlit("item_id");
        assert("vault_id"@.len() != "item_id"@.len());
    }
    let res = Parameters { name: "ItemsSharesGetAccountPolicy".to_owned(), parameters };
    assert(entry_views(res.parameters@) =~= seq![
            ("vault_id"@, json_string_text(vault_id@)),
            ("item_id"@, json_string_text(item_id@)),
        ]);
    res
}

/// Checks recipients against a sharing policy.
pub fn validate_recipients_request(policy: &ItemShareAccountPolicy, recipients: &[String]) -> (res: Parameters)
    ensures
        res.name@ == "ItemsSharesValidateRecipients"@,
        res.names_distinct(),
        entry_views(res.parameters@) == seq![
            ("policy"@, policy.json()),
            ("recipients"@, json_array_text(element_texts(recipients@))),
        ],
{
    let mut parameters: Vec<(String, String)> = Vec::new();
    parameters.push(json_param("policy", policy.to_json().as_str()));
    parameters.push(json_param("recipients", json_array(recipients).as_str()));
    proof {
        reveal_strlit("policy");
        reveal_strlit("recipients");
        assert("policy"@.len() != "recipients"@.len());
    }
    let res = Parameters { name: "ItemsSharesValidateRecipients".to_owned(), parameters };
    assert(entry_views(res.parameters@) =~= seq![
            ("policy"@, policy.json()),
            ("recipients"@, json_array_text(element_texts(recipients@))),
        ]);
    res
}

/// Creates a share link for an item.
pub fn create_request(item: &Item, policy: &ItemShareAccountPolicy, params: &ItemShareParams) -> (res: Parameters)
    ensures
        res.name@ == "ItemsSharesCreate"@,
        res.names_distinct(),
        entry_views(res.parameters@) == seq![
            ("item"@, item.json()),
            ("policy"@, policy.json()),
            ("params"@, params.json()),
        ],
{
    let mut parameters: Vec<(String, String)> = Vec::new();
    parameters.push(json_param("item", item.to_json().as_str()));
    parameters.push(json_param("policy", policy.to_json().as_str()));
    parameters.push(json_param("params", params.to_json().as_str()));
    proof {
        reveal_strlit("item");
        reveal_strlit("policy");
        reveal_strlit("params");
        assert("item"@.len() != "policy"@.len());
        assert("item"@.len() != "params"@.len());
        assert("policy"@[1] != "params"@[1]);
    }
    let res = Parameters { name: "ItemsSharesCreate".to_owned(), parameters };
    assert(entry_views(res.parameters@) =~= seq![
            ("item"@, item.json()),
            ("policy"@, policy.json()),
            ("params"@, params.json()),
        ]);
    res
}

} // verus!
