//! Requests of the vaults API.
//!
//! Each function names the core method and writes its parameters.
use vstd::prelude::*;

use crate::encode::{Json, element_texts, json_array};
use crate::protocol::{Parameters, json_param, string_param};
use crate::types::{GroupAccess, GroupVaultAccess, VaultCreateParams, VaultGetParams, VaultListParams, VaultUpdateParams};
use crate::wire::{entry_views, json_array_text, json_string_text};

verus! {

/// Creates a vault from its parameters.
pub fn create_request(params: &VaultCreateParams) -> (res: Parameters)
    ensures
        res.name@ == "VaultsCreate"@,
        res.names_distinct(),
        entry_views(res.parameters@) == seq![
            ("params"@, params.json()),
        ],
{
    let mut parameters: Vec<(String, String)> = Vec::new();
    parameters.push(json_param("params", params.to_json().as_str()));
    let res = Parameters { name: "VaultsCreate".to_owned(), parameters };
    assert(entry_views(res.parameters@) =~= seq![
            ("params"@, params.json()),
        ]);
    res
}

/// Lists vaults; absent parameters are sent as `null`.
pub fn list_request(params: &Option<VaultListParams>) -> (res: Parameters)
    ensures
        res.name@ == "VaultsList"@,
        res.names_distinct(),
        entry_views(res.parameters@) == seq![
            ("params"@, params.json()),
        ],
{
    let mut parameters: Vec<(String, String)> = Vec::new();
    parameters.push(json_param("params", params.to_json().as_str()));
    let res = Parameters { name: "VaultsList".to_owned(), parameters };
    assert(entry_views(res.parameters@) =~= seq![
            ("params"@, params.json()),
        ]);
    res
}

/// Gets the overview of a vault.
pub fn get_overview_request(vault_id: &str) -> (res: Parameters)
    ensures
        res.name@ == "VaultsGetOverview"@,
        res.names_distinct(),
        entry_views(res.parameters@) == seq![
            ("vault_id"@, json_string_text(vault_id@)),
        ],
{
    let mut parameters: Vec<(String, String)> = Vec::new();
    parameters.push(string_param("vault_id", vault_id));
    let res = Parameters { name: "VaultsGetOverview".to_owned(), parameters };
    assert(entry_views(res.parameters@) =~= seq![
            ("vault_id"@, json_string_text(vault_id@)),
        ]);
    res
}

/// Gets a vault.
pub fn get_request(vault_id: &str, params: &VaultGetParams) -> (res: Parameters)
    ensures
        res.name@ == "VaultsGet"@,
        res.names_distinct(),
        entry_views(res.parameters@) == seq![
            ("vault_id"@, json_string_text(vault_id@)),
            ("vault_params"@, params.json()),
        ],
{
    let mut parameters: Vec<(String, String)> = Vec::new();
    parameters.push(string_param("vault_id", vault_id));
    parameters.push(json_param("vault_params", params.to_json().as_str()));
    proof {
        reveal_strlit("vault_id");
        reveal_strlit("vault_params");
        assert("vault_id"@.len() != "vault_params"@.len());
    }
    let res = Parameters { name: "VaultsGet".to_owned(), parameters };
    assert(entry_views(res.parameters@) =~= seq![
            ("vault_id"@, json_string_text(vault_id@)),
            ("vault_params"@, params.json()),
        ]);
    res
}

/// Updates a vault.
pub fn update_request(vault_id: &str, params: &VaultUpdateParams) -> (res: Parameters)
    ensures
        res.name@ == "VaultsUpdate"@,
        res.names_distinct(),
        entry_views(res.parameters@) == seq![
            ("vault_id"@, json_string_text(vault_id@)),
            ("params"@, params.json()),
        ],
{
    let mut parameters: Vec<(String, String)> = Vec::new();
    parameters.push(string_param("vault_id", vault_id));
    parameters.push(json_param("params", params.to_json().as_str()));
    proof {
        reveal_strlit("vault_id");
        reveal_strlit("params");
        assert("vault_id"@.len() != "params"@.len());
    }
    let res = Parameters { name: "VaultsUpdate".to_owned(), parameters };
    assert(entry_views(res.parameters@) =~= seq![
            ("vault_id"@, json_string_text(vault_id@)),
            ("params"@, params.json()),
        ]);
    res
}

/// Deletes a vault.
pub fn delete_request(vault_id: &str) -> (res: Parameters)
    ensures
        res.name@ == "VaultsDelete"@,
        res.names_distinct(),
        entry_views(res.parameters@) == seq![
            ("vault_id"@, json_string_text(vault_id@)),
        ],
{
    let mut parameters: Vec<(String, String)> = Vec::new();
    parameters.push(string_param("vault_id", vault_id));
    let res = Parameters { name: "VaultsDelete".to_owned(), parameters };
    assert(entry_views(res.parameters@) =~= seq![
            ("vault_id"@, json_string_text(vault_id@)),
        ]);
    res
}

/// Grants groups permissions on a vault.
pub fn grant_group_permissions_request(vault_id: &str, group_permissions: &[GroupAccess]) -> (res: Parameters)
    ensures
        res.name@ == "VaultsGrantGroupPermissions"@,
        res.names_distinct(),
        entry_views(res.parameters@) == seq![
            ("vault_id"@, json_string_text(vault_id@)),
            ("group_permissions_list"@, json_array_text(element_texts(group_permissions@))),
        ],
{
    let mut parameters: Vec<(String, String)> = Vec::new();
    parameters.push(string_param("vault_id", vault_id));
    parameters.push(json_param("group_permissions_list", json_array(group_permissions).as_str()));
    proof {
        reveal_strlit("vault_id");
        reveal_strlit("group_permissions_list");
        assert("vault_id"@.len() != "group_permissions_list"@.len());
    }
    let res = Parameters { name: "VaultsGrantGroupPermissions".to_owned(), parameters };
    assert(entry_views(res.parameters@) =~= seq![
            ("vault_id"@, json_string_text(vault_id@)),
            ("group_permissions_list"@, json_array_text(element_texts(group_permissions@))),
        ]);
    res
}

/// Changes the permissions of groups on vaults.
pub fn update_group_permissions_request(group_permissions: &[GroupVaultAccess]) -> (res: Parameters)
    ensures
        res.name@ == "VaultsUpdateGroupPermissions"@,
        res.names_distinct(),
        entry_views(res.parameters@) == seq![
            ("group_permissions_list"@, json_array_text(element_texts(group_permissions@))),
        ],
{
    let mut parameters: Vec<(String, String)> = Vec::new();
    parameters.push(json_param("group_permissions_list", json_array(group_permissions).as_str()));
    let res = Parameters { name: "VaultsUpdateGroupPermissions".to_owned(), parameters };
    assert(entry_views(res.parameters@) =~= seq![
            ("group_permissions_list"@, json_array_text(element_texts(group_permissions@))),
        ]);
    res
}

/// Revokes a group's access to a vault.
pub fn revoke_group_permissions_request(vault_id: &str, group_id: &str) -> (res: Parameters)
    ensures
        res.name@ == "VaultsRevokeGroupPermissions"@,
        res.names_distinct(),
        entry_views(res.parameters@) == seq![
            ("vault_id"@, json_string_text(vault_id@)),
            ("group_id"@, json_string_text(group_id@)),
        ],
{
    let mut parameters: Vec<(String, String)> = Vec::new();
    parameters.push(string_param("vault_id", vault_id));
    parameters.push(string_param("group_id", group_id));
    proof {
        reveal_strlit("vault_id");
        reveal_strlit("group_id");
        assert("vault_id"@[0] != "group_id"@[0]);
    }
    let res = Parameters { name: "VaultsRevokeGroupPermissions".to_owned(), parameters };
    assert(entry_views(res.parameters@) =~= seq![
            ("vault_id"@, json_string_text(vault_id@)),
            ("group_id"@, json_string_text(group_id@)),
        ]);
    res
}

} // verus!
