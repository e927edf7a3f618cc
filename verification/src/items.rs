//! Requests of the items API.
//!
//! Each function names the core method and writes its parameters.
use vstd::prelude::*;

use crate::encode::{Json, element_texts, json_array};
use crate::protocol::{Parameters, json_param, string_param};
use crate::types::{Item, ItemCreateParams, ItemListFilter};
use crate::wire::{entry_views, json_array_text, json_string_text};

verus! {

/// Creates an item from its creation parameters.
pub fn create_request(params: &ItemCreateParams) -> (res: Parameters)
    ensures
        res.name@ == "ItemsCreate"@,
        res.names_distinct(),
        entry_views(res.parameters@) == seq![
            ("params"@, params.json()),
        ],
{
    let mut parameters: Vec<(String, String)> = Vec::new();
    parameters.push(json_param("params", params.to_json().as_str()));
    let res = Parameters { name: "ItemsCreate".to_owned(), parameters };
    assert(entry_views(res.parameters@) =~= seq![
            ("params"@, params.json()),
        ]);
    res
}

/// Creates many items in a vault.
pub fn create_all_request(vault_id: &str, params: &[ItemCreateParams]) -> (res: Parameters)
    ensures
        res.name@ == "ItemsCreateAll"@,
        res.names_distinct(),
        entry_views(res.parameters@) == seq![
            ("vault_id"@, json_string_text(vault_id@)),
            ("params"@, json_array_text(element_texts(params@))),
        ],
{
    let mut parameters: Vec<(String, String)> = Vec::new();
    parameters.push(string_param("vault_id", vault_id));
    parameters.push(json_param("params", json_array(params).as_str()));
    proof {
        reveal_strlit("vault_id");
        reveal_strlit("params");
        assert("vault_id"@.len() != "params"@.len());
    }
    let res = Parameters { name: "ItemsCreateAll".to_owned(), parameters };
    assert(entry_views(res.parameters@) =~= seq![
            ("vault_id"@, json_string_text(vault_id@)),
            ("params"@, json_array_text(element_texts(params@))),
        ]);
    res
}

/// Gets an item of a vault.
pub fn get_request(vault_id: &str, item_id: &str) -> (res: Parameters)
    ensures
        res.name@ == "ItemsGet"@,
        res.names_distinct(),
        entry_views(res.parameters@) == seq![
            ("vault_id"@, json_string_text(vault_id@)),
            ("item_id"@, json_string_text(item_id@)),
        ],
{
    let mut parameters: Vec<(String, String)> = Vec::new();
    parameters.push(string_param("vault_id", vault_id));
    parameters.push(string_param("item_id", item_id));
    proof {
        reveal_strlit("vault_id");
        reveal_strlit("item_id");
        assert("vault_id"@.len() != "item_id"@.len());
    }
    let res = Parameters { name: "ItemsGet".to_owned(), parameters };
    assert(entry_views(res.parameters@) =~= seq![
            ("vault_id"@, json_string_text(vault_id@)),
            ("item_id"@, json_string_text(item_id@)),
        ]);
    res
}

/// Gets many items of a vault.
pub fn get_all_request(vault_id: &str, item_ids: &[String]) -> (res: Parameters)
    ensures
        res.name@ == "ItemsGetAll"@,
        res.names_distinct(),
        entry_views(res.parameters@) == seq![
            ("vault_id"@, json_string_text(vault_id@)),
            ("item_ids"@, json_array_text(element_texts(item_ids@))),
        ],
{
    let mut parameters: Vec<(String, String)> = Vec::new();
    parameters.push(string_param("vault_id", vault_id));
    parameters.push(json_param("item_ids", json_array(item_ids).as_str()));
    proof {
        reveal_strlit("vault_id");
        reveal_strlit("item_ids");
        assert("vault_id"@[0] != "item_ids"@[0]);
    }
    let res = Parameters { name: "ItemsGetAll".to_owned(), parameters };
    assert(entry_views(res.parameters@) =~= seq![
            ("vault_id"@, json_string_text(vault_id@)),
            ("item_ids"@, json_array_text(element_texts(item_ids@))),
        ]);
    res
}

/// Replaces an item with the given one.
pub fn put_request(item: &Item) -> (res: Parameters)
    ensures
        res.name@ == "ItemsPut"@,
        res.names_distinct(),
        entry_views(res.parameters@) == seq![
            ("item"@, item.json()),
        ],
{
    let mut parameters: Vec<(String, String)> = Vec::new();
    parameters.push(json_param("item", item.to_json().as_str()));
    let res = Parameters { name: "ItemsPut".to_owned(), parameters };
    assert(entry_views(res.parameters@) =~= seq![
            ("item"@, item.json()),
        ]);
    res
}

/// Deletes an item of a vault.
pub fn delete_request(vault_id: &str, item_id: &str) -> (res: Parameters)
    ensures
        res.name@ == "ItemsDelete"@,
        res.names_distinct(),
        entry_views(res.parameters@) == seq![
            ("vault_id"@, json_string_text(vault_id@)),
            ("item_id"@, json_string_text(item_id@)),
        ],
{
    let mut parameters: Vec<(String, String)> = Vec::new();
    parameters.push(string_param("vault_id", vault_id));
    parameters.push(string_param("item_id", item_id));
    proof {
        reveal_strlit("vault_id");
        reveal_strlit("item_id");
        assert("vault_id"@.len() != "item_id"@.len());
    }
    let res = Parameters { name: "ItemsDelete".to_owned(), parameters };
    assert(entry_views(res.parameters@) =~= seq![
            ("vault_id"@, json_string_text(vault_id@)),
            ("item_id"@, json_string_text(item_id@)),
        ]);
    res
}

/// Deletes many items of a vault.
pub fn delete_all_request(vault_id: &str, item_ids: &[String]) -> (res: Parameters)
    ensures
        res.name@ == "ItemsDeleteAll"@,
        res.names_distinct(),
        entry_views(res.parameters@) == seq![
            ("vault_id"@, json_string_text(vault_id@)),
            ("item_ids"@, json_array_text(element_texts(item_ids@))),
        ],
{
    let mut parameters: Vec<(String, String)> = Vec::new();
    parameters.push(string_param("vault_id", vault_id));
    parameters.push(json_param("item_ids", json_array(item_ids).as_str()));
    proof {
        reveal_strlit("vault_id");
        reveal_strlit("item_ids");
        assert("vault_id"@[0] != "item_ids"@[0]);
    }
    let res = Parameters { name: "ItemsDeleteAll".to_owned(), parameters };
    assert(entry_views(res.parameters@) =~= seq![
            ("vault_id"@, json_string_text(vault_id@)),
            ("item_ids"@, json_array_text(element_texts(item_ids@))),
        ]);
    res
}

/// Archives an item of a vault.
pub fn archive_request(vault_id: &str, item_id: &str) -> (res: Parameters)
    ensures
        res.name@ == "ItemsArchive"@,
        res.names_distinct(),
        entry_views(res.parameters@) == seq![
            ("vault_id"@, json_string_text(vault_id@)),
            ("item_id"@, json_string_text(item_id@)),
        ],
{
    let mut parameters: Vec<(String, String)> = Vec::new();
    parameters.push(string_param("vault_id", vault_id));
    parameters.push(string_param("item_id", item_id));
    proof {
        reveal_strlit("vault_id");
        reveal_strlit("item_id");
        assert("vault_id"@.len() != "item_id"@.len());
    }
    let res = Parameters { name: "ItemsArchive".to_owned(), parameters };
    assert(entry_views(res.parameters@) =~= seq![
            ("vault_id"@, json_string_text(vault_id@)),
            ("item_id"@, json_string_text(item_id@)),
        ]);
    res
}

/// Lists the items of a vault that pass the filters.
pub fn list_request(vault_id: &str, filters: &[ItemListFilter]) -> (res: Parameters)
    ensures
        res.name@ == "ItemsList"@,
        res.names_distinct(),
        entry_views(res.parameters@) == seq![
            ("vault_id"@, json_string_text(vault_id@)),
            ("filters"@, json_array_text(element_texts(filters@))),
        ],
{
    let mut parameters: Vec<(String, String)> = Vec::new();
    parameters.push(string_param("vault_id", vault_id));
    parameters.push(json_param("filters", json_array(filters).as_str()));
    proof {
        reveal_strlit("vault_id");
        reveal_strlit("filters");
        assert("vault_id"@.len() != "filters"@.len());
    }
    let res = Parameters { name: "ItemsList".to_owned(), parameters };
    assert(entry_views(res.parameters@) =~= seq![
            ("vault_id"@, json_string_text(vault_id@)),
            ("filters"@, json_array_text(element_texts(filters@))),
        ]);
    res
}

} // verus!
