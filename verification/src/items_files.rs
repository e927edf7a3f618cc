//! Requests of the item files API.
//!
//! Each function names the core method and writes its parameters.
use vstd::prelude::*;

use crate::errors::SdkError;
use crate::encode::{Json};
use crate::protocol::{Parameters, json_param, string_param};
use crate::types::{DocumentCreateParams, FileAttributes, FileCreateParams, Item};
use crate::wire::{entry_views, json_byte_array_value, json_string_text, read_json_byte_array};

verus! {

/// Attaches a file to an item.
pub fn attach_request(item: &Item, file_params: &FileCreateParams) -> (res: Parameters)
    ensures
        res.name@ == "ItemsFilesAttach"@,
        res.names_distinct(),
        entry_views(res.parameters@) == seq![
            ("item"@, item.json()),
            ("file_params"@, file_params.json()),
        ],
{
    let mut parameters: Vec<(String, String)> = Vec::new();
    parameters.push(json_param("item", item.to_json().as_str()));
    parameters.push(json_param("file_params", file_params.to_json().as_str()));
    proof {
        reveal_strlit("item");
        reveal_strlit("file_params");
        assert("item"@.len() != "file_params"@.len());
    }
    let res = Parameters { name: "ItemsFilesAttach".to_owned(), parameters };
    assert(entry_views(res.parameters@) =~= seq![
            ("item"@, item.json()),
            ("file_params"@, file_params.json()),
        ]);
    res
}

/// Reads the content of a file of an item.
pub fn read_request(vault_id: &str, item_id: &str, attr: &FileAttributes) -> (res: Parameters)
    ensures
        res.name@ == "ItemsFilesRead"@,
        res.names_distinct(),
        entry_views(res.parameters@) == seq![
            ("vault_id"@, json_string_text(vault_id@)),
            ("item_id"@, json_string_text(item_id@)),
            ("attr"@, attr.json()),
        ],
{
    let mut parameters: Vec<(String, String)> = Vec::new();
    parameters.push(string_param("vault_id", vault_id));
    parameters.push(string_param("item_id", item_id));
    parameters.push(json_param("attr", attr.to_json().as_str()));
    proof {
        reveal_strlit("vault_id");
        reveal_strlit("item_id");
        reveal_strlit("attr");
        assert("vault_id"@.len() != "item_id"@.len());
        assert("vault_id"@.len() != "attr"@.len());
        assert("item_id"@.len() != "attr"@.len());
    }
    let res = Parameters { name: "ItemsFilesRead".to_owned(), parameters };
    assert(entry_views(res.parameters@) =~= seq![
            ("vault_id"@, json_string_text(vault_id@)),
            ("item_id"@, json_string_text(item_id@)),
            ("attr"@, attr.json()),
        ]);
    res
}

/// Deletes a file field of an item.
pub fn delete_request(item: &Item, section_id: &str, field_id: &str) -> (res: Parameters)
    ensures
        res.name@ == "ItemsFilesDelete"@,
        res.names_distinct(),
        entry_views(res.parameters@) == seq![
            ("item"@, item.json()),
            ("section_id"@, json_string_text(section_id@)),
            ("field_id"@, json_string_text(field_id@)),
        ],
{
    let mut parameters: Vec<(String, String)> = Vec::new();
    parameters.push(json_param("item", item.to_json().as_str()));
    parameters.push(string_param("section_id", section_id));
    parameters.push(string_param("field_id", field_id));
    proof {
        reveal_strlit("item");
        reveal_strlit("section_id");
        reveal_strlit("field_id");
        assert("item"@.len() != "section_id"@.len());
        assert("item"@.len() != "field_id"@.len());
        assert("section_id"@.len() != "field_id"@.len());
    }
    let res = Parameters { name: "ItemsFilesDelete".to_owned(), parameters };
    assert(entry_views(res.parameters@) =~= seq![
            ("item"@, item.json()),
            ("section_id"@, json_string_text(section_id@)),
            ("field_id"@, json_string_text(field_id@)),
        ]);
    res
}

/// Replaces the document of a document item.
pub fn replace_document_request(item: &Item, doc_params: &DocumentCreateParams) -> (res: Parameters)
    ensures
        res.name@ == "ItemsFilesReplaceDocument"@,
        res.names_distinct(),
        entry_views(res.parameters@) == seq![
            ("item"@, item.json()),
            ("doc_params"@, doc_params.json()),
        ],
{
    let mut parameters: Vec<(String, String)> = Vec::new();
    parameters.push(json_param("item", item.to_json().as_str()));
    parameters.push(json_param("doc_params", doc_params.to_json().as_str()));
    proof {
        reveal_strlit("item");
        reveal_strlit("doc_params");
        assert("item"@.len() != "doc_params"@.len());
    }
    let res = Parameters { name: "ItemsFilesReplaceDocument".to_owned(), parameters };
    assert(entry_views(res.parameters@) =~= seq![
            ("item"@, item.json()),
            ("doc_params"@, doc_params.json()),
        ]);
    res
}

/// The content of a file, from the JSON array of bytes the core returns.
pub fn decode_file_content(text: &str) -> (res: Result<Vec<u8>, SdkError>)
    ensures
        res is Ok <==> json_byte_array_value(text@) is Some,
        res matches Ok(bytes) ==> json_byte_array_value(text@) == Some(bytes@),
        res matches Err(e) ==> e@ is Serialization,
{
    match read_json_byte_array(text) {
        Ok(bytes) => Ok(bytes),
        Err(e) => Err(SdkError::Serialization(e)),
    }
}

} // verus!
