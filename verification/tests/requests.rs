use onepassword_sdk::items_files::decode_file_content;
use onepassword_sdk::protocol::InvokeConfig;
use onepassword_sdk::{
    environments, groups, items, items_files, items_shares, secrets, vaults, AllowedRecipientType,
    AllowedType, DocumentCreateParams, FileAttributes, FileCreateParams, GroupAccess,
    GroupGetParams, GroupVaultAccess, Item, ItemCategory, ItemCreateParams, ItemListFilter,
    ItemListFilterByStateInner, ItemShareAccountPolicy, ItemShareDuration, ItemShareFiles,
    ItemShareParams, PasswordRecipe, PasswordRecipePinInner, Secrets, VaultCreateParams,
    VaultGetParams, VaultListParams, VaultUpdateParams,
};

fn item() -> Item {
    Item {
        id: "i".to_string(),
        title: "T".to_string(),
        category: ItemCategory::Login,
        vault_id: "v".to_string(),
        fields: vec![],
        sections: vec![],
        notes: String::new(),
        tags: vec![],
        websites: vec![],
        version: 1,
        files: vec![],
        document: None,
        created_at: "c".to_string(),
        updated_at: "u".to_string(),
    }
}

fn policy() -> ItemShareAccountPolicy {
    ItemShareAccountPolicy {
        max_expiry: ItemShareDuration::SevenDays,
        default_expiry: ItemShareDuration::OneDay,
        max_views: None,
        allowed_types: vec![AllowedType::Public],
        allowed_recipient_types: vec![AllowedRecipientType::Email],
        files: ItemShareFiles {
            allowed: false,
            max_size: 0,
            allowed_types: None,
            allowed_recipient_types: None,
            max_expiry: None,
            default_expiry: None,
            max_views: None,
        },
    }
}

fn call_json(call: onepassword_sdk::protocol::Parameters) -> String {
    call.to_json()
}

#[test]
fn file_read_response_deserializes_from_byte_array() {
    let parsed: Vec<u8> = decode_file_content("[114,101,115,112,111,110,115,101]").unwrap();
    assert_eq!(parsed, b"response");
}

#[test]
fn file_content_must_be_a_byte_array() {
    assert!(decode_file_content("[300]").is_err());
    assert!(decode_file_content("\"text\"").is_err());
}

#[test]
fn secrets_resolve_request() {
    assert_eq!(
        call_json(secrets::resolve_request("op://vault/item/field")),
        r#"{"name":"SecretsResolve","parameters":{"secret_reference":"op://vault/item/field"}}"#
    );
}

#[test]
fn secrets_resolve_all_request() {
    let refs = vec!["op://v/i/a".to_string(), "op://v/i/b".to_string()];
    assert_eq!(
        call_json(secrets::resolve_all_request(&refs)),
        r#"{"name":"SecretsResolveAll","parameters":{"secret_references":["op://v/i/a","op://v/i/b"]}}"#
    );
}

#[test]
fn standalone_requests_have_no_client() {
    let validate: InvokeConfig = Secrets::validate_secret_reference_request("op://a/b/c");
    assert_eq!(
        validate.to_json(),
        r#"{"invocation":{"parameters":{"name":"ValidateSecretReference","parameters":{"secret_reference":"op://a/b/c"}}}}"#
    );
    let recipe = PasswordRecipe::Pin(PasswordRecipePinInner { length: 6 });
    let generate = Secrets::generate_password_request(&recipe);
    assert!(generate.invocation.client_id.is_none());
    assert_eq!(generate.invocation.parameters.name, "GeneratePassword");
    assert_eq!(
        generate.invocation.parameters.parameters,
        vec![("recipe".to_string(), r#"{"parameters":{"length":6},"type":"Pin"}"#.to_string())]
    );
}

#[test]
fn item_requests_name_their_methods() {
    assert_eq!(
        call_json(items::get_request("v", "i")),
        r#"{"name":"ItemsGet","parameters":{"vault_id":"v","item_id":"i"}}"#
    );
    assert_eq!(items::delete_request("v", "i").name, "ItemsDelete");
    assert_eq!(items::archive_request("v", "i").name, "ItemsArchive");
    let params = ItemCreateParams {
        category: ItemCategory::SecureNote,
        vault_id: "v".to_string(),
        title: "Note".to_string(),
        fields: None,
        sections: None,
        notes: Some("n".to_string()),
        tags: None,
        websites: None,
        files: None,
        document: None,
    };
    assert_eq!(
        call_json(items::create_request(&params)),
        r#"{"name":"ItemsCreate","parameters":{"params":{"category":"SecureNote","notes":"n","title":"Note","vaultId":"v"}}}"#
    );
    assert_eq!(
        items::put_request(&item()).parameters[0].1,
        r#"{"category":"Login","createdAt":"c","fields":[],"files":[],"id":"i","notes":"","sections":[],"tags":[],"title":"T","updatedAt":"u","vaultId":"v","version":1,"websites":[]}"#
    );
    let ids = vec!["a".to_string()];
    assert_eq!(
        call_json(items::get_all_request("v", &ids)),
        r#"{"name":"ItemsGetAll","parameters":{"vault_id":"v","item_ids":["a"]}}"#
    );
    assert_eq!(items::delete_all_request("v", &ids).name, "ItemsDeleteAll");
    assert_eq!(items::create_all_request("v", &[params.clone(), params]).name, "ItemsCreateAll");
    let filter = ItemListFilter::ByState(ItemListFilterByStateInner { active: true, archived: false });
    assert_eq!(
        call_json(items::list_request("v", &[filter])),
        r#"{"name":"ItemsList","parameters":{"vault_id":"v","filters":[{"content":{"active":true,"archived":false},"type":"ByState"}]}}"#
    );
}

#[test]
fn file_and_share_requests_name_their_methods() {
    let file = FileCreateParams {
        name: "f".to_string(),
        content: vec![1, 2],
        section_id: "s".to_string(),
        field_id: "d".to_string(),
    };
    assert_eq!(
        items_files::attach_request(&item(), &file).parameters[1].1,
        r#"{"content":[1,2],"fieldId":"d","name":"f","sectionId":"s"}"#
    );
    let attr = FileAttributes { name: "a.txt".to_string(), id: "x".to_string(), size: 1024 };
    assert_eq!(
        call_json(items_files::read_request("v", "i", &attr)),
        r#"{"name":"ItemsFilesRead","parameters":{"vault_id":"v","item_id":"i","attr":{"id":"x","name":"a.txt","size":1024}}}"#
    );
    assert_eq!(items_files::delete_request(&item(), "s", "f").name, "ItemsFilesDelete");
    let doc = DocumentCreateParams { name: "d".to_string(), content: vec![] };
    assert_eq!(
        items_files::replace_document_request(&item(), &doc).parameters[1].1,
        r#"{"content":[],"name":"d"}"#
    );
    assert_eq!(items_shares::get_account_policy_request("v", "i").name, "ItemsSharesGetAccountPolicy");
    let recipients = vec!["user@example.com".to_string()];
    assert_eq!(
        call_json(items_shares::validate_recipients_request(&policy(), &recipients)),
        r#"{"name":"ItemsSharesValidateRecipients","parameters":{"policy":{"allowedRecipientTypes":["Email"],"allowedTypes":["Public"],"defaultExpiry":"OneDay","files":{"allowed":false,"maxSize":0},"maxExpiry":"SevenDays"},"recipients":["user@example.com"]}}"#
    );
    let share = ItemShareParams { recipients: None, expire_after: None, one_time_only: true };
    let create = items_shares::create_request(&item(), &policy(), &share);
    assert_eq!(create.name, "ItemsSharesCreate");
    assert_eq!(create.parameters[2].1, r#"{"oneTimeOnly":true}"#);
}

#[test]
fn vault_group_and_environment_requests_name_their_methods() {
    let create = VaultCreateParams {
        title: "Eng".to_string(),
        description: None,
        allow_admins_access: Some(true),
    };
    assert_eq!(
        call_json(vaults::create_request(&create)),
        r#"{"name":"VaultsCreate","parameters":{"params":{"allowAdminsAccess":true,"title":"Eng"}}}"#
    );
    assert_eq!(
        call_json(vaults::list_request(&None)),
        r#"{"name":"VaultsList","parameters":{"params":null}}"#
    );
    assert_eq!(
        call_json(vaults::list_request(&Some(VaultListParams { decrypt_details: Some(false) }))),
        r#"{"name":"VaultsList","parameters":{"params":{"decryptDetails":false}}}"#
    );
    assert_eq!(vaults::get_overview_request("v").name, "VaultsGetOverview");
    assert_eq!(
        call_json(vaults::get_request("v", &VaultGetParams { accessors: None })),
        r#"{"name":"VaultsGet","parameters":{"vault_id":"v","vault_params":{}}}"#
    );
    let update = VaultUpdateParams { title: Some("New".to_string()), description: None };
    assert_eq!(vaults::update_request("v", &update).parameters[1].1, r#"{"title":"New"}"#);
    assert_eq!(vaults::delete_request("v").name, "VaultsDelete");
    let grant = GroupAccess { group_id: "g".to_string(), permissions: 160 };
    assert_eq!(
        vaults::grant_group_permissions_request("v", &[grant]).parameters[1].1,
        r#"[{"groupId":"g","permissions":160}]"#
    );
    let change = GroupVaultAccess { vault_id: "v".to_string(), group_id: "g".to_string(), permissions: 32 };
    assert_eq!(
        call_json(vaults::update_group_permissions_request(&[change])),
        r#"{"name":"VaultsUpdateGroupPermissions","parameters":{"group_permissions_list":[{"groupId":"g","permissions":32,"vaultId":"v"}]}}"#
    );
    assert_eq!(
        call_json(vaults::revoke_group_permissions_request("v", "g")),
        r#"{"name":"VaultsRevokeGroupPermissions","parameters":{"vault_id":"v","group_id":"g"}}"#
    );
    assert_eq!(
        call_json(groups::get_request("g", &GroupGetParams { vault_permissions: Some(true) })),
        r#"{"name":"GroupsGet","parameters":{"group_id":"g","group_params":{"vaultPermissions":true}}}"#
    );
    assert_eq!(
        call_json(environments::get_variables_request("e")),
        r#"{"name":"EnvironmentsGetVariables","parameters":{"environment_id":"e"}}"#
    );
}

#[test]
fn a_failed_standalone_core_start_is_a_plugin_error() {
    let start = onepassword_sdk::SdkError::Plugin("failed to initialize WASM plugin: boom".to_string());
    match onepassword_sdk::secrets::standalone_core_error(&start) {
        onepassword_sdk::SdkError::Plugin(m) => assert_eq!(m, "WASM plugin error: failed to initialize WASM plugin: boom"),
        _ => panic!("expected a plugin error"),
    }
}

#[test]
fn every_request_names_each_parameter_once() {
    let calls = vec![
        items::get_request("v", "i"),
        items::get_all_request("v", &["a".to_string()]),
        items_files::read_request(
            "v",
            "i",
            &FileAttributes { name: "a".to_string(), id: "x".to_string(), size: 1 },
        ),
        items_shares::create_request(&item(), &policy(), &ItemShareParams {
            recipients: None,
            expire_after: None,
            one_time_only: true,
        }),
        vaults::revoke_group_permissions_request("v", "g"),
        groups::get_request("g", &GroupGetParams { vault_permissions: None }),
    ];
    for call in &calls {
        assert!(call.has_distinct_names());
    }
    assert!(Secrets::generate_password_request(&PasswordRecipe::Pin(PasswordRecipePinInner {
        length: 6
    }))
    .invocation
    .parameters
    .has_distinct_names());
}

#[test]
fn a_call_that_names_a_parameter_twice_is_recognised() {
    let call = onepassword_sdk::protocol::Parameters {
        name: "ItemsGet".to_string(),
        parameters: vec![
            ("vault_id".to_string(), "\"v\"".to_string()),
            ("item_id".to_string(), "\"i\"".to_string()),
            ("vault_id".to_string(), "\"w\"".to_string()),
        ],
    };
    assert!(!call.has_distinct_names());
}
