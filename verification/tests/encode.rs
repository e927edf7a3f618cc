use onepassword_sdk::encode::Json;
use onepassword_sdk::{
    AddressFieldDetails, AutofillBehavior, DocumentCreateParams, FileCreateParams, ItemField,
    ItemFieldDetails, ItemFieldType, ItemListFilter, ItemListFilterByStateInner,
    OTPFieldDetails, PasswordRecipe, PasswordRecipeMemorableInner, PasswordRecipeRandomInner,
    SSHKeyAttributes, SeparatorType, ValidRecipient, ValidRecipientDomainInner,
    ValidRecipientEmailInner, Website, WordListType,
};
use serde_json::Value;

fn numbers(bytes: &[u8]) -> Value {
    Value::Array(bytes.iter().map(|b| Value::from(*b)).collect())
}

#[test]
fn password_recipe_serializes_as_tagged_enum() {
    let recipe = PasswordRecipe::Random(PasswordRecipeRandomInner {
        include_digits: true,
        include_symbols: false,
        length: 20,
    });
    let json = recipe.to_json();
    assert!(json.contains("\"type\":\"Random\""));
    assert!(json.contains("\"parameters\":"));
}

#[test]
fn file_create_params_serializes_content_as_byte_array() {
    let params = FileCreateParams {
        name: "file.txt".to_string(),
        content: b"hello".to_vec(),
        section_id: "section".to_string(),
        field_id: "field".to_string(),
    };

    let value: Value = serde_json::from_str(&params.to_json()).unwrap();
    assert_eq!(value["content"], numbers(&[104, 101, 108, 108, 111]));
    assert_eq!(value["sectionId"], "section");
    assert_eq!(value["fieldId"], "field");
}

#[test]
fn document_create_params_serializes_content_as_byte_array() {
    let params = DocumentCreateParams {
        name: "document.txt".to_string(),
        content: b"document".to_vec(),
    };

    let value: Value = serde_json::from_str(&params.to_json()).unwrap();
    assert_eq!(value["content"], numbers(&[100, 111, 99, 117, 109, 101, 110, 116]));
    assert_eq!(value["name"], "document.txt");
}

#[test]
fn item_field_details_roundtrip() {
    let details = ItemFieldDetails::Otp(OTPFieldDetails {
        code: Some("123456".to_string()),
        error_message: None,
    });
    let value: Value = serde_json::from_str(&details.to_json()).unwrap();
    assert_eq!(value["type"], "Otp");
    assert_eq!(value["content"]["code"], "123456");
    assert!(value["content"].get("errorMessage").is_none());
}

#[test]
fn valid_recipient_roundtrip() {
    let recipient = ValidRecipient::Email(ValidRecipientEmailInner {
        email: "test@example.com".to_string(),
    });
    let json = recipient.to_json();
    assert!(json.contains("\"type\":\"Email\""));
    let value: Value = serde_json::from_str(&json).unwrap();
    assert_eq!(value["parameters"]["email"], "test@example.com");
    let domain = ValidRecipient::Domain(ValidRecipientDomainInner { domain: "example.com".to_string() });
    assert_eq!(domain.to_json(), r#"{"parameters":{"domain":"example.com"},"type":"Domain"}"#);
}

#[test]
fn item_list_filter_roundtrip() {
    let filter = ItemListFilter::ByState(ItemListFilterByStateInner {
        active: true,
        archived: false,
    });
    let value: Value = serde_json::from_str(&filter.to_json()).unwrap();
    assert_eq!(value["type"], "ByState");
    assert_eq!(value["content"]["active"], true);
    assert_eq!(value["content"]["archived"], false);
}

#[test]
fn camel_case_enums_use_lower_camel_names() {
    let recipe = PasswordRecipe::Memorable(PasswordRecipeMemorableInner {
        separator_type: SeparatorType::DigitsAndSymbols,
        capitalize: true,
        word_list_type: WordListType::ThreeLetters,
        word_count: 4,
    });
    assert_eq!(
        recipe.to_json(),
        r#"{"parameters":{"capitalize":true,"separatorType":"digitsAndSymbols","wordCount":4,"wordListType":"threeLetters"},"type":"Memorable"}"#
    );
}

#[test]
fn item_fields_leave_out_absent_values() {
    let field = ItemField {
        id: "username".to_string(),
        title: "Username".to_string(),
        section_id: None,
        field_type: ItemFieldType::Text,
        value: "user@example.com".to_string(),
        details: None,
    };
    assert_eq!(
        field.to_json(),
        r#"{"fieldType":"Text","id":"username","title":"Username","value":"user@example.com"}"#
    );
    let with_details = ItemField {
        section_id: Some("s".to_string()),
        details: Some(ItemFieldDetails::Address(AddressFieldDetails {
            street: "1 Main".to_string(),
            city: "C".to_string(),
            country: "X".to_string(),
            zip: "9".to_string(),
            state: "S".to_string(),
        })),
        ..field
    };
    let value: Value = serde_json::from_str(&with_details.to_json()).unwrap();
    assert_eq!(value["sectionId"], "s");
    assert_eq!(value["details"]["type"], "Address");
    assert_eq!(value["details"]["content"]["zip"], "9");
}

#[test]
fn websites_and_ssh_keys_use_camel_case_fields() {
    let site = Website {
        url: "https://example.com".to_string(),
        label: "site".to_string(),
        autofill_behavior: AutofillBehavior::AnywhereOnWebsite,
    };
    assert_eq!(
        site.to_json(),
        r#"{"autofillBehavior":"AnywhereOnWebsite","label":"site","url":"https://example.com"}"#
    );
    let key = ItemFieldDetails::SshKey(SSHKeyAttributes {
        public_key: "pk".to_string(),
        fingerprint: "fp".to_string(),
        key_type: "ed25519".to_string(),
    });
    assert_eq!(
        key.to_json(),
        r#"{"content":{"fingerprint":"fp","keyType":"ed25519","publicKey":"pk"},"type":"SshKey"}"#
    );
}
