//! What the JSON forms of the request values say, stated over the values
//! themselves: each member holds the value of its own field under its own
//! wire name, and each enum variant is written as its own name.
use vstd::prelude::*;

use crate::encode::{element_texts, with_member, with_optional_member, Json};
use crate::types::{
    AddressFieldDetails, AllowedRecipientType, AllowedType, AutofillBehavior, DocumentCreateParams, FileAttributes, FileCreateParams, GroupAccess, GroupGetParams, GroupVaultAccess, Item, ItemCategory, ItemCreateParams, ItemField, ItemFieldDetails, ItemFieldType, ItemFile, ItemListFilter, ItemListFilterByStateInner, ItemSection, ItemShareAccountPolicy, ItemShareDuration, ItemShareFiles, ItemShareParams, OTPFieldDetails, PasswordRecipe, PasswordRecipeMemorableInner, PasswordRecipePinInner, PasswordRecipeRandomInner, SSHKeyAttributes, SeparatorType, ValidRecipient, ValidRecipientDomainInner, ValidRecipientEmailInner, VaultCreateParams, VaultGetParams, VaultListParams, VaultUpdateParams, Website, WordListType,
};
use crate::wire::{decimal_text, escaped_text, json_array_text, json_object_text, json_string_text};

verus! {

/// A character that stands as it is inside a JSON string.
pub open spec fn plain_char(c: char) -> bool {
    c != '"' && c != '\\' && c as int >= 32
}

/// The JSON text of a boolean.
pub open spec fn bool_text(b: bool) -> Seq<char> {
    if b {
        "true"@
    } else {
        "false"@
    }
}

/// A string of plain characters is written between quotes unchanged.
pub proof fn lemma_plain_text_is_written_unchanged(s: Seq<char>)
    requires
        forall|i: int| 0 <= i < s.len() ==> plain_char(#[trigger] s[i]),
    ensures
        escaped_text(s) == s,
        json_string_text(s) == seq!['"'] + s + seq!['"'],
    decreases s.len(),
{
    if s.len() > 0 {
        let init = s.drop_last();
        assert forall|i: int| 0 <= i < init.len() implies plain_char(#[trigger] init[i]) by {
            assert(init[i] == s[i]);
        }
        lemma_plain_text_is_written_unchanged(init);
        assert(init + seq![s.last()] =~= s);
    }
}

/// A `AddressFieldDetails` is written as the object of its fields' values under their
/// wire names, in the order of the names: `city`, `country`, `state`, `street`, `zip`; each value is written
/// from its own field.
pub proof fn lemma_address_field_details_json(x: AddressFieldDetails)
    ensures
        x.json() == json_object_text(seq![("city"@, json_string_text(x.city@)), ("country"@, json_string_text(x.country@)), ("state"@, json_string_text(x.state@)), ("street"@, json_string_text(x.street@)), ("zip"@, json_string_text(x.zip@))]),
{
    let spec_members = Seq::empty();
    let spec_members = with_member(spec_members, "city"@, x.city.json());
    let spec_members = with_member(spec_members, "country"@, x.country.json());
    let spec_members = with_member(spec_members, "state"@, x.state.json());
    let spec_members = with_member(spec_members, "street"@, x.street.json());
    let spec_members = with_member(spec_members, "zip"@, x.zip.json());
    assert(spec_members =~= (seq![("city"@, json_string_text(x.city@)), ("country"@, json_string_text(x.country@)), ("state"@, json_string_text(x.state@)), ("street"@, json_string_text(x.street@)), ("zip"@, json_string_text(x.zip@))]));
}

/// A `DocumentCreateParams` is written as the object of its fields' values under their
/// wire names, in the order of the names: `content`, `name`; each value is written
/// from its own field.
pub proof fn lemma_document_create_params_json(x: DocumentCreateParams)
    ensures
        x.json() == json_object_text(seq![("content"@, json_array_text(Seq::new(x.content@.len(), |i: int| decimal_text(x.content@[i] as nat)))), ("name"@, json_string_text(x.name@))]),
{
    let spec_members = Seq::empty();
    let spec_members = with_member(spec_members, "content"@, x.content.json());
    let spec_members = with_member(spec_members, "name"@, x.name.json());
    assert(element_texts(x.content@) =~= Seq::new(x.content@.len(), |i: int| decimal_text(x.content@[i] as nat)));
    assert(spec_members =~= (seq![("content"@, json_array_text(Seq::new(x.content@.len(), |i: int| decimal_text(x.content@[i] as nat)))), ("name"@, json_string_text(x.name@))]));
}

/// A `FileAttributes` is written as the object of its fields' values under their
/// wire names, in the order of the names: `id`, `name`, `size`; each value is written
/// from its own field.
pub proof fn lemma_file_attributes_json(x: FileAttributes)
    ensures
        x.json() == json_object_text(seq![("id"@, json_string_text(x.id@)), ("name"@, json_string_text(x.name@)), ("size"@, decimal_text(x.size as nat))]),
{
    let spec_members = Seq::empty();
    let spec_members = with_member(spec_members, "id"@, x.id.json());
    let spec_members = with_member(spec_members, "name"@, x.name.json());
    let spec_members = with_member(spec_members, "size"@, x.size.json());
    assert(spec_members =~= (seq![("id"@, json_string_text(x.id@)), ("name"@, json_string_text(x.name@)), ("size"@, decimal_text(x.size as nat))]));
}

/// A `FileCreateParams` is written as the object of its fields' values under their
/// wire names, in the order of the names: `content`, `fieldId`, `name`, `sectionId`; each value is written
/// from its own field.
pub proof fn lemma_file_create_params_json(x: FileCreateParams)
    ensures
        x.json() == json_object_text(seq![("content"@, json_array_text(Seq::new(x.content@.len(), |i: int| decimal_text(x.content@[i] as nat)))), ("fieldId"@, json_string_text(x.field_id@)), ("name"@, json_string_text(x.name@)), ("sectionId"@, json_string_text(x.section_id@))]),
{
    let spec_members = Seq::empty();
    let spec_members = with_member(spec_members, "content"@, x.content.json());
    let spec_members = with_member(spec_members, "fieldId"@, x.field_id.json());
    let spec_members = with_member(spec_members, "name"@, x.name.json());
    let spec_members = with_member(spec_members, "sectionId"@, x.section_id.json());
    assert(element_texts(x.content@) =~= Seq::new(x.content@.len(), |i: int| decimal_text(x.content@[i] as nat)));
    assert(spec_members =~= (seq![("content"@, json_array_text(Seq::new(x.content@.len(), |i: int| decimal_text(x.content@[i] as nat)))), ("fieldId"@, json_string_text(x.field_id@)), ("name"@, json_string_text(x.name@)), ("sectionId"@, json_string_text(x.section_id@))]));
}

/// Each `SeparatorType` is written as the JSON string of its own name.
pub proof fn lemma_separator_type_json(x: SeparatorType)
    ensures
        x.json() == match x {
            SeparatorType::Digits => "\"digits\""@,
            SeparatorType::DigitsAndSymbols => "\"digitsAndSymbols\""@,
            SeparatorType::Spaces => "\"spaces\""@,
            SeparatorType::Hyphens => "\"hyphens\""@,
            SeparatorType::Underscores => "\"underscores\""@,
            SeparatorType::Periods => "\"periods\""@,
            SeparatorType::Commas => "\"commas\""@,
        },
{
    match x {
        SeparatorType::Digits => {
            reveal_strlit("digits");
            reveal_strlit("\"digits\"");
            lemma_plain_text_is_written_unchanged("digits"@);
            assert(seq!['"'] + "digits"@ + seq!['"'] =~= "\"digits\""@);
        },
        SeparatorType::DigitsAndSymbols => {
            reveal_strlit("digitsAndSymbols");
            reveal_strlit("\"digitsAndSymbols\"");
            lemma_plain_text_is_written_unchanged("digitsAndSymbols"@);
            assert(seq!['"'] + "digitsAndSymbols"@ + seq!['"'] =~= "\"digitsAndSymbols\""@);
        },
        SeparatorType::Spaces => {
            reveal_strlit("spaces");
            reveal_strlit("\"spaces\"");
            lemma_plain_text_is_written_unchanged("spaces"@);
            assert(seq!['"'] + "spaces"@ + seq!['"'] =~= "\"spaces\""@);
        },
        SeparatorType::Hyphens => {
            reveal_strlit("hyphens");
            reveal_strlit("\"hyphens\"");
            lemma_plain_text_is_written_unchanged("hyphens"@);
            assert(seq!['"'] + "hyphens"@ + seq!['"'] =~= "\"hyphens\""@);
        },
        SeparatorType::Underscores => {
            reveal_strlit("underscores");
            reveal_strlit("\"underscores\"");
            lemma_plain_text_is_written_unchanged("underscores"@);
            assert(seq!['"'] + "underscores"@ + seq!['"'] =~= "\"underscores\""@);
        },
        SeparatorType::Periods => {
            reveal_strlit("periods");
            reveal_strlit("\"periods\"");
            lemma_plain_text_is_written_unchanged("periods"@);
            assert(seq!['"'] + "periods"@ + seq!['"'] =~= "\"periods\""@);
        },
        SeparatorType::Commas => {
            reveal_strlit("commas");
            reveal_strlit("\"commas\"");
            lemma_plain_text_is_written_unchanged("commas"@);
            assert(seq!['"'] + "commas"@ + seq!['"'] =~= "\"commas\""@);
        },
    }
}

/// Distinct `SeparatorType` values are written as distinct JSON texts.
pub proof fn lemma_separator_type_json_tells_apart(a: SeparatorType, b: SeparatorType)
    ensures
        a.json() == b.json() ==> a == b,
{
    lemma_separator_type_json(a);
    lemma_separator_type_json(b);
    reveal_strlit("\"digits\"");
    reveal_strlit("\"digitsAndSymbols\"");
    reveal_strlit("\"spaces\"");
    reveal_strlit("\"hyphens\"");
    reveal_strlit("\"underscores\"");
    reveal_strlit("\"periods\"");
    reveal_strlit("\"commas\"");
    assert("\"digits\""@.len() == 8);
    assert("\"digitsAndSymbols\""@.len() == 18);
    assert("\"spaces\""@.len() == 8);
    assert("\"hyphens\""@.len() == 9);
    assert("\"underscores\""@.len() == 13);
    assert("\"periods\""@.len() == 9);
    assert("\"commas\""@.len() == 8);
    assert("\"digits\""@[1] != "\"spaces\""@[1]);
    assert("\"digits\""@[1] != "\"commas\""@[1]);
    assert("\"spaces\""@[1] != "\"commas\""@[1]);
    assert("\"hyphens\""@[1] != "\"periods\""@[1]);
}

/// Each `WordListType` is written as the JSON string of its own name.
pub proof fn lemma_word_list_type_json(x: WordListType)
    ensures
        x.json() == match x {
            WordListType::FullWords => "\"fullWords\""@,
            WordListType::Syllables => "\"syllables\""@,
            WordListType::ThreeLetters => "\"threeLetters\""@,
        },
{
    match x {
        WordListType::FullWords => {
            reveal_strlit("fullWords");
            reveal_strlit("\"fullWords\"");
            lemma_plain_text_is_written_unchanged("fullWords"@);
            assert(seq!['"'] + "fullWords"@ + seq!['"'] =~= "\"fullWords\""@);
        },
        WordListType::Syllables => {
            reveal_strlit("syllables");
            reveal_strlit("\"syllables\"");
            lemma_plain_text_is_written_unchanged("syllables"@);
            assert(seq!['"'] + "syllables"@ + seq!['"'] =~= "\"syllables\""@);
        },
        WordListType::ThreeLetters => {
            reveal_strlit("threeLetters");
            reveal_strlit("\"threeLetters\"");
            lemma_plain_text_is_written_unchanged("threeLetters"@);
            assert(seq!['"'] + "threeLetters"@ + seq!['"'] =~= "\"threeLetters\""@);
        },
    }
}

/// Distinct `WordListType` values are written as distinct JSON texts.
pub proof fn lemma_word_list_type_json_tells_apart(a: WordListType, b: WordListType)
    ensures
        a.json() == b.json() ==> a == b,
{
    lemma_word_list_type_json(a);
    lemma_word_list_type_json(b);
    reveal_strlit("\"fullWords\"");
    reveal_strlit("\"syllables\"");
    reveal_strlit("\"threeLetters\"");
    assert("\"fullWords\""@.len() == 11);
    assert("\"syllables\""@.len() == 11);
    assert("\"threeLetters\""@.len() == 14);
    assert("\"fullWords\""@[1] != "\"syllables\""@[1]);
}

/// A `PasswordRecipeMemorableInner` is written as the object of its fields' values under their
/// wire names, in the order of the names: `capitalize`, `separatorType`, `wordCount`, `wordListType`; each value is written
/// from its own field.
pub proof fn lemma_password_recipe_memorable_inner_json(x: PasswordRecipeMemorableInner)
    ensures
        x.json() == json_object_text(seq![("capitalize"@, bool_text(x.capitalize)), ("separatorType"@, x.separator_type.json()), ("wordCount"@, decimal_text(x.word_count as nat)), ("wordListType"@, x.word_list_type.json())]),
{
    let spec_members = Seq::empty();
    let spec_members = with_member(spec_members, "capitalize"@, x.capitalize.json());
    let spec_members = with_member(spec_members, "separatorType"@, x.separator_type.json());
    let spec_members = with_member(spec_members, "wordCount"@, x.word_count.json());
    let spec_members = with_member(spec_members, "wordListType"@, x.word_list_type.json());
    assert(spec_members =~= (seq![("capitalize"@, bool_text(x.capitalize)), ("separatorType"@, x.separator_type.json()), ("wordCount"@, decimal_text(x.word_count as nat)), ("wordListType"@, x.word_list_type.json())]));
}

/// A `PasswordRecipePinInner` is written as the object of its fields' values under their
/// wire names, in the order of the names: `length`; each value is written
/// from its own field.
pub proof fn lemma_password_recipe_pin_inner_json(x: PasswordRecipePinInner)
    ensures
        x.json() == json_object_text(seq![("length"@, decimal_text(x.length as nat))]),
{
    let spec_members = Seq::empty();
    let spec_members = with_member(spec_members, "length"@, x.length.json());
    assert(spec_members =~= (seq![("length"@, decimal_text(x.length as nat))]));
}

/// A `PasswordRecipeRandomInner` is written as the object of its fields' values under their
/// wire names, in the order of the names: `includeDigits`, `includeSymbols`, `length`; each value is written
/// from its own field.
pub proof fn lemma_password_recipe_random_inner_json(x: PasswordRecipeRandomInner)
    ensures
        x.json() == json_object_text(seq![("includeDigits"@, bool_text(x.include_digits)), ("includeSymbols"@, bool_text(x.include_symbols)), ("length"@, decimal_text(x.length as nat))]),
{
    let spec_members = Seq::empty();
    let spec_members = with_member(spec_members, "includeDigits"@, x.include_digits.json());
    let spec_members = with_member(spec_members, "includeSymbols"@, x.include_symbols.json());
    let spec_members = with_member(spec_members, "length"@, x.length.json());
    assert(spec_members =~= (seq![("includeDigits"@, bool_text(x.include_digits)), ("includeSymbols"@, bool_text(x.include_symbols)), ("length"@, decimal_text(x.length as nat))]));
}

/// A `PasswordRecipe` is written as an object of two members: the variant's
/// value under "parameters", then the variant's own name, as a JSON string, under
/// "type".
pub proof fn lemma_password_recipe_json(x: PasswordRecipe)
    ensures
        x.json() == match x {
            PasswordRecipe::Memorable(inner) => json_object_text(seq![("parameters"@, inner.json()), ("type"@, "\"Memorable\""@)]),
            PasswordRecipe::Pin(inner) => json_object_text(seq![("parameters"@, inner.json()), ("type"@, "\"Pin\""@)]),
            PasswordRecipe::Random(inner) => json_object_text(seq![("parameters"@, inner.json()), ("type"@, "\"Random\""@)]),
        },
{
    match x {
        PasswordRecipe::Memorable(inner) => {
            reveal_strlit("Memorable");
            reveal_strlit("\"Memorable\"");
            lemma_plain_text_is_written_unchanged("Memorable"@);
            assert(seq!['"'] + "Memorable"@ + seq!['"'] =~= "\"Memorable\""@);
            assert(with_member(with_member(Seq::empty(), "parameters"@, inner.json()), "type"@, json_string_text("Memorable"@))
                =~= seq![("parameters"@, inner.json()), ("type"@, "\"Memorable\""@)]);
        },
        PasswordRecipe::Pin(inner) => {
            reveal_strlit("Pin");
            reveal_strlit("\"Pin\"");
            lemma_plain_text_is_written_unchanged("Pin"@);
            assert(seq!['"'] + "Pin"@ + seq!['"'] =~= "\"Pin\""@);
            assert(with_member(with_member(Seq::empty(), "parameters"@, inner.json()), "type"@, json_string_text("Pin"@))
                =~= seq![("parameters"@, inner.json()), ("type"@, "\"Pin\""@)]);
        },
        PasswordRecipe::Random(inner) => {
            reveal_strlit("Random");
            reveal_strlit("\"Random\"");
            lemma_plain_text_is_written_unchanged("Random"@);
            assert(seq!['"'] + "Random"@ + seq!['"'] =~= "\"Random\""@);
            assert(with_member(with_member(Seq::empty(), "parameters"@, inner.json()), "type"@, json_string_text("Random"@))
                =~= seq![("parameters"@, inner.json()), ("type"@, "\"Random\""@)]);
        },
    }
}

/// A `SSHKeyAttributes` is written as the object of its fields' values under their
/// wire names, in the order of the names: `fingerprint`, `keyType`, `publicKey`; each value is written
/// from its own field.
pub proof fn lemma_ssh_key_attributes_json(x: SSHKeyAttributes)
    ensures
        x.json() == json_object_text(seq![("fingerprint"@, json_string_text(x.fingerprint@)), ("keyType"@, json_string_text(x.key_type@)), ("publicKey"@, json_string_text(x.public_key@))]),
{
    let spec_members = Seq::empty();
    let spec_members = with_member(spec_members, "fingerprint"@, x.fingerprint.json());
    let spec_members = with_member(spec_members, "keyType"@, x.key_type.json());
    let spec_members = with_member(spec_members, "publicKey"@, x.public_key.json());
    assert(spec_members =~= (seq![("fingerprint"@, json_string_text(x.fingerprint@)), ("keyType"@, json_string_text(x.key_type@)), ("publicKey"@, json_string_text(x.public_key@))]));
}

/// A `OTPFieldDetails` is written as the object of its fields' values under their
/// wire names, in the order of the names: `code`, `errorMessage`; each value is written
/// from its own field. A member for `code`, `errorMessage` stands there exactly when the field holds a value.
pub proof fn lemma_otp_field_details_json(x: OTPFieldDetails)
    ensures
        x.json() == json_object_text((match x.code { Some(v) => seq![("code"@, json_string_text(v@))], None => Seq::empty() })
            + (match x.error_message { Some(v) => seq![("errorMessage"@, json_string_text(v@))], None => Seq::empty() })),
{
    let s1 = with_optional_member(Seq::empty(), "code"@, x.code);
    let l1 = (match x.code { Some(v) => seq![("code"@, json_string_text(v@))], None => Seq::empty() });
    assert(s1 =~= l1);
    let s2 = with_optional_member(s1, "errorMessage"@, x.error_message);
    let l2 = l1 + (match x.error_message { Some(v) => seq![("errorMessage"@, json_string_text(v@))], None => Seq::empty() });
    assert(s2 =~= l2);
}

/// A `ItemFieldDetails` is written as an object of two members: the variant's
/// value under "content", then the variant's own name, as a JSON string, under
/// "type".
pub proof fn lemma_item_field_details_json(x: ItemFieldDetails)
    ensures
        x.json() == match x {
            ItemFieldDetails::Otp(inner) => json_object_text(seq![("content"@, inner.json()), ("type"@, "\"Otp\""@)]),
            ItemFieldDetails::SshKey(inner) => json_object_text(seq![("content"@, inner.json()), ("type"@, "\"SshKey\""@)]),
            ItemFieldDetails::Address(inner) => json_object_text(seq![("content"@, inner.json()), ("type"@, "\"Address\""@)]),
        },
{
    match x {
        ItemFieldDetails::Otp(inner) => {
            reveal_strlit("Otp");
            reveal_strlit("\"Otp\"");
            lemma_plain_text_is_written_unchanged("Otp"@);
            assert(seq!['"'] + "Otp"@ + seq!['"'] =~= "\"Otp\""@);
            assert(with_member(with_member(Seq::empty(), "content"@, inner.json()), "type"@, json_string_text("Otp"@))
                =~= seq![("content"@, inner.json()), ("type"@, "\"Otp\""@)]);
        },
        ItemFieldDetails::SshKey(inner) => {
            reveal_strlit("SshKey");
            reveal_strlit("\"SshKey\"");
            lemma_plain_text_is_written_unchanged("SshKey"@);
            assert(seq!['"'] + "SshKey"@ + seq!['"'] =~= "\"SshKey\""@);
            assert(with_member(with_member(Seq::empty(), "content"@, inner.json()), "type"@, json_string_text("SshKey"@))
                =~= seq![("content"@, inner.json()), ("type"@, "\"SshKey\""@)]);
        },
        ItemFieldDetails::Address(inner) => {
            reveal_strlit("Address");
            reveal_strlit("\"Address\"");
            lemma_plain_text_is_written_unchanged("Address"@);
            assert(seq!['"'] + "Address"@ + seq!['"'] =~= "\"Address\""@);
            assert(with_member(with_member(Seq::empty(), "content"@, inner.json()), "type"@, json_string_text("Address"@))
                =~= seq![("content"@, inner.json()), ("type"@, "\"Address\""@)]);
        },
    }
}

/// Each `ItemCategory` is written as the JSON string of its own name.
pub proof fn lemma_item_category_json(x: ItemCategory)
    ensures
        x.json() == match x {
            ItemCategory::Login => "\"Login\""@,
            ItemCategory::SecureNote => "\"SecureNote\""@,
            ItemCategory::CreditCard => "\"CreditCard\""@,
            ItemCategory::CryptoWallet => "\"CryptoWallet\""@,
            ItemCategory::Identity => "\"Identity\""@,
            ItemCategory::Password => "\"Password\""@,
            ItemCategory::Document => "\"Document\""@,
            ItemCategory::ApiCredentials => "\"ApiCredentials\""@,
            ItemCategory::BankAccount => "\"BankAccount\""@,
            ItemCategory::Database => "\"Database\""@,
            ItemCategory::DriverLicense => "\"DriverLicense\""@,
            ItemCategory::Email => "\"Email\""@,
            ItemCategory::MedicalRecord => "\"MedicalRecord\""@,
            ItemCategory::Membership => "\"Membership\""@,
            ItemCategory::OutdoorLicense => "\"OutdoorLicense\""@,
            ItemCategory::Passport => "\"Passport\""@,
            ItemCategory::Rewards => "\"Rewards\""@,
            ItemCategory::Router => "\"Router\""@,
            ItemCategory::Server => "\"Server\""@,
            ItemCategory::SshKey => "\"SshKey\""@,
            ItemCategory::SocialSecurityNumber => "\"SocialSecurityNumber\""@,
            ItemCategory::SoftwareLicense => "\"SoftwareLicense\""@,
            ItemCategory::Person => "\"Person\""@,
            ItemCategory::Unsupported => "\"Unsupported\""@,
        },
{
    match x {
        ItemCategory::Login => {
            reveal_strlit("Login");
            reveal_strlit("\"Login\"");
            lemma_plain_text_is_written_unchanged("Login"@);
            assert(seq!['"'] + "Login"@ + seq!['"'] =~= "\"Login\""@);
        },
        ItemCategory::SecureNote => {
            reveal_strlit("SecureNote");
            reveal_strlit("\"SecureNote\"");
            lemma_plain_text_is_written_unchanged("SecureNote"@);
            assert(seq!['"'] + "SecureNote"@ + seq!['"'] =~= "\"SecureNote\""@);
        },
        ItemCategory::CreditCard => {
            reveal_strlit("CreditCard");
            reveal_strlit("\"CreditCard\"");
            lemma_plain_text_is_written_unchanged("CreditCard"@);
            assert(seq!['"'] + "CreditCard"@ + seq!['"'] =~= "\"CreditCard\""@);
        },
        ItemCategory::CryptoWallet => {
            reveal_strlit("CryptoWallet");
            reveal_strlit("\"CryptoWallet\"");
            lemma_plain_text_is_written_unchanged("CryptoWallet"@);
            assert(seq!['"'] + "CryptoWallet"@ + seq!['"'] =~= "\"CryptoWallet\""@);
        },
        ItemCategory::Identity => {
            reveal_strlit("Identity");
            reveal_strlit("\"Identity\"");
            lemma_plain_text_is_written_unchanged("Identity"@);
            assert(seq!['"'] + "Identity"@ + seq!['"'] =~= "\"Identity\""@);
        },
        ItemCategory::Password => {
            reveal_strlit("Password");
            reveal_strlit("\"Password\"");
            lemma_plain_text_is_written_unchanged("Password"@);
            assert(seq!['"'] + "Password"@ + seq!['"'] =~= "\"Password\""@);
        },
        ItemCategory::Document => {
            reveal_strlit("Document");
            reveal_strlit("\"Document\"");
            lemma_plain_text_is_written_unchanged("Document"@);
            assert(seq!['"'] + "Document"@ + seq!['"'] =~= "\"Document\""@);
        },
        ItemCategory::ApiCredentials => {
            reveal_strlit("ApiCredentials");
            reveal_strlit("\"ApiCredentials\"");
            lemma_plain_text_is_written_unchanged("ApiCredentials"@);
            assert(seq!['"'] + "ApiCredentials"@ + seq!['"'] =~= "\"ApiCredentials\""@);
        },
        ItemCategory::BankAccount => {
            reveal_strlit("BankAccount");
            reveal_strlit("\"BankAccount\"");
            lemma_plain_text_is_written_unchanged("BankAccount"@);
            assert(seq!['"'] + "BankAccount"@ + seq!['"'] =~= "\"BankAccount\""@);
        },
        ItemCategory::Database => {
            reveal_strlit("Database");
            reveal_strlit("\"Database\"");
            lemma_plain_text_is_written_unchanged("Database"@);
            assert(seq!['"'] + "Database"@ + seq!['"'] =~= "\"Database\""@);
        },
        ItemCategory::DriverLicense => {
            reveal_strlit("DriverLicense");
            reveal_strlit("\"DriverLicense\"");
            lemma_plain_text_is_written_unchanged("DriverLicense"@);
            assert(seq!['"'] + "DriverLicense"@ + seq!['"'] =~= "\"DriverLicense\""@);
        },
        ItemCategory::Email => {
            reveal_strlit("Email");
            reveal_strlit("\"Email\"");
            lemma_plain_text_is_written_unchanged("Email"@);
            assert(seq!['"'] + "Email"@ + seq!['"'] =~= "\"Email\""@);
        },
        ItemCategory::MedicalRecord => {
            reveal_strlit("MedicalRecord");
            reveal_strlit("\"MedicalRecord\"");
            lemma_plain_text_is_written_unchanged("MedicalRecord"@);
            assert(seq!['"'] + "MedicalRecord"@ + seq!['"'] =~= "\"MedicalRecord\""@);
        },
        ItemCategory::Membership => {
            reveal_strlit("Membership");
            reveal_strlit("\"Membership\"");
            lemma_plain_text_is_written_unchanged("Membership"@);
            assert(seq!['"'] + "Membership"@ + seq!['"'] =~= "\"Membership\""@);
        },
        ItemCategory::OutdoorLicense => {
            reveal_strlit("OutdoorLicense");
            reveal_strlit("\"OutdoorLicense\"");
            lemma_plain_text_is_written_unchanged("OutdoorLicense"@);
            assert(seq!['"'] + "OutdoorLicense"@ + seq!['"'] =~= "\"OutdoorLicense\""@);
        },
        ItemCategory::Passport => {
            reveal_strlit("Passport");
            reveal_strlit("\"Passport\"");
            lemma_plain_text_is_written_unchanged("Passport"@);
            assert(seq!['"'] + "Passport"@ + seq!['"'] =~= "\"Passport\""@);
        },
        ItemCategory::Rewards => {
            reveal_strlit("Rewards");
            reveal_strlit("\"Rewards\"");
            lemma_plain_text_is_written_unchanged("Rewards"@);
            assert(seq!['"'] + "Rewards"@ + seq!['"'] =~= "\"Rewards\""@);
        },
        ItemCategory::Router => {
            reveal_strlit("Router");
            reveal_strlit("\"Router\"");
            lemma_plain_text_is_written_unchanged("Router"@);
            assert(seq!['"'] + "Router"@ + seq!['"'] =~= "\"Router\""@);
        },
        ItemCategory::Server => {
            reveal_strlit("Server");
            reveal_strlit("\"Server\"");
            lemma_plain_text_is_written_unchanged("Server"@);
            assert(seq!['"'] + "Server"@ + seq!['"'] =~= "\"Server\""@);
        },
        ItemCategory::SshKey => {
            reveal_strlit("SshKey");
            reveal_strlit("\"SshKey\"");
            lemma_plain_text_is_written_unchanged("SshKey"@);
            assert(seq!['"'] + "SshKey"@ + seq!['"'] =~= "\"SshKey\""@);
        },
        ItemCategory::SocialSecurityNumber => {
            reveal_strlit("SocialSecurityNumber");
            reveal_strlit("\"SocialSecurityNumber\"");
            lemma_plain_text_is_written_unchanged("SocialSecurityNumber"@);
            assert(seq!['"'] + "SocialSecurityNumber"@ + seq!['"'] =~= "\"SocialSecurityNumber\""@);
        },
        ItemCategory::SoftwareLicense => {
            reveal_strlit("SoftwareLicense");
            reveal_strlit("\"SoftwareLicense\"");
            lemma_plain_text_is_written_unchanged("SoftwareLicense"@);
            assert(seq!['"'] + "SoftwareLicense"@ + seq!['"'] =~= "\"SoftwareLicense\""@);
        },
        ItemCategory::Person => {
            reveal_strlit("Person");
            reveal_strlit("\"Person\"");
            lemma_plain_text_is_written_unchanged("Person"@);
            assert(seq!['"'] + "Person"@ + seq!['"'] =~= "\"Person\""@);
        },
        ItemCategory::Unsupported => {
            reveal_strlit("Unsupported");
            reveal_strlit("\"Unsupported\"");
            lemma_plain_text_is_written_unchanged("Unsupported"@);
            assert(seq!['"'] + "Unsupported"@ + seq!['"'] =~= "\"Unsupported\""@);
        },
    }
}

/// Distinct `ItemCategory` values are written as distinct JSON texts.
pub proof fn lemma_item_category_json_tells_apart(a: ItemCategory, b: ItemCategory)
    ensures
        a.json() == b.json() ==> a == b,
{
    lemma_item_category_json(a);
    lemma_item_category_json(b);
    reveal_strlit("\"Login\"");
    reveal_strlit("\"SecureNote\"");
    reveal_strlit("\"CreditCard\"");
    reveal_strlit("\"CryptoWallet\"");
    reveal_strlit("\"Identity\"");
    reveal_strlit("\"Password\"");
    reveal_strlit("\"Document\"");
    reveal_strlit("\"ApiCredentials\"");
    reveal_strlit("\"BankAccount\"");
    reveal_strlit("\"Database\"");
    reveal_strlit("\"DriverLicense\"");
    reveal_strlit("\"Email\"");
    reveal_strlit("\"MedicalRecord\"");
    reveal_strlit("\"Membership\"");
    reveal_strlit("\"OutdoorLicense\"");
    reveal_strlit("\"Passport\"");
    reveal_strlit("\"Rewards\"");
    reveal_strlit("\"Router\"");
    reveal_strlit("\"Server\"");
    reveal_strlit("\"SshKey\"");
    reveal_strlit("\"SocialSecurityNumber\"");
    reveal_strlit("\"SoftwareLicense\"");
    reveal_strlit("\"Person\"");
    reveal_strlit("\"Unsupported\"");
    assert("\"Login\""@.len() == 7);
    assert("\"SecureNote\""@.len() == 12);
    assert("\"CreditCard\""@.len() == 12);
    assert("\"CryptoWallet\""@.len() == 14);
    assert("\"Identity\""@.len() == 10);
    assert("\"Password\""@.len() == 10);
    assert("\"Document\""@.len() == 10);
    assert("\"ApiCredentials\""@.len() == 16);
    assert("\"BankAccount\""@.len() == 13);
    assert("\"Database\""@.len() == 10);
    assert("\"DriverLicense\""@.len() == 15);
    assert("\"Email\""@.len() == 7);
    assert("\"MedicalRecord\""@.len() == 15);
    assert("\"Membership\""@.len() == 12);
    assert("\"OutdoorLicense\""@.len() == 16);
    assert("\"Passport\""@.len() == 10);
    assert("\"Rewards\""@.len() == 9);
    assert("\"Router\""@.len() == 8);
    assert("\"Server\""@.len() == 8);
    assert("\"SshKey\""@.len() == 8);
    assert("\"SocialSecurityNumber\""@.len() == 22);
    assert("\"SoftwareLicense\""@.len() == 17);
    assert("\"Person\""@.len() == 8);
    assert("\"Unsupported\""@.len() == 13);
    assert("\"Login\""@[1] != "\"Email\""@[1]);
    assert("\"SecureNote\""@[1] != "\"CreditCard\""@[1]);
    assert("\"SecureNote\""@[1] != "\"Membership\""@[1]);
    assert("\"CreditCard\""@[1] != "\"Membership\""@[1]);
    assert("\"Identity\""@[1] != "\"Password\""@[1]);
    assert("\"Identity\""@[1] != "\"Document\""@[1]);
    assert("\"Identity\""@[1] != "\"Database\""@[1]);
    assert("\"Identity\""@[1] != "\"Passport\""@[1]);
    assert("\"Password\""@[1] != "\"Document\""@[1]);
    assert("\"Password\""@[1] != "\"Database\""@[1]);
    assert("\"Password\""@[5] != "\"Passport\""@[5]);
    assert("\"Document\""@[2] != "\"Database\""@[2]);
    assert("\"Document\""@[1] != "\"Passport\""@[1]);
    assert("\"ApiCredentials\""@[1] != "\"OutdoorLicense\""@[1]);
    assert("\"BankAccount\""@[1] != "\"Unsupported\""@[1]);
    assert("\"Database\""@[1] != "\"Passport\""@[1]);
    assert("\"DriverLicense\""@[1] != "\"MedicalRecord\""@[1]);
    assert("\"Router\""@[1] != "\"Server\""@[1]);
    assert("\"Router\""@[1] != "\"SshKey\""@[1]);
    assert("\"Router\""@[1] != "\"Person\""@[1]);
    assert("\"Server\""@[2] != "\"SshKey\""@[2]);
    assert("\"Server\""@[1] != "\"Person\""@[1]);
    assert("\"SshKey\""@[1] != "\"Person\""@[1]);
}

/// Each `ItemFieldType` is written as the JSON string of its own name.
pub proof fn lemma_item_field_type_json(x: ItemFieldType)
    ensures
        x.json() == match x {
            ItemFieldType::Text => "\"Text\""@,
            ItemFieldType::Concealed => "\"Concealed\""@,
            ItemFieldType::CreditCardType => "\"CreditCardType\""@,
            ItemFieldType::CreditCardNumber => "\"CreditCardNumber\""@,
            ItemFieldType::Phone => "\"Phone\""@,
            ItemFieldType::Url => "\"Url\""@,
            ItemFieldType::Totp => "\"Totp\""@,
            ItemFieldType::Email => "\"Email\""@,
            ItemFieldType::Reference => "\"Reference\""@,
            ItemFieldType::SshKey => "\"SshKey\""@,
            ItemFieldType::Menu => "\"Menu\""@,
            ItemFieldType::MonthYear => "\"MonthYear\""@,
            ItemFieldType::Address => "\"Address\""@,
            ItemFieldType::Date => "\"Date\""@,
            ItemFieldType::Unsupported => "\"Unsupported\""@,
        },
{
    match x {
        ItemFieldType::Text => {
            reveal_strlit("Text");
            reveal_strlit("\"Text\"");
            lemma_plain_text_is_written_unchanged("Text"@);
            assert(seq!['"'] + "Text"@ + seq!['"'] =~= "\"Text\""@);
        },
        ItemFieldType::Concealed => {
            reveal_strlit("Concealed");
            reveal_strlit("\"Concealed\"");
            lemma_plain_text_is_written_unchanged("Concealed"@);
            assert(seq!['"'] + "Concealed"@ + seq!['"'] =~= "\"Concealed\""@);
        },
        ItemFieldType::CreditCardType => {
            reveal_strlit("CreditCardType");
            reveal_strlit("\"CreditCardType\"");
            lemma_plain_text_is_written_unchanged("CreditCardType"@);
            assert(seq!['"'] + "CreditCardType"@ + seq!['"'] =~= "\"CreditCardType\""@);
        },
        ItemFieldType::CreditCardNumber => {
            reveal_strlit("CreditCardNumber");
            reveal_strlit("\"CreditCardNumber\"");
            lemma_plain_text_is_written_unchanged("CreditCardNumber"@);
            assert(seq!['"'] + "CreditCardNumber"@ + seq!['"'] =~= "\"CreditCardNumber\""@);
        },
        ItemFieldType::Phone => {
            reveal_strlit("Phone");
            reveal_strlit("\"Phone\"");
            lemma_plain_text_is_written_unchanged("Phone"@);
            assert(seq!['"'] + "Phone"@ + seq!['"'] =~= "\"Phone\""@);
        },
        ItemFieldType::Url => {
            reveal_strlit("Url");
            reveal_strlit("\"Url\"");
            lemma_plain_text_is_written_unchanged("Url"@);
            assert(seq!['"'] + "Url"@ + seq!['"'] =~= "\"Url\""@);
        },
        ItemFieldType::Totp => {
            reveal_strlit("Totp");
            reveal_strlit("\"Totp\"");
            lemma_plain_text_is_written_unchanged("Totp"@);
            assert(seq!['"'] + "Totp"@ + seq!['"'] =~= "\"Totp\""@);
        },
        ItemFieldType::Email => {
            reveal_strlit("Email");
            reveal_strlit("\"Email\"");
            lemma_plain_text_is_written_unchanged("Email"@);
            assert(seq!['"'] + "Email"@ + seq!['"'] =~= "\"Email\""@);
        },
        ItemFieldType::Reference => {
            reveal_strlit("Reference");
            reveal_strlit("\"Reference\"");
            lemma_plain_text_is_written_unchanged("Reference"@);
            assert(seq!['"'] + "Reference"@ + seq!['"'] =~= "\"Reference\""@);
        },
        ItemFieldType::SshKey => {
            reveal_strlit("SshKey");
            reveal_strlit("\"SshKey\"");
            lemma_plain_text_is_written_unchanged("SshKey"@);
            assert(seq!['"'] + "SshKey"@ + seq!['"'] =~= "\"SshKey\""@);
        },
        ItemFieldType::Menu => {
            reveal_strlit("Menu");
            reveal_strlit("\"Menu\"");
            lemma_plain_text_is_written_unchanged("Menu"@);
            assert(seq!['"'] + "Menu"@ + seq!['"'] =~= "\"Menu\""@);
        },
        ItemFieldType::MonthYear => {
            reveal_strlit("MonthYear");
            reveal_strlit("\"MonthYear\"");
            lemma_plain_text_is_written_unchanged("MonthYear"@);
            assert(seq!['"'] + "MonthYear"@ + seq!['"'] =~= "\"MonthYear\""@);
        },
        ItemFieldType::Address => {
            reveal_strlit("Address");
            reveal_strlit("\"Address\"");
            lemma_plain_text_is_written_unchanged("Address"@);
            assert(seq!['"'] + "Address"@ + seq!['"'] =~= "\"Address\""@);
        },
        ItemFieldType::Date => {
            reveal_strlit("Date");
            reveal_strlit("\"Date\"");
            lemma_plain_text_is_written_unchanged("Date"@);
            assert(seq!['"'] + "Date"@ + seq!['"'] =~= "\"Date\""@);
        },
        ItemFieldType::Unsupported => {
            reveal_strlit("Unsupported");
            reveal_strlit("\"Unsupported\"");
            lemma_plain_text_is_written_unchanged("Unsupported"@);
            assert(seq!['"'] + "Unsupported"@ + seq!['"'] =~= "\"Unsupported\""@);
        },
    }
}

/// Distinct `ItemFieldType` values are written as distinct JSON texts.
pub proof fn lemma_item_field_type_json_tells_apart(a: ItemFieldType, b: ItemFieldType)
    ensures
        a.json() == b.json() ==> a == b,
{
    lemma_item_field_type_json(a);
    lemma_item_field_type_json(b);
    reveal_strlit("\"Text\"");
    reveal_strlit("\"Concealed\"");
    reveal_strlit("\"CreditCardType\"");
    reveal_strlit("\"CreditCardNumber\"");
    reveal_strlit("\"Phone\"");
    reveal_strlit("\"Url\"");
    reveal_strlit("\"Totp\"");
    reveal_strlit("\"Email\"");
    reveal_strlit("\"Reference\"");
    reveal_strlit("\"SshKey\"");
    reveal_strlit("\"Menu\"");
    reveal_strlit("\"MonthYear\"");
    reveal_strlit("\"Address\"");
    reveal_strlit("\"Date\"");
    reveal_strlit("\"Unsupported\"");
    assert("\"Text\""@.len() == 6);
    assert("\"Concealed\""@.len() == 11);
    assert("\"CreditCardType\""@.len() == 16);
    assert("\"CreditCardNumber\""@.len() == 18);
    assert("\"Phone\""@.len() == 7);
    assert("\"Url\""@.len() == 5);
    assert("\"Totp\""@.len() == 6);
    assert("\"Email\""@.len() == 7);
    assert("\"Reference\""@.len() == 11);
    assert("\"SshKey\""@.len() == 8);
    assert("\"Menu\""@.len() == 6);
    assert("\"MonthYear\""@.len() == 11);
    assert("\"Address\""@.len() == 9);
    assert("\"Date\""@.len() == 6);
    assert("\"Unsupported\""@.len() == 13);
    assert("\"Text\""@[2] != "\"Totp\""@[2]);
    assert("\"Text\""@[1] != "\"Menu\""@[1]);
    assert("\"Text\""@[1] != "\"Date\""@[1]);
    assert("\"Concealed\""@[1] != "\"Reference\""@[1]);
    assert("\"Concealed\""@[1] != "\"MonthYear\""@[1]);
    assert("\"Phone\""@[1] != "\"Email\""@[1]);
    assert("\"Totp\""@[1] != "\"Menu\""@[1]);
    assert("\"Totp\""@[1] != "\"Date\""@[1]);
    assert("\"Reference\""@[1] != "\"MonthYear\""@[1]);
    assert("\"Menu\""@[1] != "\"Date\""@[1]);
}

/// Each `AutofillBehavior` is written as the JSON string of its own name.
pub proof fn lemma_autofill_behavior_json(x: AutofillBehavior)
    ensures
        x.json() == match x {
            AutofillBehavior::AnywhereOnWebsite => "\"AnywhereOnWebsite\""@,
            AutofillBehavior::ExactDomain => "\"ExactDomain\""@,
            AutofillBehavior::Never => "\"Never\""@,
        },
{
    match x {
        AutofillBehavior::AnywhereOnWebsite => {
            reveal_strlit("AnywhereOnWebsite");
            reveal_strlit("\"AnywhereOnWebsite\"");
            lemma_plain_text_is_written_unchanged("AnywhereOnWebsite"@);
            assert(seq!['"'] + "AnywhereOnWebsite"@ + seq!['"'] =~= "\"AnywhereOnWebsite\""@);
        },
        AutofillBehavior::ExactDomain => {
            reveal_strlit("ExactDomain");
            reveal_strlit("\"ExactDomain\"");
            lemma_plain_text_is_written_unchanged("ExactDomain"@);
            assert(seq!['"'] + "ExactDomain"@ + seq!['"'] =~= "\"ExactDomain\""@);
        },
        AutofillBehavior::Never => {
            reveal_strlit("Never");
            reveal_strlit("\"Never\"");
            lemma_plain_text_is_written_unchanged("Never"@);
            assert(seq!['"'] + "Never"@ + seq!['"'] =~= "\"Never\""@);
        },
    }
}

/// Distinct `AutofillBehavior` values are written as distinct JSON texts.
pub proof fn lemma_autofill_behavior_json_tells_apart(a: AutofillBehavior, b: AutofillBehavior)
    ensures
        a.json() == b.json() ==> a == b,
{
    lemma_autofill_behavior_json(a);
    lemma_autofill_behavior_json(b);
    reveal_strlit("\"AnywhereOnWebsite\"");
    reveal_strlit("\"ExactDomain\"");
    reveal_strlit("\"Never\"");
    assert("\"AnywhereOnWebsite\""@.len() == 19);
    assert("\"ExactDomain\""@.len() == 13);
    assert("\"Never\""@.len() == 7);
}

/// A `Website` is written as the object of its fields' values under their
/// wire names, in the order of the names: `autofillBehavior`, `label`, `url`; each value is written
/// from its own field.
pub proof fn lemma_website_json(x: Website)
    ensures
        x.json() == json_object_text(seq![("autofillBehavior"@, x.autofill_behavior.json()), ("label"@, json_string_text(x.label@)), ("url"@, json_string_text(x.url@))]),
{
    let spec_members = Seq::empty();
    let spec_members = with_member(spec_members, "autofillBehavior"@, x.autofill_behavior.json());
    let spec_members = with_member(spec_members, "label"@, x.label.json());
    let spec_members = with_member(spec_members, "url"@, x.url.json());
    assert(spec_members =~= (seq![("autofillBehavior"@, x.autofill_behavior.json()), ("label"@, json_string_text(x.label@)), ("url"@, json_string_text(x.url@))]));
}

/// A `ItemField` is written as the object of its fields' values under their
/// wire names, in the order of the names: `details`, `fieldType`, `id`, `sectionId`, `title`, `value`; each value is written
/// from its own field. A member for `details`, `sectionId` stands there exactly when the field holds a value.
pub proof fn lemma_item_field_json(x: ItemField)
    ensures
        x.json() == json_object_text((match x.details { Some(v) => seq![("details"@, v.json())], None => Seq::empty() })
            + seq![("fieldType"@, x.field_type.json())]
            + seq![("id"@, json_string_text(x.id@))]
            + (match x.section_id { Some(v) => seq![("sectionId"@, json_string_text(v@))], None => Seq::empty() })
            + seq![("title"@, json_string_text(x.title@))]
            + seq![("value"@, json_string_text(x.value@))]),
{
    let s1 = with_optional_member(Seq::empty(), "details"@, x.details);
    let l1 = (match x.details { Some(v) => seq![("details"@, v.json())], None => Seq::empty() });
    assert(s1 =~= l1);
    let s2 = with_member(s1, "fieldType"@, x.field_type.json());
    let l2 = l1 + seq![("fieldType"@, x.field_type.json())];
    assert(s2 =~= l2);
    let s3 = with_member(s2, "id"@, x.id.json());
    let l3 = l2 + seq![("id"@, json_string_text(x.id@))];
    assert(s3 =~= l3);
    let s4 = with_optional_member(s3, "sectionId"@, x.section_id);
    let l4 = l3 + (match x.section_id { Some(v) => seq![("sectionId"@, json_string_text(v@))], None => Seq::empty() });
    assert(s4 =~= l4);
    let s5 = with_member(s4, "title"@, x.title.json());
    let l5 = l4 + seq![("title"@, json_string_text(x.title@))];
    assert(s5 =~= l5);
    let s6 = with_member(s5, "value"@, x.value.json());
    let l6 = l5 + seq![("value"@, json_string_text(x.value@))];
    assert(s6 =~= l6);
}

/// A `ItemSection` is written as the object of its fields' values under their
/// wire names, in the order of the names: `id`, `title`; each value is written
/// from its own field.
pub proof fn lemma_item_section_json(x: ItemSection)
    ensures
        x.json() == json_object_text(seq![("id"@, json_string_text(x.id@)), ("title"@, json_string_text(x.title@))]),
{
    let spec_members = Seq::empty();
    let spec_members = with_member(spec_members, "id"@, x.id.json());
    let spec_members = with_member(spec_members, "title"@, x.title.json());
    assert(spec_members =~= (seq![("id"@, json_string_text(x.id@)), ("title"@, json_string_text(x.title@))]));
}

/// A `ItemFile` is written as the object of its fields' values under their
/// wire names, in the order of the names: `attributes`, `fieldId`, `sectionId`; each value is written
/// from its own field.
pub proof fn lemma_item_file_json(x: ItemFile)
    ensures
        x.json() == json_object_text(seq![("attributes"@, x.attributes.json()), ("fieldId"@, json_string_text(x.field_id@)), ("sectionId"@, json_string_text(x.section_id@))]),
{
    let spec_members = Seq::empty();
    let spec_members = with_member(spec_members, "attributes"@, x.attributes.json());
    let spec_members = with_member(spec_members, "fieldId"@, x.field_id.json());
    let spec_members = with_member(spec_members, "sectionId"@, x.section_id.json());
    assert(spec_members =~= (seq![("attributes"@, x.attributes.json()), ("fieldId"@, json_string_text(x.field_id@)), ("sectionId"@, json_string_text(x.section_id@))]));
}

/// A `Item` is written as the object of its fields' values under their
/// wire names, in the order of the names: `category`, `createdAt`, `document`, `fields`, `files`, `id`, `notes`, `sections`, `tags`, `title`, `updatedAt`, `vaultId`, `version`, `websites`; each value is written
/// from its own field. A member for `document` stands there exactly when the field holds a value.
pub proof fn lemma_item_json(x: Item)
    ensures
        x.json() == json_object_text(seq![("category"@, x.category.json())]
            + seq![("createdAt"@, json_string_text(x.created_at@))]
            + (match x.document { Some(v) => seq![("document"@, v.json())], None => Seq::empty() })
            + seq![("fields"@, json_array_text(Seq::new(x.fields@.len(), |i: int| x.fields@[i].json())))]
            + seq![("files"@, json_array_text(Seq::new(x.files@.len(), |i: int| x.files@[i].json())))]
            + seq![("id"@, json_string_text(x.id@))]
            + seq![("notes"@, json_string_text(x.notes@))]
            + seq![("sections"@, json_array_text(Seq::new(x.sections@.len(), |i: int| x.sections@[i].json())))]
            + seq![("tags"@, json_array_text(Seq::new(x.tags@.len(), |i: int| json_string_text(x.tags@[i]@))))]
            + seq![("title"@, json_string_text(x.title@))]
            + seq![("updatedAt"@, json_string_text(x.updated_at@))]
            + seq![("vaultId"@, json_string_text(x.vault_id@))]
            + seq![("version"@, decimal_text(x.version as nat))]
            + seq![("websites"@, json_array_text(Seq::new(x.websites@.len(), |i: int| x.websites@[i].json())))]),
{
    let s1 = with_member(Seq::empty(), "category"@, x.category.json());
    let l1 = seq![("category"@, x.category.json())];
    assert(s1 =~= l1);
    let s2 = with_member(s1, "createdAt"@, x.created_at.json());
    let l2 = l1 + seq![("createdAt"@, json_string_text(x.created_at@))];
    assert(s2 =~= l2);
    let s3 = with_optional_member(s2, "document"@, x.document);
    let l3 = l2 + (match x.document { Some(v) => seq![("document"@, v.json())], None => Seq::empty() });
    assert(s3 =~= l3);
    let s4 = with_member(s3, "fields"@, x.fields.json());
    let l4 = l3 + seq![("fields"@, json_array_text(Seq::new(x.fields@.len(), |i: int| x.fields@[i].json())))];
    assert(s4 =~= l4) by {
        assert(element_texts(x.fields@) =~= Seq::new(x.fields@.len(), |i: int| x.fields@[i].json()));
    }
    let s5 = with_member(s4, "files"@, x.files.json());
    let l5 = l4 + seq![("files"@, json_array_text(Seq::new(x.files@.len(), |i: int| x.files@[i].json())))];
    assert(s5 =~= l5) by {
        assert(element_texts(x.files@) =~= Seq::new(x.files@.len(), |i: int| x.files@[i].json()));
    }
    let s6 = with_member(s5, "id"@, x.id.json());
    let l6 = l5 + seq![("id"@, json_string_text(x.id@))];
    assert(s6 =~= l6);
    let s7 = with_member(s6, "notes"@, x.notes.json());
    let l7 = l6 + seq![("notes"@, json_string_text(x.notes@))];
    assert(s7 =~= l7);
    let s8 = with_member(s7, "sections"@, x.sections.json());
    let l8 = l7 + seq![("sections"@, json_array_text(Seq::new(x.sections@.len(), |i: int| x.sections@[i].json())))];
    assert(s8 =~= l8) by {
        assert(element_texts(x.sections@) =~= Seq::new(x.sections@.len(), |i: int| x.sections@[i].json()));
    }
    let s9 = with_member(s8, "tags"@, x.tags.json());
    let l9 = l8 + seq![("tags"@, json_array_text(Seq::new(x.tags@.len(), |i: int| json_string_text(x.tags@[i]@))))];
    assert(s9 =~= l9) by {
        assert(element_texts(x.tags@) =~= Seq::new(x.tags@.len(), |i: int| json_string_text(x.tags@[i]@)));
    }
    let s10 = with_member(s9, "title"@, x.title.json());
    let l10 = l9 + seq![("title"@, json_string_text(x.title@))];
    assert(s10 =~= l10);
    let s11 = with_member(s10, "updatedAt"@, x.updated_at.json());
    let l11 = l10 + seq![("updatedAt"@, json_string_text(x.updated_at@))];
    assert(s11 =~= l11);
    let s12 = with_member(s11, "vaultId"@, x.vault_id.json());
    let l12 = l11 + seq![("vaultId"@, json_string_text(x.vault_id@))];
    assert(s12 =~= l12);
    let s13 = with_member(s12, "version"@, x.version.json());
    let l13 = l12 + seq![("version"@, decimal_text(x.version as nat))];
    assert(s13 =~= l13);
    let s14 = with_member(s13, "websites"@, x.websites.json());
    let l14 = l13 + seq![("websites"@, json_array_text(Seq::new(x.websites@.len(), |i: int| x.websites@[i].json())))];
    assert(s14 =~= l14) by {
        assert(element_texts(x.websites@) =~= Seq::new(x.websites@.len(), |i: int| x.websites@[i].json()));
    }
}

/// A `ItemCreateParams` is written as the object of its fields' values under their
/// wire names, in the order of the names: `category`, `document`, `fields`, `files`, `notes`, `sections`, `tags`, `title`, `vaultId`, `websites`; each value is written
/// from its own field. A member for `document`, `fields`, `files`, `notes`, `sections`, `tags`, `websites` stands there exactly when the field holds a value.
#[verifier::rlimit(40)]
pub proof fn lemma_item_create_params_json(x: ItemCreateParams)
    ensures
        x.json() == json_object_text(seq![("category"@, x.category.json())]
            + (match x.document { Some(v) => seq![("document"@, v.json())], None => Seq::empty() })
            + (match x.fields { Some(v) => seq![("fields"@, json_array_text(Seq::new(v@.len(), |i: int| v@[i].json())))], None => Seq::empty() })
            + (match x.files { Some(v) => seq![("files"@, json_array_text(Seq::new(v@.len(), |i: int| v@[i].json())))], None => Seq::empty() })
            + (match x.notes { Some(v) => seq![("notes"@, json_string_text(v@))], None => Seq::empty() })
            + (match x.sections { Some(v) => seq![("sections"@, json_array_text(Seq::new(v@.len(), |i: int| v@[i].json())))], None => Seq::empty() })
            + (match x.tags { Some(v) => seq![("tags"@, json_array_text(Seq::new(v@.len(), |i: int| json_string_text(v@[i]@))))], None => Seq::empty() })
            + seq![("title"@, json_string_text(x.title@))]
            + seq![("vaultId"@, json_string_text(x.vault_id@))]
            + (match x.websites { Some(v) => seq![("websites"@, json_array_text(Seq::new(v@.len(), |i: int| v@[i].json())))], None => Seq::empty() })),
{
    let s1 = with_member(Seq::empty(), "category"@, x.category.json());
    let l1 = seq![("category"@, x.category.json())];
    assert(s1 =~= l1);
    let s2 = with_optional_member(s1, "document"@, x.document);
    let l2 = l1 + (match x.document { Some(v) => seq![("document"@, v.json())], None => Seq::empty() });
    assert(s2 =~= l2);
    let s3 = with_optional_member(s2, "fields"@, x.fields);
    let l3 = l2 + (match x.fields { Some(v) => seq![("fields"@, json_array_text(Seq::new(v@.len(), |i: int| v@[i].json())))], None => Seq::empty() });
    assert(s3 =~= l3) by {
        match x.fields {
            Some(v0) => {
                assert(element_texts(v0@) =~= Seq::new(v0@.len(), |i: int| v0@[i].json()));
            },
            None => {},
        }
    }
    let s4 = with_optional_member(s3, "files"@, x.files);
    let l4 = l3 + (match x.files { Some(v) => seq![("files"@, json_array_text(Seq::new(v@.len(), |i: int| v@[i].json())))], None => Seq::empty() });
    assert(s4 =~= l4) by {
        match x.files {
            Some(v0) => {
                assert(element_texts(v0@) =~= Seq::new(v0@.len(), |i: int| v0@[i].json()));
            },
            None => {},
        }
    }
    let s5 = with_optional_member(s4, "notes"@, x.notes);
    let l5 = l4 + (match x.notes { Some(v) => seq![("notes"@, json_string_text(v@))], None => Seq::empty() });
    assert(s5 =~= l5);
    let s6 = with_optional_member(s5, "sections"@, x.sections);
    let l6 = l5 + (match x.sections { Some(v) => seq![("sections"@, json_array_text(Seq::new(v@.len(), |i: int| v@[i].json())))], None => Seq::empty() });
    assert(s6 =~= l6) by {
        match x.sections {
            Some(v0) => {
                assert(element_texts(v0@) =~= Seq::new(v0@.len(), |i: int| v0@[i].json()));
            },
            None => {},
        }
    }
    let s7 = with_optional_member(s6, "tags"@, x.tags);
    let l7 = l6 + (match x.tags { Some(v) => seq![("tags"@, json_array_text(Seq::new(v@.len(), |i: int| json_string_text(v@[i]@))))], None => Seq::empty() });
    assert(s7 =~= l7) by {
        match x.tags {
            Some(v0) => {
                assert(element_texts(v0@) =~= Seq::new(v0@.len(), |i: int| json_string_text(v0@[i]@)));
            },
            None => {},
        }
    }
    let s8 = with_member(s7, "title"@, x.title.json());
    let l8 = l7 + seq![("title"@, json_string_text(x.title@))];
    assert(s8 =~= l8);
    let s9 = with_member(s8, "vaultId"@, x.vault_id.json());
    let l9 = l8 + seq![("vaultId"@, json_string_text(x.vault_id@))];
    assert(s9 =~= l9);
    let s10 = with_optional_member(s9, "websites"@, x.websites);
    let l10 = l9 + (match x.websites { Some(v) => seq![("websites"@, json_array_text(Seq::new(v@.len(), |i: int| v@[i].json())))], None => Seq::empty() });
    assert(s10 =~= l10) by {
        match x.websites {
            Some(v0) => {
                assert(element_texts(v0@) =~= Seq::new(v0@.len(), |i: int| v0@[i].json()));
            },
            None => {},
        }
    }
}

/// A `ItemListFilterByStateInner` is written as the object of its fields' values under their
/// wire names, in the order of the names: `active`, `archived`; each value is written
/// from its own field.
pub proof fn lemma_item_list_filter_by_state_inner_json(x: ItemListFilterByStateInner)
    ensures
        x.json() == json_object_text(seq![("active"@, bool_text(x.active)), ("archived"@, bool_text(x.archived))]),
{
    let spec_members = Seq::empty();
    let spec_members = with_member(spec_members, "active"@, x.active.json());
    let spec_members = with_member(spec_members, "archived"@, x.archived.json());
    assert(spec_members =~= (seq![("active"@, bool_text(x.active)), ("archived"@, bool_text(x.archived))]));
}

/// A `ItemListFilter` is written as an object of two members: the variant's
/// value under "content", then the variant's own name, as a JSON string, under
/// "type".
pub proof fn lemma_item_list_filter_json(x: ItemListFilter)
    ensures
        x.json() == match x {
            ItemListFilter::ByState(inner) => json_object_text(seq![("content"@, inner.json()), ("type"@, "\"ByState\""@)]),
        },
{
    match x {
        ItemListFilter::ByState(inner) => {
            reveal_strlit("ByState");
            reveal_strlit("\"ByState\"");
            lemma_plain_text_is_written_unchanged("ByState"@);
            assert(seq!['"'] + "ByState"@ + seq!['"'] =~= "\"ByState\""@);
            assert(with_member(with_member(Seq::empty(), "content"@, inner.json()), "type"@, json_string_text("ByState"@))
                =~= seq![("content"@, inner.json()), ("type"@, "\"ByState\""@)]);
        },
    }
}

/// Each `ItemShareDuration` is written as the JSON string of its own name.
pub proof fn lemma_item_share_duration_json(x: ItemShareDuration)
    ensures
        x.json() == match x {
            ItemShareDuration::OneHour => "\"OneHour\""@,
            ItemShareDuration::OneDay => "\"OneDay\""@,
            ItemShareDuration::SevenDays => "\"SevenDays\""@,
            ItemShareDuration::FourteenDays => "\"FourteenDays\""@,
            ItemShareDuration::ThirtyDays => "\"ThirtyDays\""@,
        },
{
    match x {
        ItemShareDuration::OneHour => {
            reveal_strlit("OneHour");
            reveal_strlit("\"OneHour\"");
            lemma_plain_text_is_written_unchanged("OneHour"@);
            assert(seq!['"'] + "OneHour"@ + seq!['"'] =~= "\"OneHour\""@);
        },
        ItemShareDuration::OneDay => {
            reveal_strlit("OneDay");
            reveal_strlit("\"OneDay\"");
            lemma_plain_text_is_written_unchanged("OneDay"@);
            assert(seq!['"'] + "OneDay"@ + seq!['"'] =~= "\"OneDay\""@);
        },
        ItemShareDuration::SevenDays => {
            reveal_strlit("SevenDays");
            reveal_strlit("\"SevenDays\"");
            lemma_plain_text_is_written_unchanged("SevenDays"@);
            assert(seq!['"'] + "SevenDays"@ + seq!['"'] =~= "\"SevenDays\""@);
        },
        ItemShareDuration::FourteenDays => {
            reveal_strlit("FourteenDays");
            reveal_strlit("\"FourteenDays\"");
            lemma_plain_text_is_written_unchanged("FourteenDays"@);
            assert(seq!['"'] + "FourteenDays"@ + seq!['"'] =~= "\"FourteenDays\""@);
        },
        ItemShareDuration::ThirtyDays => {
            reveal_strlit("ThirtyDays");
            reveal_strlit("\"ThirtyDays\"");
            lemma_plain_text_is_written_unchanged("ThirtyDays"@);
            assert(seq!['"'] + "ThirtyDays"@ + seq!['"'] =~= "\"ThirtyDays\""@);
        },
    }
}

/// Distinct `ItemShareDuration` values are written as distinct JSON texts.
pub proof fn lemma_item_share_duration_json_tells_apart(a: ItemShareDuration, b: ItemShareDuration)
    ensures
        a.json() == b.json() ==> a == b,
{
    lemma_item_share_duration_json(a);
    lemma_item_share_duration_json(b);
    reveal_strlit("\"OneHour\"");
    reveal_strlit("\"OneDay\"");
    reveal_strlit("\"SevenDays\"");
    reveal_strlit("\"FourteenDays\"");
    reveal_strlit("\"ThirtyDays\"");
    assert("\"OneHour\""@.len() == 9);
    assert("\"OneDay\""@.len() == 8);
    assert("\"SevenDays\""@.len() == 11);
    assert("\"FourteenDays\""@.len() == 14);
    assert("\"ThirtyDays\""@.len() == 12);
}

/// Each `AllowedType` is written as the JSON string of its own name.
pub proof fn lemma_allowed_type_json(x: AllowedType)
    ensures
        x.json() == match x {
            AllowedType::Authenticated => "\"Authenticated\""@,
            AllowedType::Public => "\"Public\""@,
        },
{
    match x {
        AllowedType::Authenticated => {
            reveal_strlit("Authenticated");
            reveal_strlit("\"Authenticated\"");
            lemma_plain_text_is_written_unchanged("Authenticated"@);
            assert(seq!['"'] + "Authenticated"@ + seq!['"'] =~= "\"Authenticated\""@);
        },
        AllowedType::Public => {
            reveal_strlit("Public");
            reveal_strlit("\"Public\"");
            lemma_plain_text_is_written_unchanged("Public"@);
            assert(seq!['"'] + "Public"@ + seq!['"'] =~= "\"Public\""@);
        },
    }
}

/// Distinct `AllowedType` values are written as distinct JSON texts.
pub proof fn lemma_allowed_type_json_tells_apart(a: AllowedType, b: AllowedType)
    ensures
        a.json() == b.json() ==> a == b,
{
    lemma_allowed_type_json(a);
    lemma_allowed_type_json(b);
    reveal_strlit("\"Authenticated\"");
    reveal_strlit("\"Public\"");
    assert("\"Authenticated\""@.len() == 15);
    assert("\"Public\""@.len() == 8);
}

/// Each `AllowedRecipientType` is written as the JSON string of its own name.
pub proof fn lemma_allowed_recipient_type_json(x: AllowedRecipientType)
    ensures
        x.json() == match x {
            AllowedRecipientType::Email => "\"Email\""@,
            AllowedRecipientType::Domain => "\"Domain\""@,
        },
{
    match x {
        AllowedRecipientType::Email => {
            reveal_strlit("Email");
            reveal_strlit("\"Email\"");
            lemma_plain_text_is_written_unchanged("Email"@);
            assert(seq!['"'] + "Email"@ + seq!['"'] =~= "\"Email\""@);
        },
        AllowedRecipientType::Domain => {
            reveal_strlit("Domain");
            reveal_strlit("\"Domain\"");
            lemma_plain_text_is_written_unchanged("Domain"@);
            assert(seq!['"'] + "Domain"@ + seq!['"'] =~= "\"Domain\""@);
        },
    }
}

/// Distinct `AllowedRecipientType` values are written as distinct JSON texts.
pub proof fn lemma_allowed_recipient_type_json_tells_apart(a: AllowedRecipientType, b: AllowedRecipientType)
    ensures
        a.json() == b.json() ==> a == b,
{
    lemma_allowed_recipient_type_json(a);
    lemma_allowed_recipient_type_json(b);
    reveal_strlit("\"Email\"");
    reveal_strlit("\"Domain\"");
    assert("\"Email\""@.len() == 7);
    assert("\"Domain\""@.len() == 8);
}

/// A `ItemShareFiles` is written as the object of its fields' values under their
/// wire names, in the order of the names: `allowed`, `allowedRecipientTypes`, `allowedTypes`, `defaultExpiry`, `maxExpiry`, `maxSize`, `maxViews`; each value is written
/// from its own field. A member for `allowedRecipientTypes`, `allowedTypes`, `defaultExpiry`, `maxExpiry`, `maxViews` stands there exactly when the field holds a value.
#[verifier::rlimit(40)]
pub proof fn lemma_item_share_files_json(x: ItemShareFiles)
    ensures
        x.json() == json_object_text(seq![("allowed"@, bool_text(x.allowed))]
            + (match x.allowed_recipient_types { Some(v) => seq![("allowedRecipientTypes"@, json_array_text(Seq::new(v@.len(), |i: int| v@[i].json())))], None => Seq::empty() })
            + (match x.allowed_types { Some(v) => seq![("allowedTypes"@, json_array_text(Seq::new(v@.len(), |i: int| v@[i].json())))], None => Seq::empty() })
            + (match x.default_expiry { Some(v) => seq![("defaultExpiry"@, v.json())], None => Seq::empty() })
            + (match x.max_expiry { Some(v) => seq![("maxExpiry"@, v.json())], None => Seq::empty() })
            + seq![("maxSize"@, decimal_text(x.max_size as nat))]
            + (match x.max_views { Some(v) => seq![("maxViews"@, decimal_text(v as nat))], None => Seq::empty() })),
{
    let s1 = with_member(Seq::empty(), "allowed"@, x.allowed.json());
    let l1 = seq![("allowed"@, bool_text(x.allowed))];
    assert(s1 =~= l1);
    let s2 = with_optional_member(s1, "allowedRecipientTypes"@, x.allowed_recipient_types);
    let l2 = l1 + (match x.allowed_recipient_types { Some(v) => seq![("allowedRecipientTypes"@, json_array_text(Seq::new(v@.len(), |i: int| v@[i].json())))], None => Seq::empty() });
    assert(s2 =~= l2) by {
        match x.allowed_recipient_types {
            Some(v0) => {
                assert(element_texts(v0@) =~= Seq::new(v0@.len(), |i: int| v0@[i].json()));
            },
            None => {},
        }
    }
    let s3 = with_optional_member(s2, "allowedTypes"@, x.allowed_types);
    let l3 = l2 + (match x.allowed_types { Some(v) => seq![("allowedTypes"@, json_array_text(Seq::new(v@.len(), |i: int| v@[i].json())))], None => Seq::empty() });
    assert(s3 =~= l3) by {
        match x.allowed_types {
            Some(v0) => {
                assert(element_texts(v0@) =~= Seq::new(v0@.len(), |i: int| v0@[i].json()));
            },
            None => {},
        }
    }
    let s4 = with_optional_member(s3, "defaultExpiry"@, x.default_expiry);
    let l4 = l3 + (match x.default_expiry { Some(v) => seq![("defaultExpiry"@, v.json())], None => Seq::empty() });
    assert(s4 =~= l4);
    let s5 = with_optional_member(s4, "maxExpiry"@, x.max_expiry);
    let l5 = l4 + (match x.max_expiry { Some(v) => seq![("maxExpiry"@, v.json())], None => Seq::empty() });
    assert(s5 =~= l5);
    let s6 = with_member(s5, "maxSize"@, x.max_size.json());
    let l6 = l5 + seq![("maxSize"@, decimal_text(x.max_size as nat))];
    assert(s6 =~= l6);
    let s7 = with_optional_member(s6, "maxViews"@, x.max_views);
    let l7 = l6 + (match x.max_views { Some(v) => seq![("maxViews"@, decimal_text(v as nat))], None => Seq::empty() });
    assert(s7 =~= l7);
}

/// A `ItemShareAccountPolicy` is written as the object of its fields' values under their
/// wire names, in the order of the names: `allowedRecipientTypes`, `allowedTypes`, `defaultExpiry`, `files`, `maxExpiry`, `maxViews`; each value is written
/// from its own field. A member for `maxViews` stands there exactly when the field holds a value.
pub proof fn lemma_item_share_account_policy_json(x: ItemShareAccountPolicy)
    ensures
        x.json() == json_object_text(seq![("allowedRecipientTypes"@, json_array_text(Seq::new(x.allowed_recipient_types@.len(), |i: int| x.allowed_recipient_types@[i].json())))]
            + seq![("allowedTypes"@, json_array_text(Seq::new(x.allowed_types@.len(), |i: int| x.allowed_types@[i].json())))]
            + seq![("defaultExpiry"@, x.default_expiry.json())]
            + seq![("files"@, x.files.json())]
            + seq![("maxExpiry"@, x.max_expiry.json())]
            + (match x.max_views { Some(v) => seq![("maxViews"@, decimal_text(v as nat))], None => Seq::empty() })),
{
    let s1 = with_member(Seq::empty(), "allowedRecipientTypes"@, x.allowed_recipient_types.json());
    let l1 = seq![("allowedRecipientTypes"@, json_array_text(Seq::new(x.allowed_recipient_types@.len(), |i: int| x.allowed_recipient_types@[i].json())))];
    assert(s1 =~= l1) by {
        assert(element_texts(x.allowed_recipient_types@) =~= Seq::new(x.allowed_recipient_types@.len(), |i: int| x.allowed_recipient_types@[i].json()));
    }
    let s2 = with_member(s1, "allowedTypes"@, x.allowed_types.json());
    let l2 = l1 + seq![("allowedTypes"@, json_array_text(Seq::new(x.allowed_types@.len(), |i: int| x.allowed_types@[i].json())))];
    assert(s2 =~= l2) by {
        assert(element_texts(x.allowed_types@) =~= Seq::new(x.allowed_types@.len(), |i: int| x.allowed_types@[i].json()));
    }
    let s3 = with_member(s2, "defaultExpiry"@, x.default_expiry.json());
    let l3 = l2 + seq![("defaultExpiry"@, x.default_expiry.json())];
    assert(s3 =~= l3);
    let s4 = with_member(s3, "files"@, x.files.json());
    let l4 = l3 + seq![("files"@, x.files.json())];
    assert(s4 =~= l4);
    let s5 = with_member(s4, "maxExpiry"@, x.max_expiry.json());
    let l5 = l4 + seq![("maxExpiry"@, x.max_expiry.json())];
    assert(s5 =~= l5);
    let s6 = with_optional_member(s5, "maxViews"@, x.max_views);
    let l6 = l5 + (match x.max_views { Some(v) => seq![("maxViews"@, decimal_text(v as nat))], None => Seq::empty() });
    assert(s6 =~= l6);
}

/// A `ValidRecipientEmailInner` is written as the object of its fields' values under their
/// wire names, in the order of the names: `email`; each value is written
/// from its own field.
pub proof fn lemma_valid_recipient_email_inner_json(x: ValidRecipientEmailInner)
    ensures
        x.json() == json_object_text(seq![("email"@, json_string_text(x.email@))]),
{
    let spec_members = Seq::empty();
    let spec_members = with_member(spec_members, "email"@, x.email.json());
    assert(spec_members =~= (seq![("email"@, json_string_text(x.email@))]));
}

/// A `ValidRecipientDomainInner` is written as the object of its fields' values under their
/// wire names, in the order of the names: `domain`; each value is written
/// from its own field.
pub proof fn lemma_valid_recipient_domain_inner_json(x: ValidRecipientDomainInner)
    ensures
        x.json() == json_object_text(seq![("domain"@, json_string_text(x.domain@))]),
{
    let spec_members = Seq::empty();
    let spec_members = with_member(spec_members, "domain"@, x.domain.json());
    assert(spec_members =~= (seq![("domain"@, json_string_text(x.domain@))]));
}

/// A `ValidRecipient` is written as an object of two members: the variant's
/// value under "parameters", then the variant's own name, as a JSON string, under
/// "type".
pub proof fn lemma_valid_recipient_json(x: ValidRecipient)
    ensures
        x.json() == match x {
            ValidRecipient::Email(inner) => json_object_text(seq![("parameters"@, inner.json()), ("type"@, "\"Email\""@)]),
            ValidRecipient::Domain(inner) => json_object_text(seq![("parameters"@, inner.json()), ("type"@, "\"Domain\""@)]),
        },
{
    match x {
        ValidRecipient::Email(inner) => {
            reveal_strlit("Email");
            reveal_strlit("\"Email\"");
            lemma_plain_text_is_written_unchanged("Email"@);
            assert(seq!['"'] + "Email"@ + seq!['"'] =~= "\"Email\""@);
            assert(with_member(with_member(Seq::empty(), "parameters"@, inner.json()), "type"@, json_string_text("Email"@))
                =~= seq![("parameters"@, inner.json()), ("type"@, "\"Email\""@)]);
        },
        ValidRecipient::Domain(inner) => {
            reveal_strlit("Domain");
            reveal_strlit("\"Domain\"");
            lemma_plain_text_is_written_unchanged("Domain"@);
            assert(seq!['"'] + "Domain"@ + seq!['"'] =~= "\"Domain\""@);
            assert(with_member(with_member(Seq::empty(), "parameters"@, inner.json()), "type"@, json_string_text("Domain"@))
                =~= seq![("parameters"@, inner.json()), ("type"@, "\"Domain\""@)]);
        },
    }
}

/// A `ItemShareParams` is written as the object of its fields' values under their
/// wire names, in the order of the names: `expireAfter`, `oneTimeOnly`, `recipients`; each value is written
/// from its own field. A member for `expireAfter`, `recipients` stands there exactly when the field holds a value.
pub proof fn lemma_item_share_params_json(x: ItemShareParams)
    ensures
        x.json() == json_object_text((match x.expire_after { Some(v) => seq![("expireAfter"@, v.json())], None => Seq::empty() })
            + seq![("oneTimeOnly"@, bool_text(x.one_time_only))]
            + (match x.recipients { Some(v) => seq![("recipients"@, json_array_text(Seq::new(v@.len(), |i: int| v@[i].json())))], None => Seq::empty() })),
{
    let s1 = with_optional_member(Seq::empty(), "expireAfter"@, x.expire_after);
    let l1 = (match x.expire_after { Some(v) => seq![("expireAfter"@, v.json())], None => Seq::empty() });
    assert(s1 =~= l1);
    let s2 = with_member(s1, "oneTimeOnly"@, x.one_time_only.json());
    let l2 = l1 + seq![("oneTimeOnly"@, bool_text(x.one_time_only))];
    assert(s2 =~= l2);
    let s3 = with_optional_member(s2, "recipients"@, x.recipients);
    let l3 = l2 + (match x.recipients { Some(v) => seq![("recipients"@, json_array_text(Seq::new(v@.len(), |i: int| v@[i].json())))], None => Seq::empty() });
    assert(s3 =~= l3) by {
        match x.recipients {
            Some(v0) => {
                assert(element_texts(v0@) =~= Seq::new(v0@.len(), |i: int| v0@[i].json()));
            },
            None => {},
        }
    }
}

/// A `GroupAccess` is written as the object of its fields' values under their
/// wire names, in the order of the names: `groupId`, `permissions`; each value is written
/// from its own field.
pub proof fn lemma_group_access_json(x: GroupAccess)
    ensures
        x.json() == json_object_text(seq![("groupId"@, json_string_text(x.group_id@)), ("permissions"@, decimal_text(x.permissions as nat))]),
{
    let spec_members = Seq::empty();
    let spec_members = with_member(spec_members, "groupId"@, x.group_id.json());
    let spec_members = with_member(spec_members, "permissions"@, x.permissions.json());
    assert(spec_members =~= (seq![("groupId"@, json_string_text(x.group_id@)), ("permissions"@, decimal_text(x.permissions as nat))]));
}

/// A `GroupGetParams` is written as the object of its fields' values under their
/// wire names, in the order of the names: `vaultPermissions`; each value is written
/// from its own field. A member for `vaultPermissions` stands there exactly when the field holds a value.
pub proof fn lemma_group_get_params_json(x: GroupGetParams)
    ensures
        x.json() == json_object_text((match x.vault_permissions { Some(v) => seq![("vaultPermissions"@, bool_text(v))], None => Seq::empty() })),
{
    let s1 = with_optional_member(Seq::empty(), "vaultPermissions"@, x.vault_permissions);
    let l1 = (match x.vault_permissions { Some(v) => seq![("vaultPermissions"@, bool_text(v))], None => Seq::empty() });
    assert(s1 =~= l1);
}

/// A `GroupVaultAccess` is written as the object of its fields' values under their
/// wire names, in the order of the names: `groupId`, `permissions`, `vaultId`; each value is written
/// from its own field.
pub proof fn lemma_group_vault_access_json(x: GroupVaultAccess)
    ensures
        x.json() == json_object_text(seq![("groupId"@, json_string_text(x.group_id@)), ("permissions"@, decimal_text(x.permissions as nat)), ("vaultId"@, json_string_text(x.vault_id@))]),
{
    let spec_members = Seq::empty();
    let spec_members = with_member(spec_members, "groupId"@, x.group_id.json());
    let spec_members = with_member(spec_members, "permissions"@, x.permissions.json());
    let spec_members = with_member(spec_members, "vaultId"@, x.vault_id.json());
    assert(spec_members =~= (seq![("groupId"@, json_string_text(x.group_id@)), ("permissions"@, decimal_text(x.permissions as nat)), ("vaultId"@, json_string_text(x.vault_id@))]));
}

/// A `VaultCreateParams` is written as the object of its fields' values under their
/// wire names, in the order of the names: `allowAdminsAccess`, `description`, `title`; each value is written
/// from its own field. A member for `allowAdminsAccess`, `description` stands there exactly when the field holds a value.
pub proof fn lemma_vault_create_params_json(x: VaultCreateParams)
    ensures
        x.json() == json_object_text((match x.allow_admins_access { Some(v) => seq![("allowAdminsAccess"@, bool_text(v))], None => Seq::empty() })
            + (match x.description { Some(v) => seq![("description"@, json_string_text(v@))], None => Seq::empty() })
            + seq![("title"@, json_string_text(x.title@))]),
{
    let s1 = with_optional_member(Seq::empty(), "allowAdminsAccess"@, x.allow_admins_access);
    let l1 = (match x.allow_admins_access { Some(v) => seq![("allowAdminsAccess"@, bool_text(v))], None => Seq::empty() });
    assert(s1 =~= l1);
    let s2 = with_optional_member(s1, "description"@, x.description);
    let l2 = l1 + (match x.description { Some(v) => seq![("description"@, json_string_text(v@))], None => Seq::empty() });
    assert(s2 =~= l2);
    let s3 = with_member(s2, "title"@, x.title.json());
    let l3 = l2 + seq![("title"@, json_string_text(x.title@))];
    assert(s3 =~= l3);
}

/// A `VaultGetParams` is written as the object of its fields' values under their
/// wire names, in the order of the names: `accessors`; each value is written
/// from its own field. A member for `accessors` stands there exactly when the field holds a value.
pub proof fn lemma_vault_get_params_json(x: VaultGetParams)
    ensures
        x.json() == json_object_text((match x.accessors { Some(v) => seq![("accessors"@, bool_text(v))], None => Seq::empty() })),
{
    let s1 = with_optional_member(Seq::empty(), "accessors"@, x.accessors);
    let l1 = (match x.accessors { Some(v) => seq![("accessors"@, bool_text(v))], None => Seq::empty() });
    assert(s1 =~= l1);
}

/// A `VaultListParams` is written as the object of its fields' values under their
/// wire names, in the order of the names: `decryptDetails`; each value is written
/// from its own field. A member for `decryptDetails` stands there exactly when the field holds a value.
pub proof fn lemma_vault_list_params_json(x: VaultListParams)
    ensures
        x.json() == json_object_text((match x.decrypt_details { Some(v) => seq![("decryptDetails"@, bool_text(v))], None => Seq::empty() })),
{
    let s1 = with_optional_member(Seq::empty(), "decryptDetails"@, x.decrypt_details);
    let l1 = (match x.decrypt_details { Some(v) => seq![("decryptDetails"@, bool_text(v))], None => Seq::empty() });
    assert(s1 =~= l1);
}

/// A `VaultUpdateParams` is written as the object of its fields' values under their
/// wire names, in the order of the names: `description`, `title`; each value is written
/// from its own field. A member for `description`, `title` stands there exactly when the field holds a value.
pub proof fn lemma_vault_update_params_json(x: VaultUpdateParams)
    ensures
        x.json() == json_object_text((match x.description { Some(v) => seq![("description"@, json_string_text(v@))], None => Seq::empty() })
            + (match x.title { Some(v) => seq![("title"@, json_string_text(v@))], None => Seq::empty() })),
{
    let s1 = with_optional_member(Seq::empty(), "description"@, x.description);
    let l1 = (match x.description { Some(v) => seq![("description"@, json_string_text(v@))], None => Seq::empty() });
    assert(s1 =~= l1);
    let s2 = with_optional_member(s1, "title"@, x.title);
    let l2 = l1 + (match x.title { Some(v) => seq![("title"@, json_string_text(v@))], None => Seq::empty() });
    assert(s2 =~= l2);
}

} // verus!
