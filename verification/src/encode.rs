//! The JSON form of the values the SDK sends to the core.
//!
//! A value is written as serde_json writes its `Value`: objects list their
//! members in the order of their names (serde_json keeps an object's members
//! in a map sorted by name), under the fields' wire names (camelCase where
//! the type says so), and leave out optional fields that are absent;
//! fieldless enum variants are JSON strings of their names; enums whose
//! variants carry a value are objects with the value under the type's
//! content key and the variant's name under "type", in that order, since
//! every content key sorts before "type".
use vstd::prelude::*;

use crate::types::{
    AddressFieldDetails, AllowedRecipientType, AllowedType, AutofillBehavior,
    DocumentCreateParams, FileAttributes, FileCreateParams, GroupAccess, GroupGetParams,
    GroupVaultAccess, Item, ItemCategory, ItemCreateParams, ItemField, ItemFieldDetails,
    ItemFieldType, ItemFile, ItemListFilter, ItemListFilterByStateInner, ItemSection,
    ItemShareAccountPolicy, ItemShareDuration, ItemShareFiles, ItemShareParams, OTPFieldDetails,
    PasswordRecipe, PasswordRecipeMemorableInner, PasswordRecipePinInner,
    PasswordRecipeRandomInner, SSHKeyAttributes, SeparatorType, ValidRecipient,
    ValidRecipientDomainInner, ValidRecipientEmailInner, VaultCreateParams, VaultGetParams,
    VaultListParams, VaultUpdateParams, Website, WordListType,
};
use crate::wire::{
    comma_joined, decimal_text, entry_views, json_array_text, json_object, json_object_text,
    json_string, json_string_text, push_char, u64_decimal,
};

verus! {

/// A value with a JSON form.
pub trait Json {
    /// The JSON text of the value.
    spec fn json(&self) -> Seq<char>;

    /// Writes the JSON text of the value.
    fn to_json(&self) -> (res: String)
        ensures
            res@ == self.json(),
    ;
}

impl Json for String {
    open spec fn json(&self) -> Seq<char> {
        json_string_text(self@)
    }

    fn to_json(&self) -> (res: String) {
        json_string(self.as_str())
    }
}

impl Json for bool {
    open spec fn json(&self) -> Seq<char> {
        if *self {
            "true"@
        } else {
            "false"@
        }
    }

    fn to_json(&self) -> (res: String) {
        if *self {
            "true".to_owned()
        } else {
            "false".to_owned()
        }
    }
}

impl Json for u32 {
    open spec fn json(&self) -> Seq<char> {
        decimal_text(*self as nat)
    }

    fn to_json(&self) -> (res: String) {
        u64_decimal(*self as u64)
    }
}

impl Json for u8 {
    open spec fn json(&self) -> Seq<char> {
        decimal_text(*self as nat)
    }

    fn to_json(&self) -> (res: String) {
        u64_decimal(*self as u64)
    }
}

/// The JSON texts of the elements of a sequence.
pub open spec fn element_texts<T: Json>(items: Seq<T>) -> Seq<Seq<char>> {
    Seq::new(items.len(), |i: int| items[i].json())
}

/// Writes a JSON array of the elements' JSON forms.
pub fn json_array<T: Json>(items: &[T]) -> (res: String)
    ensures
        res@ == json_array_text(element_texts(items@)),
{
    let ghost texts = element_texts(items@);
    let mut body = String::new();
    let n = items.len();
    let mut i: usize = 0;
    while i < n
        invariant
            n == items@.len(),
            i <= n,
            texts == element_texts(items@),
            body@ == comma_joined(texts.take(i as int)),
        decreases n - i,
    {
        let element = items[i].to_json();
        if i > 0 {
            push_char(&mut body, ',');
        }
        body.append(element.as_str());
        assert(texts.take(i + 1).drop_last() =~= texts.take(i as int));
        assert(texts.take(i + 1).last() == texts[i as int]);
        i = i + 1;
    }
    assert(texts.take(n as int) =~= texts);
    let mut res = String::new();
    push_char(&mut res, '[');
    res.append(body.as_str());
    push_char(&mut res, ']');
    assert(res@ =~= json_array_text(texts));
    res
}

impl<T: Json> Json for Vec<T> {
    open spec fn json(&self) -> Seq<char> {
        json_array_text(element_texts(self@))
    }

    fn to_json(&self) -> (res: String) {
        json_array(self.as_slice())
    }
}

/// A value that may be absent is `null` when it is.
impl<T: Json> Json for Option<T> {
    open spec fn json(&self) -> Seq<char> {
        match self {
            Some(v) => v.json(),
            None => "null"@,
        }
    }

    fn to_json(&self) -> (res: String) {
        match self {
            Some(v) => v.to_json(),
            None => "null".to_owned(),
        }
    }
}

/// The members so far with one more member.
pub open spec fn with_member(members: Seq<(Seq<char>, Seq<char>)>, key: Seq<char>, value: Seq<char>) -> Seq<(Seq<char>, Seq<char>)> {
    members.push((key, value))
}

/// The members so far with one more member when the value is present, and
/// unchanged when it is absent.
pub open spec fn with_optional_member<T: Json>(
    members: Seq<(Seq<char>, Seq<char>)>,
    key: Seq<char>,
    value: Option<T>,
) -> Seq<(Seq<char>, Seq<char>)> {
    match value {
        Some(v) => members.push((key, v.json())),
        None => members,
    }
}

/// No members yet.
fn no_members() -> (res: Vec<(String, String)>)
    ensures
        entry_views(res@) == Seq::<(Seq<char>, Seq<char>)>::empty(),
{
    let res: Vec<(String, String)> = Vec::new();
    assert(entry_views(res@) =~= Seq::<(Seq<char>, Seq<char>)>::empty());
    res
}

/// Adds a member whose value has the given JSON text.
fn add_member(members: &mut Vec<(String, String)>, key: &str, value: String)
    ensures
        entry_views(final(members)@) == with_member(entry_views(old(members)@), key@, value@),
{
    members.push((key.to_owned(), value));
    assert(entry_views(members@) =~= with_member(entry_views(old(members)@), key@, value@));
}

/// Adds a member for a value that may be absent; an absent value adds none.
fn add_optional_member<T: Json>(members: &mut Vec<(String, String)>, key: &str, value: &Option<T>)
    ensures
        entry_views(final(members)@) == with_optional_member(entry_views(old(members)@), key@, *value),
{
    match value {
        Some(v) => add_member(members, key, v.to_json()),
        None => {},
    }
}

/// An object with the variant's value under the content key, then the
/// variant's name under "type".
pub open spec fn tagged_text(tag: Seq<char>, content_key: Seq<char>, content: Seq<char>) -> Seq<char> {
    json_object_text(
        with_member(with_member(Seq::empty(), content_key, content), "type"@, json_string_text(tag)),
    )
}

fn tagged(tag: &str, content_key: &str, content: String) -> (res: String)
    ensures
        res@ == tagged_text(tag@, content_key@, content@),
{
    let mut members = no_members();
    add_member(&mut members, content_key, content);
    add_member(&mut members, "type", json_string(tag));
    json_object(members.as_slice())
}

/// The JSON form of `AddressFieldDetails`.
impl Json for AddressFieldDetails {
    open spec fn json(&self) -> Seq<char> {
        let members = Seq::empty();
        let members = with_member(members, "city"@, self.city.json());
        let members = with_member(members, "country"@, self.country.json());
        let members = with_member(members, "state"@, self.state.json());
        let members = with_member(members, "street"@, self.street.json());
        let members = with_member(members, "zip"@, self.zip.json());
        json_object_text(members)
    }

    fn to_json(&self) -> (res: String) {
        let mut members = no_members();
        add_member(&mut members, "city", self.city.to_json());
        add_member(&mut members, "country", self.country.to_json());
        add_member(&mut members, "state", self.state.to_json());
        add_member(&mut members, "street", self.street.to_json());
        add_member(&mut members, "zip", self.zip.to_json());
        json_object(members.as_slice())
    }
}

/// The JSON form of `DocumentCreateParams`.
impl Json for DocumentCreateParams {
    open spec fn json(&self) -> Seq<char> {
        let members = Seq::empty();
        let members = with_member(members, "content"@, self.content.json());
        let members = with_member(members, "name"@, self.name.json());
        json_object_text(members)
    }

    fn to_json(&self) -> (res: String) {
        let mut members = no_members();
        add_member(&mut members, "content", self.content.to_json());
        add_member(&mut members, "name", self.name.to_json());
        json_object(members.as_slice())
    }
}

/// The JSON form of `FileAttributes`.
impl Json for FileAttributes {
    open spec fn json(&self) -> Seq<char> {
        let members = Seq::empty();
        let members = with_member(members, "id"@, self.id.json());
        let members = with_member(members, "name"@, self.name.json());
        let members = with_member(members, "size"@, self.size.json());
        json_object_text(members)
    }

    fn to_json(&self) -> (res: String) {
        let mut members = no_members();
        add_member(&mut members, "id", self.id.to_json());
        add_member(&mut members, "name", self.name.to_json());
        add_member(&mut members, "size", self.size.to_json());
        json_object(members.as_slice())
    }
}

/// The JSON form of `FileCreateParams`.
impl Json for FileCreateParams {
    open spec fn json(&self) -> Seq<char> {
        let members = Seq::empty();
        let members = with_member(members, "content"@, self.content.json());
        let members = with_member(members, "fieldId"@, self.field_id.json());
        let members = with_member(members, "name"@, self.name.json());
        let members = with_member(members, "sectionId"@, self.section_id.json());
        json_object_text(members)
    }

    fn to_json(&self) -> (res: String) {
        let mut members = no_members();
        add_member(&mut members, "content", self.content.to_json());
        add_member(&mut members, "fieldId", self.field_id.to_json());
        add_member(&mut members, "name", self.name.to_json());
        add_member(&mut members, "sectionId", self.section_id.to_json());
        json_object(members.as_slice())
    }
}

/// The JSON form of `SeparatorType`.
impl Json for SeparatorType {
    open spec fn json(&self) -> Seq<char> {
        match self {
            SeparatorType::Digits => json_string_text("digits"@),
            SeparatorType::DigitsAndSymbols => json_string_text("digitsAndSymbols"@),
            SeparatorType::Spaces => json_string_text("spaces"@),
            SeparatorType::Hyphens => json_string_text("hyphens"@),
            SeparatorType::Underscores => json_string_text("underscores"@),
            SeparatorType::Periods => json_string_text("periods"@),
            SeparatorType::Commas => json_string_text("commas"@),
        }
    }

    fn to_json(&self) -> (res: String) {
        match self {
            SeparatorType::Digits => json_string("digits"),
            SeparatorType::DigitsAndSymbols => json_string("digitsAndSymbols"),
            SeparatorType::Spaces => json_string("spaces"),
            SeparatorType::Hyphens => json_string("hyphens"),
            SeparatorType::Underscores => json_string("underscores"),
            SeparatorType::Periods => json_string("periods"),
            SeparatorType::Commas => json_string("commas"),
        }
    }
}

/// The JSON form of `WordListType`.
impl Json for WordListType {
    open spec fn json(&self) -> Seq<char> {
        match self {
            WordListType::FullWords => json_string_text("fullWords"@),
            WordListType::Syllables => json_string_text("syllables"@),
            WordListType::ThreeLetters => json_string_text("threeLetters"@),
        }
    }

    fn to_json(&self) -> (res: String) {
        match self {
            WordListType::FullWords => json_string("fullWords"),
            WordListType::Syllables => json_string("syllables"),
            WordListType::ThreeLetters => json_string("threeLetters"),
        }
    }
}

/// The JSON form of `PasswordRecipeMemorableInner`.
impl Json for PasswordRecipeMemorableInner {
    open spec fn json(&self) -> Seq<char> {
        let members = Seq::empty();
        let members = with_member(members, "capitalize"@, self.capitalize.json());
        let members = with_member(members, "separatorType"@, self.separator_type.json());
        let members = with_member(members, "wordCount"@, self.word_count.json());
        let members = with_member(members, "wordListType"@, self.word_list_type.json());
        json_object_text(members)
    }

    fn to_json(&self) -> (res: String) {
        let mut members = no_members();
        add_member(&mut members, "capitalize", self.capitalize.to_json());
        add_member(&mut members, "separatorType", self.separator_type.to_json());
        add_member(&mut members, "wordCount", self.word_count.to_json());
        add_member(&mut members, "wordListType", self.word_list_type.to_json());
        json_object(members.as_slice())
    }
}

/// The JSON form of `PasswordRecipePinInner`.
impl Json for PasswordRecipePinInner {
    open spec fn json(&self) -> Seq<char> {
        let members = Seq::empty();
        let members = with_member(members, "length"@, self.length.json());
        json_object_text(members)
    }

    fn to_json(&self) -> (res: String) {
        let mut members = no_members();
        add_member(&mut members, "length", self.length.to_json());
        json_object(members.as_slice())
    }
}

/// The JSON form of `PasswordRecipeRandomInner`.
impl Json for PasswordRecipeRandomInner {
    open spec fn json(&self) -> Seq<char> {
        let members = Seq::empty();
        let members = with_member(members, "includeDigits"@, self.include_digits.json());
        let members = with_member(members, "includeSymbols"@, self.include_symbols.json());
        let members = with_member(members, "length"@, self.length.json());
        json_object_text(members)
    }

    fn to_json(&self) -> (res: String) {
        let mut members = no_members();
        add_member(&mut members, "includeDigits", self.include_digits.to_json());
        add_member(&mut members, "includeSymbols", self.include_symbols.to_json());
        add_member(&mut members, "length", self.length.to_json());
        json_object(members.as_slice())
    }
}

/// The JSON form of `PasswordRecipe`.
impl Json for PasswordRecipe {
    open spec fn json(&self) -> Seq<char> {
        match self {
            PasswordRecipe::Memorable(inner) => tagged_text("Memorable"@, "parameters"@, inner.json()),
            PasswordRecipe::Pin(inner) => tagged_text("Pin"@, "parameters"@, inner.json()),
            PasswordRecipe::Random(inner) => tagged_text("Random"@, "parameters"@, inner.json()),
        }
    }

    fn to_json(&self) -> (res: String) {
        match self {
            PasswordRecipe::Memorable(inner) => tagged("Memorable", "parameters", inner.to_json()),
            PasswordRecipe::Pin(inner) => tagged("Pin", "parameters", inner.to_json()),
            PasswordRecipe::Random(inner) => tagged("Random", "parameters", inner.to_json()),
        }
    }
}

/// The JSON form of `SSHKeyAttributes`.
impl Json for SSHKeyAttributes {
    open spec fn json(&self) -> Seq<char> {
        let members = Seq::empty();
        let members = with_member(members, "fingerprint"@, self.fingerprint.json());
        let members = with_member(members, "keyType"@, self.key_type.json());
        let members = with_member(members, "publicKey"@, self.public_key.json());
        json_object_text(members)
    }

    fn to_json(&self) -> (res: String) {
        let mut members = no_members();
        add_member(&mut members, "fingerprint", self.fingerprint.to_json());
        add_member(&mut members, "keyType", self.key_type.to_json());
        add_member(&mut members, "publicKey", self.public_key.to_json());
        json_object(members.as_slice())
    }
}

/// The JSON form of `OTPFieldDetails`.
impl Json for OTPFieldDetails {
    open spec fn json(&self) -> Seq<char> {
        let members = Seq::empty();
        let members = with_optional_member(members, "code"@, self.code);
        let members = with_optional_member(members, "errorMessage"@, self.error_message);
        json_object_text(members)
    }

    fn to_json(&self) -> (res: String) {
        let mut members = no_members();
        add_optional_member(&mut members, "code", &self.code);
        add_optional_member(&mut members, "errorMessage", &self.error_message);
        json_object(members.as_slice())
    }
}

/// The JSON form of `ItemFieldDetails`.
impl Json for ItemFieldDetails {
    open spec fn json(&self) -> Seq<char> {
        match self {
            ItemFieldDetails::Otp(inner) => tagged_text("Otp"@, "content"@, inner.json()),
            ItemFieldDetails::SshKey(inner) => tagged_text("SshKey"@, "content"@, inner.json()),
            ItemFieldDetails::Address(inner) => tagged_text("Address"@, "content"@, inner.json()),
        }
    }

    fn to_json(&self) -> (res: String) {
        match self {
            ItemFieldDetails::Otp(inner) => tagged("Otp", "content", inner.to_json()),
            ItemFieldDetails::SshKey(inner) => tagged("SshKey", "content", inner.to_json()),
            ItemFieldDetails::Address(inner) => tagged("Address", "content", inner.to_json()),
        }
    }
}

/// The JSON form of `ItemCategory`.
impl Json for ItemCategory {
    open spec fn json(&self) -> Seq<char> {
        match self {
            ItemCategory::Login => json_string_text("Login"@),
            ItemCategory::SecureNote => json_string_text("SecureNote"@),
            ItemCategory::CreditCard => json_string_text("CreditCard"@),
            ItemCategory::CryptoWallet => json_string_text("CryptoWallet"@),
            ItemCategory::Identity => json_string_text("Identity"@),
            ItemCategory::Password => json_string_text("Password"@),
            ItemCategory::Document => json_string_text("Document"@),
            ItemCategory::ApiCredentials => json_string_text("ApiCredentials"@),
            ItemCategory::BankAccount => json_string_text("BankAccount"@),
            ItemCategory::Database => json_string_text("Database"@),
            ItemCategory::DriverLicense => json_string_text("DriverLicense"@),
            ItemCategory::Email => json_string_text("Email"@),
            ItemCategory::MedicalRecord => json_string_text("MedicalRecord"@),
            ItemCategory::Membership => json_string_text("Membership"@),
            ItemCategory::OutdoorLicense => json_string_text("OutdoorLicense"@),
            ItemCategory::Passport => json_string_text("Passport"@),
            ItemCategory::Rewards => json_string_text("Rewards"@),
            ItemCategory::Router => json_string_text("Router"@),
            ItemCategory::Server => json_string_text("Server"@),
            ItemCategory::SshKey => json_string_text("SshKey"@),
            ItemCategory::SocialSecurityNumber => json_string_text("SocialSecurityNumber"@),
            ItemCategory::SoftwareLicense => json_string_text("SoftwareLicense"@),
            ItemCategory::Person => json_string_text("Person"@),
            ItemCategory::Unsupported => json_string_text("Unsupported"@),
        }
    }

    fn to_json(&self) -> (res: String) {
        match self {
            ItemCategory::Login => json_string("Login"),
            ItemCategory::SecureNote => json_string("SecureNote"),
            ItemCategory::CreditCard => json_string("CreditCard"),
            ItemCategory::CryptoWallet => json_string("CryptoWallet"),
            ItemCategory::Identity => json_string("Identity"),
            ItemCategory::Password => json_string("Password"),
            ItemCategory::Document => json_string("Document"),
            ItemCategory::ApiCredentials => json_string("ApiCredentials"),
            ItemCategory::BankAccount => json_string("BankAccount"),
            ItemCategory::Database => json_string("Database"),
            ItemCategory::DriverLicense => json_string("DriverLicense"),
            ItemCategory::Email => json_string("Email"),
            ItemCategory::MedicalRecord => json_string("MedicalRecord"),
            ItemCategory::Membership => json_string("Membership"),
            ItemCategory::OutdoorLicense => json_string("OutdoorLicense"),
            ItemCategory::Passport => json_string("Passport"),
            ItemCategory::Rewards => json_string("Rewards"),
            ItemCategory::Router => json_string("Router"),
            ItemCategory::Server => json_string("Server"),
            ItemCategory::SshKey => json_string("SshKey"),
            ItemCategory::SocialSecurityNumber => json_string("SocialSecurityNumber"),
            ItemCategory::SoftwareLicense => json_string("SoftwareLicense"),
            ItemCategory::Person => json_string("Person"),
            ItemCategory::Unsupported => json_string("Unsupported"),
        }
    }
}

/// The JSON form of `ItemFieldType`.
impl Json for ItemFieldType {
    open spec fn json(&self) -> Seq<char> {
        match self {
            ItemFieldType::Text => json_string_text("Text"@),
            ItemFieldType::Concealed => json_string_text("Concealed"@),
            ItemFieldType::CreditCardType => json_string_text("CreditCardType"@),
            ItemFieldType::CreditCardNumber => json_string_text("CreditCardNumber"@),
            ItemFieldType::Phone => json_string_text("Phone"@),
            ItemFieldType::Url => json_string_text("Url"@),
            ItemFieldType::Totp => json_string_text("Totp"@),
            ItemFieldType::Email => json_string_text("Email"@),
            ItemFieldType::Reference => json_string_text("Reference"@),
            ItemFieldType::SshKey => json_string_text("SshKey"@),
            ItemFieldType::Menu => json_string_text("Menu"@),
            ItemFieldType::MonthYear => json_string_text("MonthYear"@),
            ItemFieldType::Address => json_string_text("Address"@),
            ItemFieldType::Date => json_string_text("Date"@),
            ItemFieldType::Unsupported => json_string_text("Unsupported"@),
        }
    }

    fn to_json(&self) -> (res: String) {
        match self {
            ItemFieldType::Text => json_string("Text"),
            ItemFieldType::Concealed => json_string("Concealed"),
            ItemFieldType::CreditCardType => json_string("CreditCardType"),
            ItemFieldType::CreditCardNumber => json_string("CreditCardNumber"),
            ItemFieldType::Phone => json_string("Phone"),
            ItemFieldType::Url => json_string("Url"),
            ItemFieldType::Totp => json_string("Totp"),
            ItemFieldType::Email => json_string("Email"),
            ItemFieldType::Reference => json_string("Reference"),
            ItemFieldType::SshKey => json_string("SshKey"),
            ItemFieldType::Menu => json_string("Menu"),
            ItemFieldType::MonthYear => json_string("MonthYear"),
            ItemFieldType::Address => json_string("Address"),
            ItemFieldType::Date => json_string("Date"),
            ItemFieldType::Unsupported => json_string("Unsupported"),
        }
    }
}

/// The JSON form of `AutofillBehavior`.
impl Json for AutofillBehavior {
    open spec fn json(&self) -> Seq<char> {
        match self {
            AutofillBehavior::AnywhereOnWebsite => json_string_text("AnywhereOnWebsite"@),
            AutofillBehavior::ExactDomain => json_string_text("ExactDomain"@),
            AutofillBehavior::Never => json_string_text("Never"@),
        }
    }

    fn to_json(&self) -> (res: String) {
        match self {
            AutofillBehavior::AnywhereOnWebsite => json_string("AnywhereOnWebsite"),
            AutofillBehavior::ExactDomain => json_string("ExactDomain"),
            AutofillBehavior::Never => json_string("Never"),
        }
    }
}

/// The JSON form of `Website`.
impl Json for Website {
    open spec fn json(&self) -> Seq<char> {
        let members = Seq::empty();
        let members = with_member(members, "autofillBehavior"@, self.autofill_behavior.json());
        let members = with_member(members, "label"@, self.label.json());
        let members = with_member(members, "url"@, self.url.json());
        json_object_text(members)
    }

    fn to_json(&self) -> (res: String) {
        let mut members = no_members();
        add_member(&mut members, "autofillBehavior", self.autofill_behavior.to_json());
        add_member(&mut members, "label", self.label.to_json());
        add_member(&mut members, "url", self.url.to_json());
        json_object(members.as_slice())
    }
}

/// The JSON form of `ItemField`.
impl Json for ItemField {
    open spec fn json(&self) -> Seq<char> {
        let members = Seq::empty();
        let members = with_optional_member(members, "details"@, self.details);
        let members = with_member(members, "fieldType"@, self.field_type.json());
        let members = with_member(members, "id"@, self.id.json());
        let members = with_optional_member(members, "sectionId"@, self.section_id);
        let members = with_member(members, "title"@, self.title.json());
        let members = with_member(members, "value"@, self.value.json());
        json_object_text(members)
    }

    fn to_json(&self) -> (res: String) {
        let mut members = no_members();
        add_optional_member(&mut members, "details", &self.details);
        add_member(&mut members, "fieldType", self.field_type.to_json());
        add_member(&mut members, "id", self.id.to_json());
        add_optional_member(&mut members, "sectionId", &self.section_id);
        add_member(&mut members, "title", self.title.to_json());
        add_member(&mut members, "value", self.value.to_json());
        json_object(members.as_slice())
    }
}

/// The JSON form of `ItemSection`.
impl Json for ItemSection {
    open spec fn json(&self) -> Seq<char> {
        let members = Seq::empty();
        let members = with_member(members, "id"@, self.id.json());
        let members = with_member(members, "title"@, self.title.json());
        json_object_text(members)
    }

    fn to_json(&self) -> (res: String) {
        let mut members = no_members();
        add_member(&mut members, "id", self.id.to_json());
        add_member(&mut members, "title", self.title.to_json());
        json_object(members.as_slice())
    }
}

/// The JSON form of `ItemFile`.
impl Json for ItemFile {
    open spec fn json(&self) -> Seq<char> {
        let members = Seq::empty();
        let members = with_member(members, "attributes"@, self.attributes.json());
        let members = with_member(members, "fieldId"@, self.field_id.json());
        let members = with_member(members, "sectionId"@, self.section_id.json());
        json_object_text(members)
    }

    fn to_json(&self) -> (res: String) {
        let mut members = no_members();
        add_member(&mut members, "attributes", self.attributes.to_json());
        add_member(&mut members, "fieldId", self.field_id.to_json());
        add_member(&mut members, "sectionId", self.section_id.to_json());
        json_object(members.as_slice())
    }
}

/// The JSON form of `Item`.
impl Json for Item {
    open spec fn json(&self) -> Seq<char> {
        let members = Seq::empty();
        let members = with_member(members, "category"@, self.category.json());
        let members = with_member(members, "createdAt"@, self.created_at.json());
        let members = with_optional_member(members, "document"@, self.document);
        let members = with_member(members, "fields"@, self.fields.json());
        let members = with_member(members, "files"@, self.files.json());
        let members = with_member(members, "id"@, self.id.json());
        let members = with_member(members, "notes"@, self.notes.json());
        let members = with_member(members, "sections"@, self.sections.json());
        let members = with_member(members, "tags"@, self.tags.json());
        let members = with_member(members, "title"@, self.title.json());
        let members = with_member(members, "updatedAt"@, self.updated_at.json());
        let members = with_member(members, "vaultId"@, self.vault_id.json());
        let members = with_member(members, "version"@, self.version.json());
        let members = with_member(members, "websites"@, self.websites.json());
        json_object_text(members)
    }

    fn to_json(&self) -> (res: String) {
        let mut members = no_members();
        add_member(&mut members, "category", self.category.to_json());
        add_member(&mut members, "createdAt", self.created_at.to_json());
        add_optional_member(&mut members, "document", &self.document);
        add_member(&mut members, "fields", self.fields.to_json());
        add_member(&mut members, "files", self.files.to_json());
        add_member(&mut members, "id", self.id.to_json());
        add_member(&mut members, "notes", self.notes.to_json());
        add_member(&mut members, "sections", self.sections.to_json());
        add_member(&mut members, "tags", self.tags.to_json());
        add_member(&mut members, "title", self.title.to_json());
        add_member(&mut members, "updatedAt", self.updated_at.to_json());
        add_member(&mut members, "vaultId", self.vault_id.to_json());
        add_member(&mut members, "version", self.version.to_json());
        add_member(&mut members, "websites", self.websites.to_json());
        json_object(members.as_slice())
    }
}

/// The JSON form of `ItemCreateParams`.
impl Json for ItemCreateParams {
    open spec fn json(&self) -> Seq<char> {
        let members = Seq::empty();
        let members = with_member(members, "category"@, self.category.json());
        let members = with_optional_member(members, "document"@, self.document);
        let members = with_optional_member(members, "fields"@, self.fields);
        let members = with_optional_member(members, "files"@, self.files);
        let members = with_optional_member(members, "notes"@, self.notes);
        let members = with_optional_member(members, "sections"@, self.sections);
        let members = with_optional_member(members, "tags"@, self.tags);
        let members = with_member(members, "title"@, self.title.json());
        let members = with_member(members, "vaultId"@, self.vault_id.json());
        let members = with_optional_member(members, "websites"@, self.websites);
        json_object_text(members)
    }

    fn to_json(&self) -> (res: String) {
        let mut members = no_members();
        add_member(&mut members, "category", self.category.to_json());
        add_optional_member(&mut members, "document", &self.document);
        add_optional_member(&mut members, "fields", &self.fields);
        add_optional_member(&mut members, "files", &self.files);
        add_optional_member(&mut members, "notes", &self.notes);
        add_optional_member(&mut members, "sections", &self.sections);
        add_optional_member(&mut members, "tags", &self.tags);
        add_member(&mut members, "title", self.title.to_json());
        add_member(&mut members, "vaultId", self.vault_id.to_json());
        add_optional_member(&mut members, "websites", &self.websites);
        json_object(members.as_slice())
    }
}

/// The JSON form of `ItemListFilterByStateInner`.
impl Json for ItemListFilterByStateInner {
    open spec fn json(&self) -> Seq<char> {
        let members = Seq::empty();
        let members = with_member(members, "active"@, self.active.json());
        let members = with_member(members, "archived"@, self.archived.json());
        json_object_text(members)
    }

    fn to_json(&self) -> (res: String) {
        let mut members = no_members();
        add_member(&mut members, "active", self.active.to_json());
        add_member(&mut members, "archived", self.archived.to_json());
        json_object(members.as_slice())
    }
}

/// The JSON form of `ItemListFilter`.
impl Json for ItemListFilter {
    open spec fn json(&self) -> Seq<char> {
        match self {
            ItemListFilter::ByState(inner) => tagged_text("ByState"@, "content"@, inner.json()),
        }
    }

    fn to_json(&self) -> (res: String) {
        match self {
            ItemListFilter::ByState(inner) => tagged("ByState", "content", inner.to_json()),
        }
    }
}

/// The JSON form of `ItemShareDuration`.
impl Json for ItemShareDuration {
    open spec fn json(&self) -> Seq<char> {
        match self {
            ItemShareDuration::OneHour => json_string_text("OneHour"@),
            ItemShareDuration::OneDay => json_string_text("OneDay"@),
            ItemShareDuration::SevenDays => json_string_text("SevenDays"@),
            ItemShareDuration::FourteenDays => json_string_text("FourteenDays"@),
            ItemShareDuration::ThirtyDays => json_string_text("ThirtyDays"@),
        }
    }

    fn to_json(&self) -> (res: String) {
        match self {
            ItemShareDuration::OneHour => json_string("OneHour"),
            ItemShareDuration::OneDay => json_string("OneDay"),
            ItemShareDuration::SevenDays => json_string("SevenDays"),
            ItemShareDuration::FourteenDays => json_string("FourteenDays"),
            ItemShareDuration::ThirtyDays => json_string("ThirtyDays"),
        }
    }
}

/// The JSON form of `AllowedType`.
impl Json for AllowedType {
    open spec fn json(&self) -> Seq<char> {
        match self {
            AllowedType::Authenticated => json_string_text("Authenticated"@),
            AllowedType::Public => json_string_text("Public"@),
        }
    }

    fn to_json(&self) -> (res: String) {
        match self {
            AllowedType::Authenticated => json_string("Authenticated"),
            AllowedType::Public => json_string("Public"),
        }
    }
}

/// The JSON form of `AllowedRecipientType`.
impl Json for AllowedRecipientType {
    open spec fn json(&self) -> Seq<char> {
        match self {
            AllowedRecipientType::Email => json_string_text("Email"@),
            AllowedRecipientType::Domain => json_string_text("Domain"@),
        }
    }

    fn to_json(&self) -> (res: String) {
        match self {
            AllowedRecipientType::Email => json_string("Email"),
            AllowedRecipientType::Domain => json_string("Domain"),
        }
    }
}

/// The JSON form of `ItemShareFiles`.
impl Json for ItemShareFiles {
    open spec fn json(&self) -> Seq<char> {
        let members = Seq::empty();
        let members = with_member(members, "allowed"@, self.allowed.json());
        let members = with_optional_member(members, "allowedRecipientTypes"@, self.allowed_recipient_types);
        let members = with_optional_member(members, "allowedTypes"@, self.allowed_types);
        let members = with_optional_member(members, "defaultExpiry"@, self.default_expiry);
        let members = with_optional_member(members, "maxExpiry"@, self.max_expiry);
        let members = with_member(members, "maxSize"@, self.max_size.json());
        let members = with_optional_member(members, "maxViews"@, self.max_views);
        json_object_text(members)
    }

    fn to_json(&self) -> (res: String) {
        let mut members = no_members();
        add_member(&mut members, "allowed", self.allowed.to_json());
        add_optional_member(&mut members, "allowedRecipientTypes", &self.allowed_recipient_types);
        add_optional_member(&mut members, "allowedTypes", &self.allowed_types);
        add_optional_member(&mut members, "defaultExpiry", &self.default_expiry);
        add_optional_member(&mut members, "maxExpiry", &self.max_expiry);
        add_member(&mut members, "maxSize", self.max_size.to_json());
        add_optional_member(&mut members, "maxViews", &self.max_views);
        json_object(members.as_slice())
    }
}

/// The JSON form of `ItemShareAccountPolicy`.
impl Json for ItemShareAccountPolicy {
    open spec fn json(&self) -> Seq<char> {
        let members = Seq::empty();
        let members = with_member(members, "allowedRecipientTypes"@, self.allowed_recipient_types.json());
        let members = with_member(members, "allowedTypes"@, self.allowed_types.json());
        let members = with_member(members, "defaultExpiry"@, self.default_expiry.json());
        let members = with_member(members, "files"@, self.files.json());
        let members = with_member(members, "maxExpiry"@, self.max_expiry.json());
        let members = with_optional_member(members, "maxViews"@, self.max_views);
        json_object_text(members)
    }

    fn to_json(&self) -> (res: String) {
        let mut members = no_members();
        add_member(&mut members, "allowedRecipientTypes", self.allowed_recipient_types.to_json());
        add_member(&mut members, "allowedTypes", self.allowed_types.to_json());
        add_member(&mut members, "defaultExpiry", self.default_expiry.to_json());
        add_member(&mut members, "files", self.files.to_json());
        add_member(&mut members, "maxExpiry", self.max_expiry.to_json());
        add_optional_member(&mut members, "maxViews", &self.max_views);
        json_object(members.as_slice())
    }
}

/// The JSON form of `ValidRecipientEmailInner`.
impl Json for ValidRecipientEmailInner {
    open spec fn json(&self) -> Seq<char> {
        let members = Seq::empty();
        let members = with_member(members, "email"@, self.email.json());
        json_object_text(members)
    }

    fn to_json(&self) -> (res: String) {
        let mut members = no_members();
        add_member(&mut members, "email", self.email.to_json());
        json_object(members.as_slice())
    }
}

/// The JSON form of `ValidRecipientDomainInner`.
impl Json for ValidRecipientDomainInner {
    open spec fn json(&self) -> Seq<char> {
        let members = Seq::empty();
        let members = with_member(members, "domain"@, self.domain.json());
        json_object_text(members)
    }

    fn to_json(&self) -> (res: String) {
        let mut members = no_members();
        add_member(&mut members, "domain", self.domain.to_json());
        json_object(members.as_slice())
    }
}

/// The JSON form of `ValidRecipient`.
impl Json for ValidRecipient {
    open spec fn json(&self) -> Seq<char> {
        match self {
            ValidRecipient::Email(inner) => tagged_text("Email"@, "parameters"@, inner.json()),
            ValidRecipient::Domain(inner) => tagged_text("Domain"@, "parameters"@, inner.json()),
        }
    }

    fn to_json(&self) -> (res: String) {
        match self {
            ValidRecipient::Email(inner) => tagged("Email", "parameters", inner.to_json()),
            ValidRecipient::Domain(inner) => tagged("Domain", "parameters", inner.to_json()),
        }
    }
}

/// The JSON form of `ItemShareParams`.
impl Json for ItemShareParams {
    open spec fn json(&self) -> Seq<char> {
        let members = Seq::empty();
        let members = with_optional_member(members, "expireAfter"@, self.expire_after);
        let members = with_member(members, "oneTimeOnly"@, self.one_time_only.json());
        let members = with_optional_member(members, "recipients"@, self.recipients);
        json_object_text(members)
    }

    fn to_json(&self) -> (res: String) {
        let mut members = no_members();
        add_optional_member(&mut members, "expireAfter", &self.expire_after);
        add_member(&mut members, "oneTimeOnly", self.one_time_only.to_json());
        add_optional_member(&mut members, "recipients", &self.recipients);
        json_object(members.as_slice())
    }
}

/// The JSON form of `GroupAccess`.
impl Json for GroupAccess {
    open spec fn json(&self) -> Seq<char> {
        let members = Seq::empty();
        let members = with_member(members, "groupId"@, self.group_id.json());
        let members = with_member(members, "permissions"@, self.permissions.json());
        json_object_text(members)
    }

    fn to_json(&self) -> (res: String) {
        let mut members = no_members();
        add_member(&mut members, "groupId", self.group_id.to_json());
        add_member(&mut members, "permissions", self.permissions.to_json());
        json_object(members.as_slice())
    }
}

/// The JSON form of `GroupGetParams`.
impl Json for GroupGetParams {
    open spec fn json(&self) -> Seq<char> {
        let members = Seq::empty();
        let members = with_optional_member(members, "vaultPermissions"@, self.vault_permissions);
        json_object_text(members)
    }

    fn to_json(&self) -> (res: String) {
        let mut members = no_members();
        add_optional_member(&mut members, "vaultPermissions", &self.vault_permissions);
        json_object(members.as_slice())
    }
}

/// The JSON form of `GroupVaultAccess`.
impl Json for GroupVaultAccess {
    open spec fn json(&self) -> Seq<char> {
        let members = Seq::empty();
        let members = with_member(members, "groupId"@, self.group_id.json());
        let members = with_member(members, "permissions"@, self.permissions.json());
        let members = with_member(members, "vaultId"@, self.vault_id.json());
        json_object_text(members)
    }

    fn to_json(&self) -> (res: String) {
        let mut members = no_members();
        add_member(&mut members, "groupId", self.group_id.to_json());
        add_member(&mut members, "permissions", self.permissions.to_json());
        add_member(&mut members, "vaultId", self.vault_id.to_json());
        json_object(members.as_slice())
    }
}

/// The JSON form of `VaultCreateParams`.
impl Json for VaultCreateParams {
    open spec fn json(&self) -> Seq<char> {
        let members = Seq::empty();
        let members = with_optional_member(members, "allowAdminsAccess"@, self.allow_admins_access);
        let members = with_optional_member(members, "description"@, self.description);
        let members = with_member(members, "title"@, self.title.json());
        json_object_text(members)
    }

    fn to_json(&self) -> (res: String) {
        let mut members = no_members();
        add_optional_member(&mut members, "allowAdminsAccess", &self.allow_admins_access);
        add_optional_member(&mut members, "description", &self.description);
        add_member(&mut members, "title", self.title.to_json());
        json_object(members.as_slice())
    }
}

/// The JSON form of `VaultGetParams`.
impl Json for VaultGetParams {
    open spec fn json(&self) -> Seq<char> {
        let members = Seq::empty();
        let members = with_optional_member(members, "accessors"@, self.accessors);
        json_object_text(members)
    }

    fn to_json(&self) -> (res: String) {
        let mut members = no_members();
        add_optional_member(&mut members, "accessors", &self.accessors);
        json_object(members.as_slice())
    }
}

/// The JSON form of `VaultListParams`.
impl Json for VaultListParams {
    open spec fn json(&self) -> Seq<char> {
        let members = Seq::empty();
        let members = with_optional_member(members, "decryptDetails"@, self.decrypt_details);
        json_object_text(members)
    }

    fn to_json(&self) -> (res: String) {
        let mut members = no_members();
        add_optional_member(&mut members, "decryptDetails", &self.decrypt_details);
        json_object(members.as_slice())
    }
}

/// The JSON form of `VaultUpdateParams`.
impl Json for VaultUpdateParams {
    open spec fn json(&self) -> Seq<char> {
        let members = Seq::empty();
        let members = with_optional_member(members, "description"@, self.description);
        let members = with_optional_member(members, "title"@, self.title);
        json_object_text(members)
    }

    fn to_json(&self) -> (res: String) {
        let mut members = no_members();
        add_optional_member(&mut members, "description", &self.description);
        add_optional_member(&mut members, "title", &self.title);
        json_object(members.as_slice())
    }
}

} // verus!
