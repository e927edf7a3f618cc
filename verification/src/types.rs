//! The values that travel between the SDK and the 1Password core: items,
//! vaults, groups, secrets, sharing policies and the batch responses.
use std::collections::HashMap;
use vstd::prelude::*;

verus! {
pub type ErrorMessage = String;

#[derive(Debug, Clone, PartialEq, Eq)]
pub struct AddressFieldDetails {
    pub street: String,
    pub city: String,
    pub country: String,
    pub zip: String,
    pub state: String,
}

#[derive(Debug, Clone, PartialEq, Eq)]
pub struct DocumentCreateParams {
    pub name: String,
    pub content: Vec<u8>,
}

#[derive(Debug, Clone, PartialEq, Eq)]
pub struct FileAttributes {
    pub name: String,
    pub id: String,
    pub size: u32,
}

#[derive(Debug, Clone, PartialEq, Eq)]
pub struct FileCreateParams {
    pub name: String,
    pub content: Vec<u8>,
    pub section_id: String,
    pub field_id: String,
}

#[derive(Debug, Clone, PartialEq, Eq)]
pub struct EnvironmentVariable {
    pub name: String,
    pub value: String,
    pub masked: bool,
}

#[derive(Debug, Clone, PartialEq, Eq)]
pub struct GetVariablesResponse {
    pub variables: Vec<EnvironmentVariable>,
}

#[derive(Clone, PartialEq, Eq)]
pub struct GeneratePasswordResponse {
    pub password: String,
}

#[derive(Debug, Clone, PartialEq, Eq)]
pub enum SeparatorType {
    Digits,
    DigitsAndSymbols,
    Spaces,
    Hyphens,
    Underscores,
    Periods,
    Commas,
}

#[derive(Debug, Clone, PartialEq, Eq)]
pub enum WordListType {
    FullWords,
    Syllables,
    ThreeLetters,
}

#[derive(Debug, Clone, PartialEq, Eq)]
pub struct PasswordRecipeMemorableInner {
    pub separator_type: SeparatorType,
    pub capitalize: bool,
    pub word_list_type: WordListType,
    pub word_count: u32,
}

#[derive(Debug, Clone, PartialEq, Eq)]
pub struct PasswordRecipePinInner {
    pub length: u32,
}

#[derive(Debug, Clone, PartialEq, Eq)]
pub struct PasswordRecipeRandomInner {
    pub include_digits: bool,
    pub include_symbols: bool,
    pub length: u32,
}

#[derive(Debug, Clone, PartialEq, Eq)]
pub enum PasswordRecipe {
    Memorable(PasswordRecipeMemorableInner),
    Pin(PasswordRecipePinInner),
    Random(PasswordRecipeRandomInner),
}

#[derive(Debug, Clone, PartialEq, Eq)]
pub struct SSHKeyAttributes {
    pub public_key: String,
    pub fingerprint: String,
    pub key_type: String,
}

#[derive(Debug, Clone, PartialEq, Eq)]
pub struct OTPFieldDetails {
    pub code: Option<String>,
    pub error_message: Option<String>,
}

#[derive(Debug, Clone, PartialEq, Eq)]
pub enum ItemFieldDetails {
    Otp(OTPFieldDetails),
    SshKey(SSHKeyAttributes),
    Address(AddressFieldDetails),
}

#[derive(Debug, Clone, PartialEq, Eq)]
pub enum ItemCategory {
    Login,
    SecureNote,
    CreditCard,
    CryptoWallet,
    Identity,
    Password,
    Document,
    ApiCredentials,
    BankAccount,
    Database,
    DriverLicense,
    Email,
    MedicalRecord,
    Membership,
    OutdoorLicense,
    Passport,
    Rewards,
    Router,
    Server,
    SshKey,
    SocialSecurityNumber,
    SoftwareLicense,
    Person,
    Unsupported,
}

#[derive(Debug, Clone, PartialEq, Eq)]
pub enum ItemFieldType {
    Text,
    Concealed,
    CreditCardType,
    CreditCardNumber,
    Phone,
    Url,
    Totp,
    Email,
    Reference,
    SshKey,
    Menu,
    MonthYear,
    Address,
    Date,
    Unsupported,
}

#[derive(Debug, Clone, PartialEq, Eq)]
pub enum ItemState {
    Active,
    Archived,
}

#[derive(Debug, Clone, PartialEq, Eq)]
pub enum AutofillBehavior {
    AnywhereOnWebsite,
    ExactDomain,
    Never,
}

#[derive(Debug, Clone, PartialEq, Eq)]
pub struct Website {
    pub url: String,
    pub label: String,
    pub autofill_behavior: AutofillBehavior,
}

#[derive(Clone, PartialEq, Eq)]
pub struct ItemField {
    pub id: String,
    pub title: String,
    pub section_id: Option<String>,
    pub field_type: ItemFieldType,
    pub value: String,
    pub details: Option<ItemFieldDetails>,
}

#[derive(Debug, Clone, PartialEq, Eq)]
pub struct ItemSection {
    pub id: String,
    pub title: String,
}

#[derive(Debug, Clone, PartialEq, Eq)]
pub struct ItemFile {
    pub attributes: FileAttributes,
    pub section_id: String,
    pub field_id: String,
}

#[derive(Clone, PartialEq, Eq)]
pub struct Item {
    pub id: String,
    pub title: String,
    pub category: ItemCategory,
    pub vault_id: String,
    pub fields: Vec<ItemField>,
    pub sections: Vec<ItemSection>,
    pub notes: String,
    pub tags: Vec<String>,
    pub websites: Vec<Website>,
    pub version: u32,
    pub files: Vec<ItemFile>,
    pub document: Option<FileAttributes>,
    pub created_at: String,
    pub updated_at: String,
}

#[derive(Clone, PartialEq, Eq)]
pub struct ItemCreateParams {
    pub category: ItemCategory,
    pub vault_id: String,
    pub title: String,
    pub fields: Option<Vec<ItemField>>,
    pub sections: Option<Vec<ItemSection>>,
    pub notes: Option<String>,
    pub tags: Option<Vec<String>>,
    pub websites: Option<Vec<Website>>,
    pub files: Option<Vec<FileCreateParams>>,
    pub document: Option<DocumentCreateParams>,
}

#[derive(Debug, Clone, PartialEq, Eq)]
pub struct ItemOverview {
    pub id: String,
    pub title: String,
    pub category: ItemCategory,
    pub vault_id: String,
    pub websites: Vec<Website>,
    pub tags: Vec<String>,
    pub created_at: String,
    pub updated_at: String,
    pub state: ItemState,
}

#[derive(Debug, Clone, PartialEq, Eq)]
pub struct ItemListFilterByStateInner {
    pub active: bool,
    pub archived: bool,
}

#[derive(Debug, Clone, PartialEq, Eq)]
pub enum ItemListFilter {
    ByState(ItemListFilterByStateInner),
}

#[derive(Debug, Clone, PartialEq, Eq)]
pub enum ItemShareDuration {
    OneHour,
    OneDay,
    SevenDays,
    FourteenDays,
    ThirtyDays,
}

#[derive(Debug, Clone, PartialEq, Eq)]
pub enum AllowedType {
    Authenticated,
    Public,
}

#[derive(Debug, Clone, PartialEq, Eq)]
pub enum AllowedRecipientType {
    Email,
    Domain,
}

#[derive(Debug, Clone, PartialEq, Eq)]
pub struct ItemShareFiles {
    pub allowed: bool,
    pub max_size: u32,
    pub allowed_types: Option<Vec<AllowedType>>,
    pub allowed_recipient_types: Option<Vec<AllowedRecipientType>>,
    pub max_expiry: Option<ItemShareDuration>,
    pub default_expiry: Option<ItemShareDuration>,
    pub max_views: Option<u32>,
}

#[derive(Debug, Clone, PartialEq, Eq)]
pub struct ItemShareAccountPolicy {
    pub max_expiry: ItemShareDuration,
    pub default_expiry: ItemShareDuration,
    pub max_views: Option<u32>,
    pub allowed_types: Vec<AllowedType>,
    pub allowed_recipient_types: Vec<AllowedRecipientType>,
    pub files: ItemShareFiles,
}

#[derive(Debug, Clone, PartialEq, Eq)]
pub struct ValidRecipientEmailInner {
    pub email: String,
}

#[derive(Debug, Clone, PartialEq, Eq)]
pub struct ValidRecipientDomainInner {
    pub domain: String,
}

#[derive(Debug, Clone, PartialEq, Eq)]
pub enum ValidRecipient {
    Email(ValidRecipientEmailInner),
    Domain(ValidRecipientDomainInner),
}

#[derive(Debug, Clone, PartialEq, Eq)]
pub struct ItemShareParams {
    pub recipients: Option<Vec<ValidRecipient>>,
    pub expire_after: Option<ItemShareDuration>,
    pub one_time_only: bool,
}

#[derive(Debug, Clone, PartialEq, Eq)]
pub struct BatchResponse<T, E> {
    pub content: Option<T>,
    pub error: Option<E>,
}

#[derive(Debug, Clone, PartialEq, Eq)]
pub enum ItemUpdateFailureReason {
    ItemValidationError(ErrorMessage),
    ItemStatusPermissionError,
    ItemStatusIncorrectItemVersion,
    ItemStatusFileNotFound,
    ItemStatusTooBig,
    ItemNotFound,
    Internal(ErrorMessage),
}

#[derive(Debug, Clone, PartialEq, Eq)]
pub struct ItemsDeleteAllResponse {
    pub individual_responses:
        HashMap<String, BatchResponse<(), ItemUpdateFailureReason>>,
}

#[derive(Debug, Clone, PartialEq, Eq)]
pub enum ItemsGetAllError {
    ItemNotFound,
    Internal(ErrorMessage),
}

#[derive(Clone, PartialEq, Eq)]
pub struct ItemsGetAllResponse {
    pub individual_responses: Vec<BatchResponse<Item, ItemsGetAllError>>,
}

#[derive(Clone, PartialEq, Eq)]
pub struct ItemsUpdateAllResponse {
    pub individual_responses: Vec<BatchResponse<Item, ItemUpdateFailureReason>>,
}

#[derive(Clone, PartialEq, Eq)]
pub struct ResolvedReference {
    pub secret: String,
    pub item_id: String,
    pub vault_id: String,
}

#[derive(Debug, Clone, PartialEq, Eq)]
pub enum ResolveReferenceError {
    Parsing(ErrorMessage),
    FieldNotFound,
    VaultNotFound,
    TooManyVaults,
    ItemNotFound,
    TooManyItems,
    TooManyMatchingFields,
    NoMatchingSections,
    IncompatibleTOTPQueryParameterField,
    UnableToGenerateTOTPCode(ErrorMessage),
    SSHKeyMetadataNotFound,
    UnsupportedFileFormat,
    IncompatibleSSHKeyQueryParameterField,
    UnableToParsePrivateKey,
    UnableToFormatPrivateKeyToOpenSSH,
    Other,
}

#[derive(Clone, PartialEq, Eq)]
pub struct ResolveAllResponse {
    pub individual_responses:
        HashMap<String, BatchResponse<ResolvedReference, ResolveReferenceError>>,
}

#[derive(Debug, Clone, PartialEq, Eq)]
pub enum GroupType {
    Owners,
    Administrators,
    Recovery,
    ExternalAccountManagers,
    TeamMembers,
    UserDefined,
    Unsupported,
}

#[derive(Debug, Clone, PartialEq, Eq)]
pub enum GroupState {
    Active,
    Deleted,
    Unsupported,
}

#[derive(Debug, Clone, PartialEq, Eq)]
pub enum VaultAccessorType {
    User,
    Group,
}

#[derive(Debug, Clone, PartialEq, Eq)]
pub struct VaultAccess {
    pub vault_uuid: String,
    pub accessor_type: VaultAccessorType,
    pub accessor_uuid: String,
    pub permissions: u32,
}

#[derive(Debug, Clone, PartialEq, Eq)]
pub struct Group {
    pub id: String,
    pub title: String,
    pub description: String,
    pub group_type: GroupType,
    pub state: GroupState,
    pub vault_access: Option<Vec<VaultAccess>>,
}

#[derive(Debug, Clone, PartialEq, Eq)]
pub struct GroupAccess {
    pub group_id: String,
    pub permissions: u32,
}

#[derive(Debug, Clone, PartialEq, Eq)]
pub struct GroupGetParams {
    pub vault_permissions: Option<bool>,
}

#[derive(Debug, Clone, PartialEq, Eq)]
pub struct GroupVaultAccess {
    pub vault_id: String,
    pub group_id: String,
    pub permissions: u32,
}

#[derive(Debug, Clone, PartialEq, Eq)]
pub enum VaultType {
    Personal,
    Everyone,
    Transfer,
    UserCreated,
    Unsupported,
}

#[derive(Debug, Clone, PartialEq, Eq)]
pub struct Vault {
    pub id: String,
    pub title: String,
    pub description: String,
    pub vault_type: VaultType,
    pub active_item_count: u32,
    pub content_version: u32,
    pub attribute_version: u32,
    pub access: Option<Vec<VaultAccess>>,
}

#[derive(Debug, Clone, PartialEq, Eq)]
pub struct VaultCreateParams {
    pub title: String,
    pub description: Option<String>,
    pub allow_admins_access: Option<bool>,
}

#[derive(Debug, Clone, PartialEq, Eq)]
pub struct VaultGetParams {
    pub accessors: Option<bool>,
}

#[derive(Debug, Clone, PartialEq, Eq)]
pub struct VaultListParams {
    pub decrypt_details: Option<bool>,
}

#[derive(Debug, Clone, PartialEq, Eq)]
pub struct VaultOverview {
    pub id: String,
    pub title: String,
    pub description: String,
    pub vault_type: VaultType,
    pub active_item_count: u32,
    pub content_version: u32,
    pub attribute_version: u32,
    pub created_at: String,
    pub updated_at: String,
}

#[derive(Debug, Clone, PartialEq, Eq)]
pub struct VaultUpdateParams {
    pub title: Option<String>,
    pub description: Option<String>,
}

} // verus!
