//! The verified core of the 1Password SDK: the messages it exchanges with
//! the 1Password core, the requests of each API, how errors of the core
//! become typed errors, the retry of a call whose desktop session expired,
//! and the validation of a client's configuration.
//!
//! Running a core (the embedded WASM core or the desktop app's shared
//! library) is left to the caller, which hands the results back here.
pub mod client;
pub mod encode;
pub mod environments;
pub mod errors;
pub mod groups;
pub mod laws;
pub mod items;
pub mod items_files;
pub mod items_shares;
pub mod permissions;
pub mod protocol;
pub mod secrets;
pub mod shared_lib;
pub mod types;
pub mod vaults;
pub mod wasm_core;
pub mod wire;

pub use client::ClientBuilder;
pub use errors::SdkError;
pub use secrets::Secrets;
pub use types::{ErrorMessage, AddressFieldDetails, DocumentCreateParams, FileAttributes, FileCreateParams, EnvironmentVariable, GetVariablesResponse, GeneratePasswordResponse, SeparatorType, WordListType, PasswordRecipeMemorableInner, PasswordRecipePinInner, PasswordRecipeRandomInner, PasswordRecipe, SSHKeyAttributes, OTPFieldDetails, ItemFieldDetails, ItemCategory, ItemFieldType, ItemState, AutofillBehavior, Website, ItemField, ItemSection, ItemFile, Item, ItemCreateParams, ItemOverview, ItemListFilterByStateInner, ItemListFilter, ItemShareDuration, AllowedType, AllowedRecipientType, ItemShareFiles, ItemShareAccountPolicy, ValidRecipientEmailInner, ValidRecipientDomainInner, ValidRecipient, ItemShareParams, BatchResponse, ItemUpdateFailureReason, ItemsDeleteAllResponse, ItemsGetAllError, ItemsGetAllResponse, ItemsUpdateAllResponse, ResolvedReference, ResolveReferenceError, ResolveAllResponse, GroupType, GroupState, VaultAccessorType, VaultAccess, Group, GroupAccess, GroupGetParams, GroupVaultAccess, VaultType, Vault, VaultCreateParams, VaultGetParams, VaultListParams, VaultOverview, VaultUpdateParams};
