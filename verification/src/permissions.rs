//! Vault permission bits. A set of permissions is the bitwise or of these.
use vstd::prelude::*;

verus! {

pub const READ_ITEMS: u32 = 32;
pub const REVEAL_ITEM_PASSWORD: u32 = 16;
pub const UPDATE_ITEMS: u32 = 64;
pub const CREATE_ITEMS: u32 = 128;
pub const ARCHIVE_ITEMS: u32 = 256;
pub const DELETE_ITEMS: u32 = 512;
pub const UPDATE_ITEM_HISTORY: u32 = 1024;
pub const SEND_ITEMS: u32 = 1_048_576;
pub const IMPORT_ITEMS: u32 = 2_097_152;
pub const EXPORT_ITEMS: u32 = 4_194_304;
pub const PRINT_ITEMS: u32 = 8_388_608;
pub const MANAGE_VAULT: u32 = 2;
pub const RECOVER_VAULT: u32 = 1;
pub const NO_ACCESS: u32 = 0;

} // verus!
