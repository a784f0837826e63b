//! The credential vault as the agent sees it: a store of named blobs. The
//! store itself belongs to the system; here are the names of its slots and
//! what a read of a slot means.

use vstd::prelude::*;

verus! {

/// The service under which the agent keeps its slots.
pub const VAULT_SERVICE: &'static str = "docflow-scanner-bridge";

/// A named slot of the credential vault.
#[derive(Clone, Copy, Debug, PartialEq, Eq, Structural)]
pub enum VaultSlot {
    ApiKey,
    DocflowUrl,
    FolderSyncConfig,
}

/// A value to put into a vault slot.
#[derive(Debug)]
pub struct VaultWrite {
    pub slot: VaultSlot,
    pub value: String,
}

/// How a read of a slot ended.
#[derive(Debug)]
pub enum VaultRead {
    /// The slot holds a value, which may be empty.
    Present { value: String },
    /// The slot holds nothing.
    Absent,
    /// The store could not be asked.
    Unavailable { reason: String },
}

/// The name of a vault slot.
pub open spec fn slot_name_of(slot: VaultSlot) -> Seq<char> {
    match slot {
        VaultSlot::ApiKey => "api_key"@,
        VaultSlot::DocflowUrl => "docflow_url"@,
        VaultSlot::FolderSyncConfig => "folder_sync_config"@,
    }
}

/// The name of a vault slot.
pub fn slot_name(slot: VaultSlot) -> (r: &'static str)
    ensures
        r@ == slot_name_of(slot),
{
    match slot {
        VaultSlot::ApiKey => "api_key",
        VaultSlot::DocflowUrl => "docflow_url",
        VaultSlot::FolderSyncConfig => "folder_sync_config",
    }
}

/// What the agent goes on with after a read: the value of a slot that holds
/// one, be it empty, and nothing for a slot that is absent or out of reach.
/// A store that cannot be asked never stops the agent.
pub fn stored_value(read: VaultRead) -> (r: Option<String>)
    ensures
        r == (match read {
            VaultRead::Present { value } => Some(value),
            VaultRead::Absent => None,
            VaultRead::Unavailable { reason } => None,
        }),
{
    match read {
        VaultRead::Present { value } => Some(value),
        VaultRead::Absent => None,
        VaultRead::Unavailable { reason } => None,
    }
}

} // verus!
