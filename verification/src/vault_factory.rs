use vstd::prelude::*;
use crate::asset::AssetInfo;

verus! {

/// The instantiation message.
#[derive(Clone, Debug, PartialEq, Eq)]
pub struct InstantiateMsg {
    /// The owner of the factory.
    pub owner: String,
    /// The code ID for the vault contract.
    pub vault_id: u64,
    /// The code ID for the liquidity token contract.
    pub token_id: u64,
    /// The address where fees get collected.
    pub fee_collector_addr: String,
}

/// The query message.
#[derive(Clone, Debug, PartialEq, Eq)]
pub enum QueryMsg {
    /// Retrieves the configuration of the vault.
    Config {  },
    /// Retrieves the address of a given vault.
    Vault { asset_info: AssetInfo },
    /// Retrieves the addresses for all the vaults.
    Vaults { start_after: Option<Vec<u8>>, limit: Option<u32> },
}

/// The migrate message.
#[derive(Clone, Copy, Debug, PartialEq, Eq)]
pub struct MigrateMsg {}

/// The `reply` code ID for the submessage after instantiating the vault.
pub const INSTANTIATE_VAULT_REPLY_ID: u64 = 1;

/// Response for the vaults query.
#[derive(Clone, Debug, PartialEq, Eq)]
pub struct VaultsResponse {
    pub vaults: Vec<VaultInfo>,
}

/// A vault and the storage key of the asset kind that it manages.
#[derive(Clone, Debug, PartialEq, Eq)]
pub struct VaultInfo {
    pub vault: String,
    pub asset_info_reference: Vec<u8>,
}

} // verus!
