use vstd::prelude::*;

use crate::addr::Address;

verus! {

/// Emitted once when an asset and its first role record are created.
#[derive(Clone, Debug)]
pub struct StablecoinInitialized {
    pub config: Address,
    pub mint: Address,
    pub authority: Address,
    pub name: Vec<u8>,
    pub symbol: Vec<u8>,
    pub preset: Vec<u8>,
    pub timestamp: i64,
}

/// Emitted by every successful mint.
#[derive(Clone, Copy, Debug)]
pub struct TokensMinted {
    pub config: Address,
    pub mint: Address,
    pub recipient: Address,
    pub amount: u64,
    pub minter: Address,
    pub new_total_supply: u64,
    pub timestamp: i64,
}

/// Emitted by every successful burn.
#[derive(Clone, Copy, Debug)]
pub struct TokensBurned {
    pub config: Address,
    pub mint: Address,
    pub burner: Address,
    pub amount: u64,
    pub new_total_supply: u64,
    pub timestamp: i64,
}

/// Emitted when a holder's asset account is frozen.
#[derive(Clone, Copy, Debug)]
pub struct AccountFrozen {
    pub config: Address,
    pub target_account: Address,
    pub frozen_by: Address,
    pub timestamp: i64,
}

/// Emitted when a holder's asset account is thawed.
#[derive(Clone, Copy, Debug)]
pub struct AccountThawed {
    pub config: Address,
    pub target_account: Address,
    pub thawed_by: Address,
    pub timestamp: i64,
}

/// Emitted when the asset is paused.
#[derive(Clone, Copy, Debug)]
pub struct SystemPaused {
    pub config: Address,
    pub paused_by: Address,
    pub timestamp: i64,
}

/// Emitted when the asset is unpaused.
#[derive(Clone, Copy, Debug)]
pub struct SystemUnpaused {
    pub config: Address,
    pub unpaused_by: Address,
    pub timestamp: i64,
}

/// Emitted when a holder's role record is rewritten.
#[derive(Clone, Copy, Debug)]
pub struct RoleUpdated {
    pub config: Address,
    pub target: Address,
    pub new_roles: u8,
    pub updated_by: Address,
    pub timestamp: i64,
}

/// Emitted when the master authority moves to a new holder.
#[derive(Clone, Copy, Debug)]
pub struct AuthorityTransferred {
    pub config: Address,
    pub old_authority: Address,
    pub new_authority: Address,
    pub timestamp: i64,
}

/// Emitted when a wallet is blacklisted.
#[derive(Clone, Debug)]
pub struct BlacklistAdded {
    pub config: Address,
    pub wallet: Address,
    pub reason: Vec<u8>,
    pub blacklisted_by: Address,
    pub timestamp: i64,
}

/// Emitted when a wallet's blacklist entry is deactivated.
#[derive(Clone, Copy, Debug)]
pub struct BlacklistRemoved {
    pub config: Address,
    pub wallet: Address,
    pub removed_by: Address,
    pub timestamp: i64,
}

/// Emitted when a blacklisted holder's funds are seized.
#[derive(Clone, Copy, Debug)]
pub struct TokensSeized {
    pub config: Address,
    pub from_account: Address,
    pub to_account: Address,
    pub amount: u64,
    pub seized_by: Address,
    pub timestamp: i64,
}

} // verus!
