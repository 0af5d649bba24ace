use vstd::prelude::*;

use crate::addr::Address;
use crate::constants::{
    MAX_NAME_LEN, MAX_REASON_LEN, MAX_SYMBOL_LEN, MAX_URI_LEN, ROLE_MINTER,
};
use crate::utils::spec_valid_roles;

verus! {

/// The optional ledger features chosen once at asset initialization.
#[derive(Clone, Copy, Debug, PartialEq, Eq, Structural)]
pub struct FeatureFlags {
    pub permanent_delegate: bool,
    pub transfer_hook: bool,
    pub confidential: bool,
    pub default_frozen: bool,
}

/// One record per issued asset: feature flags, pause flag, running totals
/// and the audit counter.  Name, symbol and uri are bounded UTF-8 byte
/// strings.
#[derive(Clone, Debug)]
pub struct StablecoinConfig {
    pub authority: Address,
    pub mint: Address,
    pub name: Vec<u8>,
    pub symbol: Vec<u8>,
    pub uri: Vec<u8>,
    pub decimals: u8,
    pub is_paused: bool,
    pub total_minted: u64,
    pub total_burned: u64,
    pub audit_counter: u64,
    pub features: FeatureFlags,
    pub transfer_hook_program: Option<Address>,
    pub bump: u8,
}

/// One record per (asset, holder) pair: the role bitmask and, for minters,
/// the optional quota with its rolling window state.  `window_start == 0`
/// means the window has never started.
#[derive(Clone, Copy, Debug)]
pub struct RoleAccount {
    pub config: Address,
    pub authority: Address,
    pub roles: u8,
    pub mint_quota: Option<u64>,
    pub minted_current_window: u64,
    pub window_start: i64,
    pub bump: u8,
}

/// One record per (asset, wallet) pair.  A removed entry is deactivated, not
/// destroyed, so it can be reactivated later with a new reason.
#[derive(Clone, Debug)]
pub struct BlacklistEntry {
    pub config: Address,
    pub wallet: Address,
    pub blacklisted_at: i64,
    pub blacklisted_by: Address,
    pub reason: Vec<u8>,
    pub is_active: bool,
    pub bump: u8,
}

/// The mathematical model of a configuration record: every identifier a
/// byte sequence, every counter a machine integer.
pub ghost struct ConfigV {
    pub authority: Seq<u8>,
    pub mint: Seq<u8>,
    pub name: Seq<u8>,
    pub symbol: Seq<u8>,
    pub uri: Seq<u8>,
    pub decimals: u8,
    pub is_paused: bool,
    pub total_minted: u64,
    pub total_burned: u64,
    pub audit_counter: u64,
    pub features: FeatureFlags,
    pub transfer_hook_program: Option<Seq<u8>>,
    pub bump: u8,
}

impl View for StablecoinConfig {
    type V = ConfigV;

    open spec fn view(&self) -> ConfigV {
        ConfigV {
            authority: self.authority@,
            mint: self.mint@,
            name: self.name@,
            symbol: self.symbol@,
            uri: self.uri@,
            decimals: self.decimals,
            is_paused: self.is_paused,
            total_minted: self.total_minted,
            total_burned: self.total_burned,
            audit_counter: self.audit_counter,
            features: self.features,
            transfer_hook_program: match self.transfer_hook_program {
                Some(program) => Some(program@),
                None => None,
            },
            bump: self.bump,
        }
    }
}

/// The mathematical model of a role record.
pub ghost struct RoleAccountV {
    pub config: Seq<u8>,
    pub authority: Seq<u8>,
    pub roles: u8,
    pub mint_quota: Option<u64>,
    pub minted_current_window: u64,
    pub window_start: i64,
    pub bump: u8,
}

impl View for RoleAccount {
    type V = RoleAccountV;

    open spec fn view(&self) -> RoleAccountV {
        RoleAccountV {
            config: self.config@,
            authority: self.authority@,
            roles: self.roles,
            mint_quota: self.mint_quota,
            minted_current_window: self.minted_current_window,
            window_start: self.window_start,
            bump: self.bump,
        }
    }
}

/// The mathematical model of a blacklist entry.
pub ghost struct BlacklistEntryV {
    pub config: Seq<u8>,
    pub wallet: Seq<u8>,
    pub blacklisted_at: i64,
    pub blacklisted_by: Seq<u8>,
    pub reason: Seq<u8>,
    pub is_active: bool,
    pub bump: u8,
}

impl View for BlacklistEntry {
    type V = BlacklistEntryV;

    open spec fn view(&self) -> BlacklistEntryV {
        BlacklistEntryV {
            config: self.config@,
            wallet: self.wallet@,
            blacklisted_at: self.blacklisted_at,
            blacklisted_by: self.blacklisted_by@,
            reason: self.reason@,
            is_active: self.is_active,
            bump: self.bump,
        }
    }
}

/// Well-formedness of a configuration record: bounded strings, the hook
/// program registered exactly when the feature is on, and confidential
/// transfers never enabled.
pub open spec fn config_wf(c: StablecoinConfig) -> bool {
    &&& c.name@.len() <= MAX_NAME_LEN
    &&& c.symbol@.len() <= MAX_SYMBOL_LEN
    &&& c.uri@.len() <= MAX_URI_LEN
    &&& (c.features.transfer_hook <==> c.transfer_hook_program is Some)
    &&& !c.features.confidential
}

/// Well-formedness of a role record: only defined role bits are set, and a
/// quota is carried only by a holder with the minter bit.
pub open spec fn role_wf(r: RoleAccount) -> bool {
    &&& spec_valid_roles(r.roles)
    &&& (r.mint_quota is Some ==> r.roles & ROLE_MINTER != 0)
}

/// Well-formedness of a blacklist entry: the reason stays within its bound.
pub open spec fn blacklist_wf(e: BlacklistEntry) -> bool {
    e.reason@.len() <= MAX_REASON_LEN
}

} // verus!
