use vstd::prelude::*;

use crate::addr::Address;
use crate::constants::{MAX_REASON_LEN, ROLE_BLACKLISTER, ROLE_MASTER_AUTHORITY};
use crate::errors::StablecoinError;
use crate::events::{BlacklistAdded, BlacklistRemoved};
use crate::state::{blacklist_wf, BlacklistEntry, RoleAccount, StablecoinConfig};
use crate::utils::{clone_bytes, has_any_role, spec_has_any_role};

verus! {

/// Arguments of a blacklist addition: the wallet and the reason, a bounded
/// UTF-8 byte string.
#[derive(Clone, Debug)]
pub struct AddToBlacklistArgs {
    pub wallet: Address,
    pub reason: Vec<u8>,
}

/// The first check that fails for a blacklist addition, or `None` when the
/// addition succeeds.  `entry` is the record at the wallet's blacklist
/// address: all zero when it was never written, the prior record otherwise.
pub open spec fn add_error(
    config: StablecoinConfig,
    role: RoleAccount,
    entry: BlacklistEntry,
    config_key: Address,
    reason_len: nat,
) -> Option<StablecoinError> {
    if !config.features.transfer_hook {
        Some(StablecoinError::FeatureNotEnabled)
    } else if role.config != config_key {
        Some(StablecoinError::Unauthorized)
    } else if !spec_has_any_role(role.roles, ROLE_MASTER_AUTHORITY | ROLE_BLACKLISTER) {
        Some(StablecoinError::Unauthorized)
    } else if reason_len > MAX_REASON_LEN {
        Some(StablecoinError::ReasonTooLong)
    } else if entry.config != Address::spec_zeroed() && entry.config != config_key {
        Some(StablecoinError::Unauthorized)
    } else if entry.is_active {
        Some(StablecoinError::AlreadyBlacklisted)
    } else {
        None
    }
}

/// Add a wallet to the blacklist, or reactivate its deactivated entry with
/// a new reason and timestamp.  Requires the transfer-hook feature and the
/// master or blacklister role; an entry that is already active is refused.
pub fn add_handler(
    config: &StablecoinConfig,
    role_account: &RoleAccount,
    entry: &mut BlacklistEntry,
    config_key: Address,
    entry_bump: u8,
    blacklister: Address,
    args: AddToBlacklistArgs,
    now: i64,
) -> (r: Result<BlacklistAdded, StablecoinError>)
    ensures
        r is Err <==> add_error(
            *config,
            *role_account,
            *old(entry),
            config_key,
            args.reason@.len(),
        ) is Some,
        r is Err ==> {
            &&& Some(r->Err_0) == add_error(
                *config,
                *role_account,
                *old(entry),
                config_key,
                args.reason@.len(),
            )
            &&& *final(entry) == *old(entry)
        },
        r is Ok ==> {
            &&& final(entry).config == config_key
            &&& final(entry).wallet == args.wallet
            &&& final(entry).blacklisted_at == now
            &&& final(entry).blacklisted_by == blacklister
            &&& final(entry).reason@ == args.reason@
            &&& final(entry).is_active
            &&& final(entry).bump == entry_bump
            &&& blacklist_wf(*final(entry))
            &&& ({
                let ev = r->Ok_0;
                &&& ev.config == config_key
                &&& ev.wallet == args.wallet
                &&& ev.reason@ == args.reason@
                &&& ev.blacklisted_by == blacklister
                &&& ev.timestamp == now
            })
        },
{
    if !config.features.transfer_hook {
        return Err(StablecoinError::FeatureNotEnabled);
    }
    if !(role_account.config == config_key) {
        return Err(StablecoinError::Unauthorized);
    }
    if !has_any_role(role_account.roles, ROLE_MASTER_AUTHORITY | ROLE_BLACKLISTER) {
        return Err(StablecoinError::Unauthorized);
    }
    if args.reason.len() > MAX_REASON_LEN {
        return Err(StablecoinError::ReasonTooLong);
    }
    if !(entry.config == Address::zeroed()) {
        if !(entry.config == config_key) {
            return Err(StablecoinError::Unauthorized);
        }
    }
    if entry.is_active {
        return Err(StablecoinError::AlreadyBlacklisted);
    }
    let event_reason = clone_bytes(&args.reason);
    entry.config = config_key;
    entry.wallet = args.wallet;
    entry.blacklisted_at = now;
    entry.blacklisted_by = blacklister;
    entry.reason = args.reason;
    entry.is_active = true;
    entry.bump = entry_bump;
    Ok(
        BlacklistAdded {
            config: config_key,
            wallet: entry.wallet,
            reason: event_reason,
            blacklisted_by: blacklister,
            timestamp: now,
        },
    )
}

/// The first check that fails for a blacklist removal, or `None` when the
/// removal succeeds.
pub open spec fn remove_error(
    config: StablecoinConfig,
    role: RoleAccount,
    entry: BlacklistEntry,
    config_key: Address,
) -> Option<StablecoinError> {
    if !config.features.transfer_hook {
        Some(StablecoinError::FeatureNotEnabled)
    } else if role.config != config_key {
        Some(StablecoinError::Unauthorized)
    } else if !spec_has_any_role(role.roles, ROLE_MASTER_AUTHORITY | ROLE_BLACKLISTER) {
        Some(StablecoinError::Unauthorized)
    } else if entry.config != config_key {
        Some(StablecoinError::Unauthorized)
    } else if !entry.is_active {
        Some(StablecoinError::NotBlacklisted)
    } else {
        None
    }
}

/// Deactivate a wallet's blacklist entry.  The record keeps its history —
/// wallet, reason, timestamps — and only the active flag drops, so a later
/// addition can reactivate it in place.
pub fn remove_handler(
    config: &StablecoinConfig,
    role_account: &RoleAccount,
    entry: &mut BlacklistEntry,
    config_key: Address,
    blacklister: Address,
    now: i64,
) -> (r: Result<BlacklistRemoved, StablecoinError>)
    ensures
        r is Err <==> remove_error(*config, *role_account, *old(entry), config_key) is Some,
        r is Err ==> {
            &&& Some(r->Err_0) == remove_error(*config, *role_account, *old(entry), config_key)
            &&& *final(entry) == *old(entry)
        },
        r is Ok ==> {
            &&& !final(entry).is_active
            &&& *final(entry) == (BlacklistEntry { is_active: false, ..*old(entry) })
            &&& r->Ok_0 == (BlacklistRemoved {
                config: config_key,
                wallet: old(entry).wallet,
                removed_by: blacklister,
                timestamp: now,
            })
        },
{
    if !config.features.transfer_hook {
        return Err(StablecoinError::FeatureNotEnabled);
    }
    if !(role_account.config == config_key) {
        return Err(StablecoinError::Unauthorized);
    }
    if !has_any_role(role_account.roles, ROLE_MASTER_AUTHORITY | ROLE_BLACKLISTER) {
        return Err(StablecoinError::Unauthorized);
    }
    if !(entry.config == config_key) {
        return Err(StablecoinError::Unauthorized);
    }
    if !entry.is_active {
        return Err(StablecoinError::NotBlacklisted);
    }
    entry.is_active = false;
    Ok(
        BlacklistRemoved {
            config: config_key,
            wallet: entry.wallet,
            removed_by: blacklister,
            timestamp: now,
        },
    )
}

} // verus!
