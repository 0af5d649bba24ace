use vstd::prelude::*;

use crate::addr::Address;
use crate::constants::{ROLE_MASTER_AUTHORITY, ROLE_SEIZER};
use crate::errors::StablecoinError;
use crate::events::TokensSeized;
use crate::state::{BlacklistEntry, RoleAccount, StablecoinConfig};
use crate::utils::{has_any_role, spec_has_any_role};

verus! {

/// What the seizure protocol reads of the target's asset account before it
/// acts: identity, owner, held amount and frozen state.
#[derive(Clone, Copy, Debug)]
pub struct TargetAccount {
    pub key: Address,
    pub owner: Address,
    pub mint: Address,
    pub amount: u64,
    pub is_frozen: bool,
}

/// The first check that fails for a seizure, or `None` when the seizure
/// succeeds.  A seizure needs, in combination: the master or seizer role,
/// the permanent-delegate feature, an actively blacklisted target owner,
/// and a frozen target account bound to this asset.
pub open spec fn seize_error(
    config: StablecoinConfig,
    role: RoleAccount,
    entry: BlacklistEntry,
    target: TargetAccount,
    config_key: Address,
    mint_key: Address,
) -> Option<StablecoinError> {
    if role.config != config_key {
        Some(StablecoinError::Unauthorized)
    } else if !spec_has_any_role(role.roles, ROLE_MASTER_AUTHORITY | ROLE_SEIZER) {
        Some(StablecoinError::Unauthorized)
    } else if !config.features.permanent_delegate {
        Some(StablecoinError::FeatureNotEnabled)
    } else if entry.config != config_key {
        Some(StablecoinError::Unauthorized)
    } else if !entry.is_active {
        Some(StablecoinError::TargetNotBlacklisted)
    } else if entry.wallet != target.owner {
        Some(StablecoinError::Unauthorized)
    } else if target.mint != mint_key {
        Some(StablecoinError::Unauthorized)
    } else if !target.is_frozen {
        Some(StablecoinError::AccountNotFrozen)
    } else if config.mint != mint_key {
        Some(StablecoinError::Unauthorized)
    } else if config.audit_counter + 1 > u64::MAX {
        Some(StablecoinError::Overflow)
    } else {
        None
    }
}

/// Seize the target account's entire balance into the treasury account.
///
/// The three ledger steps — thaw, forced transfer of the whole observed
/// balance, refreeze — run under the configuration record's delegated
/// authority as one indivisible unit outside this function; a failure of
/// any step discards the whole unit, including the audit-counter advance
/// made here.  This function admits the seizure only when every
/// precondition holds and otherwise leaves the configuration untouched.
pub fn handler(
    config: &mut StablecoinConfig,
    role_account: &RoleAccount,
    blacklist_entry: &BlacklistEntry,
    target: TargetAccount,
    config_key: Address,
    mint_key: Address,
    treasury_ata: Address,
    seizer: Address,
    now: i64,
) -> (r: Result<TokensSeized, StablecoinError>)
    ensures
        r is Err <==> seize_error(
            *old(config),
            *role_account,
            *blacklist_entry,
            target,
            config_key,
            mint_key,
        ) is Some,
        r is Err ==> {
            &&& Some(r->Err_0) == seize_error(
                *old(config),
                *role_account,
                *blacklist_entry,
                target,
                config_key,
                mint_key,
            )
            &&& *final(config) == *old(config)
        },
        r is Ok ==> {
            &&& final(config).audit_counter == old(config).audit_counter + 1
            &&& *final(config) == (StablecoinConfig {
                audit_counter: final(config).audit_counter,
                ..*old(config)
            })
            &&& r->Ok_0 == (TokensSeized {
                config: config_key,
                from_account: target.key,
                to_account: treasury_ata,
                amount: target.amount,
                seized_by: seizer,
                timestamp: now,
            })
        },
{
    if !(role_account.config == config_key) {
        return Err(StablecoinError::Unauthorized);
    }
    if !has_any_role(role_account.roles, ROLE_MASTER_AUTHORITY | ROLE_SEIZER) {
        return Err(StablecoinError::Unauthorized);
    }
    if !config.features.permanent_delegate {
        return Err(StablecoinError::FeatureNotEnabled);
    }
    if !(blacklist_entry.config == config_key) {
        return Err(StablecoinError::Unauthorized);
    }
    if !blacklist_entry.is_active {
        return Err(StablecoinError::TargetNotBlacklisted);
    }
    if !(blacklist_entry.wallet == target.owner) {
        return Err(StablecoinError::Unauthorized);
    }
    if !(target.mint == mint_key) {
        return Err(StablecoinError::Unauthorized);
    }
    if !target.is_frozen {
        return Err(StablecoinError::AccountNotFrozen);
    }
    if !(config.mint == mint_key) {
        return Err(StablecoinError::Unauthorized);
    }
    let new_audit_counter = match config.audit_counter.checked_add(1) {
        Some(value) => value,
        None => {
            return Err(StablecoinError::Overflow);
        },
    };
    config.audit_counter = new_audit_counter;
    Ok(
        TokensSeized {
            config: config_key,
            from_account: target.key,
            to_account: treasury_ata,
            amount: target.amount,
            seized_by: seizer,
            timestamp: now,
        },
    )
}

} // verus!
