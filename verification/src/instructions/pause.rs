use vstd::prelude::*;

use crate::addr::Address;
use crate::constants::{ROLE_MASTER_AUTHORITY, ROLE_PAUSER};
use crate::errors::StablecoinError;
use crate::events::{SystemPaused, SystemUnpaused};
use crate::state::{RoleAccount, StablecoinConfig};
use crate::utils::{has_any_role, spec_has_any_role};

verus! {

/// The first check that fails for a pause or unpause request, or `None`
/// when the request succeeds.  Both requests share the same checks.
pub open spec fn pause_error(
    config: StablecoinConfig,
    role: RoleAccount,
    config_key: Address,
) -> Option<StablecoinError> {
    if role.config != config_key {
        Some(StablecoinError::Unauthorized)
    } else if !spec_has_any_role(role.roles, ROLE_MASTER_AUTHORITY | ROLE_PAUSER) {
        Some(StablecoinError::Unauthorized)
    } else if config.audit_counter + 1 > u64::MAX {
        Some(StablecoinError::Overflow)
    } else {
        None
    }
}

/// Pause the asset.  Requires the master or pauser role; works while the
/// asset is already paused and whether or not anything else is going on:
/// pausing blocks only mint and burn, never the incident-response
/// operations.
pub fn pause_handler(
    config: &mut StablecoinConfig,
    role_account: &RoleAccount,
    config_key: Address,
    pauser: Address,
    now: i64,
) -> (r: Result<SystemPaused, StablecoinError>)
    ensures
        r is Err <==> pause_error(*old(config), *role_account, config_key) is Some,
        r is Err ==> {
            &&& Some(r->Err_0) == pause_error(*old(config), *role_account, config_key)
            &&& *final(config) == *old(config)
        },
        r is Ok ==> {
            &&& final(config).is_paused
            &&& final(config).audit_counter == old(config).audit_counter + 1
            &&& *final(config) == (StablecoinConfig {
                is_paused: true,
                audit_counter: final(config).audit_counter,
                ..*old(config)
            })
            &&& r->Ok_0 == (SystemPaused { config: config_key, paused_by: pauser, timestamp: now })
        },
{
    if !(role_account.config == config_key) {
        return Err(StablecoinError::Unauthorized);
    }
    if !has_any_role(role_account.roles, ROLE_MASTER_AUTHORITY | ROLE_PAUSER) {
        return Err(StablecoinError::Unauthorized);
    }
    let new_audit_counter = match config.audit_counter.checked_add(1) {
        Some(value) => value,
        None => {
            return Err(StablecoinError::Overflow);
        },
    };
    config.is_paused = true;
    config.audit_counter = new_audit_counter;
    Ok(SystemPaused { config: config_key, paused_by: pauser, timestamp: now })
}

/// Unpause the asset.  Requires the master or pauser role.
pub fn unpause_handler(
    config: &mut StablecoinConfig,
    role_account: &RoleAccount,
    config_key: Address,
    pauser: Address,
    now: i64,
) -> (r: Result<SystemUnpaused, StablecoinError>)
    ensures
        r is Err <==> pause_error(*old(config), *role_account, config_key) is Some,
        r is Err ==> {
            &&& Some(r->Err_0) == pause_error(*old(config), *role_account, config_key)
            &&& *final(config) == *old(config)
        },
        r is Ok ==> {
            &&& !final(config).is_paused
            &&& final(config).audit_counter == old(config).audit_counter + 1
            &&& *final(config) == (StablecoinConfig {
                is_paused: false,
                audit_counter: final(config).audit_counter,
                ..*old(config)
            })
            &&& r->Ok_0 == (SystemUnpaused {
                config: config_key,
                unpaused_by: pauser,
                timestamp: now,
            })
        },
{
    if !(role_account.config == config_key) {
        return Err(StablecoinError::Unauthorized);
    }
    if !has_any_role(role_account.roles, ROLE_MASTER_AUTHORITY | ROLE_PAUSER) {
        return Err(StablecoinError::Unauthorized);
    }
    let new_audit_counter = match config.audit_counter.checked_add(1) {
        Some(value) => value,
        None => {
            return Err(StablecoinError::Overflow);
        },
    };
    config.is_paused = false;
    config.audit_counter = new_audit_counter;
    Ok(SystemUnpaused { config: config_key, unpaused_by: pauser, timestamp: now })
}

} // verus!
