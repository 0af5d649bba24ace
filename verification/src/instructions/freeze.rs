use vstd::prelude::*;

use crate::addr::Address;
use crate::constants::{ROLE_FREEZER, ROLE_MASTER_AUTHORITY};
use crate::errors::StablecoinError;
use crate::events::{AccountFrozen, AccountThawed};
use crate::state::{RoleAccount, StablecoinConfig};
use crate::utils::{has_any_role, spec_has_any_role};

verus! {

/// The first check that fails for a freeze or thaw request, or `None` when
/// the request succeeds.  Both requests share the same checks; neither is
/// blocked by the pause flag, and neither guards against freezing an
/// already-frozen account — that failure is the ledger's to report.
pub open spec fn freeze_error(
    config: StablecoinConfig,
    role: RoleAccount,
    config_key: Address,
    mint_key: Address,
    target_ata_mint: Address,
) -> Option<StablecoinError> {
    if role.config != config_key {
        Some(StablecoinError::Unauthorized)
    } else if !spec_has_any_role(role.roles, ROLE_MASTER_AUTHORITY | ROLE_FREEZER) {
        Some(StablecoinError::Unauthorized)
    } else if config.mint != mint_key {
        Some(StablecoinError::Unauthorized)
    } else if target_ata_mint != mint_key {
        Some(StablecoinError::Unauthorized)
    } else if config.audit_counter + 1 > u64::MAX {
        Some(StablecoinError::Overflow)
    } else {
        None
    }
}

/// Freeze a holder's asset account.  The freeze itself is delegated to the
/// external ledger under this module's signing authority; here the request
/// is authorized, the audit counter advances, and the event is produced.
pub fn freeze_handler(
    config: &mut StablecoinConfig,
    role_account: &RoleAccount,
    config_key: Address,
    mint_key: Address,
    target_ata: Address,
    target_ata_mint: Address,
    freezer: Address,
    now: i64,
) -> (r: Result<AccountFrozen, StablecoinError>)
    ensures
        r is Err <==> freeze_error(*old(config), *role_account, config_key, mint_key, target_ata_mint) is Some,
        r is Err ==> {
            &&& Some(r->Err_0) == freeze_error(
                *old(config),
                *role_account,
                config_key,
                mint_key,
                target_ata_mint,
            )
            &&& *final(config) == *old(config)
        },
        r is Ok ==> {
            &&& final(config).audit_counter == old(config).audit_counter + 1
            &&& *final(config) == (StablecoinConfig {
                audit_counter: final(config).audit_counter,
                ..*old(config)
            })
            &&& r->Ok_0 == (AccountFrozen {
                config: config_key,
                target_account: target_ata,
                frozen_by: freezer,
                timestamp: now,
            })
        },
{
    if !(role_account.config == config_key) {
        return Err(StablecoinError::Unauthorized);
    }
    if !has_any_role(role_account.roles, ROLE_MASTER_AUTHORITY | ROLE_FREEZER) {
        return Err(StablecoinError::Unauthorized);
    }
    if !(config.mint == mint_key) {
        return Err(StablecoinError::Unauthorized);
    }
    if !(target_ata_mint == mint_key) {
        return Err(StablecoinError::Unauthorized);
    }
    let new_audit_counter = match config.audit_counter.checked_add(1) {
        Some(value) => value,
        None => {
            return Err(StablecoinError::Overflow);
        },
    };
    config.audit_counter = new_audit_counter;
    Ok(
        AccountFrozen {
            config: config_key,
            target_account: target_ata,
            frozen_by: freezer,
            timestamp: now,
        },
    )
}

/// Thaw a holder's asset account.  The mirror image of `freeze_handler`.
pub fn thaw_handler(
    config: &mut StablecoinConfig,
    role_account: &RoleAccount,
    config_key: Address,
    mint_key: Address,
    target_ata: Address,
    target_ata_mint: Address,
    freezer: Address,
    now: i64,
) -> (r: Result<AccountThawed, StablecoinError>)
    ensures
        r is Err <==> freeze_error(*old(config), *role_account, config_key, mint_key, target_ata_mint) is Some,
        r is Err ==> {
            &&& Some(r->Err_0) == freeze_error(
                *old(config),
                *role_account,
                config_key,
                mint_key,
                target_ata_mint,
            )
            &&& *final(config) == *old(config)
        },
        r is Ok ==> {
            &&& final(config).audit_counter == old(config).audit_counter + 1
            &&& *final(config) == (StablecoinConfig {
                audit_counter: final(config).audit_counter,
                ..*old(config)
            })
            &&& r->Ok_0 == (AccountThawed {
                config: config_key,
                target_account: target_ata,
                thawed_by: freezer,
                timestamp: now,
            })
        },
{
    if !(role_account.config == config_key) {
        return Err(StablecoinError::Unauthorized);
    }
    if !has_any_role(role_account.roles, ROLE_MASTER_AUTHORITY | ROLE_FREEZER) {
        return Err(StablecoinError::Unauthorized);
    }
    if !(config.mint == mint_key) {
        return Err(StablecoinError::Unauthorized);
    }
    if !(target_ata_mint == mint_key) {
        return Err(StablecoinError::Unauthorized);
    }
    let new_audit_counter = match config.audit_counter.checked_add(1) {
        Some(value) => value,
        None => {
            return Err(StablecoinError::Overflow);
        },
    };
    config.audit_counter = new_audit_counter;
    Ok(
        AccountThawed {
            config: config_key,
            target_account: target_ata,
            thawed_by: freezer,
            timestamp: now,
        },
    )
}

} // verus!
