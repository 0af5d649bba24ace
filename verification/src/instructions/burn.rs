use vstd::prelude::*;

use crate::addr::Address;
use crate::constants::{ROLE_BURNER, ROLE_MASTER_AUTHORITY};
use crate::errors::StablecoinError;
use crate::events::TokensBurned;
use crate::state::{RoleAccount, StablecoinConfig};
use crate::utils::{has_any_role, spec_has_any_role};

verus! {

/// The first check that fails for this burn request, or `None` when the
/// request succeeds.
pub open spec fn burn_error(
    config: StablecoinConfig,
    role: RoleAccount,
    config_key: Address,
    mint_key: Address,
    mint_supply: u64,
    burner: Address,
    burner_ata_mint: Address,
    burner_ata_owner: Address,
    burner_ata_amount: u64,
    amount: u64,
) -> Option<StablecoinError> {
    if config.is_paused {
        Some(StablecoinError::SystemPaused)
    } else if role.config != config_key {
        Some(StablecoinError::Unauthorized)
    } else if !spec_has_any_role(role.roles, ROLE_MASTER_AUTHORITY | ROLE_BURNER) {
        Some(StablecoinError::Unauthorized)
    } else if config.mint != mint_key {
        Some(StablecoinError::Unauthorized)
    } else if burner_ata_mint != mint_key {
        Some(StablecoinError::Unauthorized)
    } else if burner_ata_owner != burner {
        Some(StablecoinError::Unauthorized)
    } else if burner_ata_amount < amount {
        Some(StablecoinError::InsufficientBalance)
    } else if config.total_burned + amount > u64::MAX {
        Some(StablecoinError::Overflow)
    } else if config.audit_counter + 1 > u64::MAX {
        Some(StablecoinError::Overflow)
    } else if mint_supply < amount {
        Some(StablecoinError::Overflow)
    } else {
        None
    }
}

/// Burn `amount` base units from the caller's own asset account.
///
/// Enforces, in order: the pause flag; the caller's master or burner role;
/// the binding of role record, mint and the caller's account to this asset;
/// and a sufficient balance.  There is no quota on burning.  On success the
/// burned total and the audit counter advance and the burned event is
/// returned; on any failure the configuration is left exactly as it was.
pub fn handler(
    config: &mut StablecoinConfig,
    role_account: &RoleAccount,
    config_key: Address,
    mint_key: Address,
    mint_supply: u64,
    burner: Address,
    burner_ata_mint: Address,
    burner_ata_owner: Address,
    burner_ata_amount: u64,
    amount: u64,
    now: i64,
) -> (r: Result<TokensBurned, StablecoinError>)
    ensures
        r is Err <==> burn_error(
            *old(config),
            *role_account,
            config_key,
            mint_key,
            mint_supply,
            burner,
            burner_ata_mint,
            burner_ata_owner,
            burner_ata_amount,
            amount,
        ) is Some,
        r is Err ==> {
            &&& Some(r->Err_0) == burn_error(
                *old(config),
                *role_account,
                config_key,
                mint_key,
                mint_supply,
                burner,
                burner_ata_mint,
                burner_ata_owner,
                burner_ata_amount,
                amount,
            )
            &&& *final(config) == *old(config)
        },
        r is Ok ==> {
            &&& final(config).total_burned == old(config).total_burned + amount
            &&& final(config).audit_counter == old(config).audit_counter + 1
            &&& *final(config) == (StablecoinConfig {
                total_burned: final(config).total_burned,
                audit_counter: final(config).audit_counter,
                ..*old(config)
            })
            &&& r->Ok_0 == (TokensBurned {
                config: config_key,
                mint: mint_key,
                burner,
                amount,
                new_total_supply: (mint_supply - amount) as u64,
                timestamp: now,
            })
        },
{
    if config.is_paused {
        return Err(StablecoinError::SystemPaused);
    }
    if !(role_account.config == config_key) {
        return Err(StablecoinError::Unauthorized);
    }
    if !has_any_role(role_account.roles, ROLE_MASTER_AUTHORITY | ROLE_BURNER) {
        return Err(StablecoinError::Unauthorized);
    }
    if !(config.mint == mint_key) {
        return Err(StablecoinError::Unauthorized);
    }
    if !(burner_ata_mint == mint_key) {
        return Err(StablecoinError::Unauthorized);
    }
    if !(burner_ata_owner == burner) {
        return Err(StablecoinError::Unauthorized);
    }
    if burner_ata_amount < amount {
        return Err(StablecoinError::InsufficientBalance);
    }
    let new_total_burned = match config.total_burned.checked_add(amount) {
        Some(value) => value,
        None => {
            return Err(StablecoinError::Overflow);
        },
    };
    let new_audit_counter = match config.audit_counter.checked_add(1) {
        Some(value) => value,
        None => {
            return Err(StablecoinError::Overflow);
        },
    };
    let new_total_supply = match mint_supply.checked_sub(amount) {
        Some(value) => value,
        None => {
            return Err(StablecoinError::Overflow);
        },
    };
    config.total_burned = new_total_burned;
    config.audit_counter = new_audit_counter;
    Ok(
        TokensBurned {
            config: config_key,
            mint: mint_key,
            burner,
            amount,
            new_total_supply,
            timestamp: now,
        },
    )
}

} // verus!
