use vstd::prelude::*;

use crate::addr::Address;
use crate::constants::{MINT_QUOTA_WINDOW_SECONDS, ROLE_MASTER_AUTHORITY, ROLE_MINTER};
use crate::errors::StablecoinError;
use crate::events::TokensMinted;
use crate::state::{RoleAccount, StablecoinConfig};
use crate::utils::{has_any_role, spec_has_any_role};

verus! {

/// The fixed quota window is over (or was never started) at `now`.
pub open spec fn window_expired(window_start: i64, now: i64) -> bool {
    window_start == 0 || now - window_start >= MINT_QUOTA_WINDOW_SECONDS
}

/// What a quota-bound minter has already used up in the window that `now`
/// falls into: zero when the window rolls over, the running total otherwise.
pub open spec fn window_base(role: RoleAccount, now: i64) -> int {
    if window_expired(role.window_start, now) {
        0
    } else {
        role.minted_current_window as int
    }
}

/// The first check that fails for this mint request, or `None` when the
/// request succeeds.
pub open spec fn mint_error(
    config: StablecoinConfig,
    role: RoleAccount,
    config_key: Address,
    mint_key: Address,
    mint_supply: u64,
    recipient: Address,
    recipient_ata_mint: Address,
    recipient_ata_owner: Address,
    amount: u64,
    now: i64,
) -> Option<StablecoinError> {
    if config.is_paused {
        Some(StablecoinError::SystemPaused)
    } else if role.config != config_key {
        Some(StablecoinError::Unauthorized)
    } else if !spec_has_any_role(role.roles, ROLE_MASTER_AUTHORITY | ROLE_MINTER) {
        Some(StablecoinError::Unauthorized)
    } else if config.mint != mint_key {
        Some(StablecoinError::Unauthorized)
    } else if recipient_ata_mint != mint_key {
        Some(StablecoinError::Unauthorized)
    } else if recipient_ata_owner != recipient {
        Some(StablecoinError::Unauthorized)
    } else if role.mint_quota is Some && window_base(role, now) + amount > u64::MAX {
        Some(StablecoinError::Overflow)
    } else if role.mint_quota matches Some(quota) && window_base(role, now) + amount > quota {
        Some(StablecoinError::QuotaExceeded)
    } else if config.total_minted + amount > u64::MAX {
        Some(StablecoinError::Overflow)
    } else if config.audit_counter + 1 > u64::MAX {
        Some(StablecoinError::Overflow)
    } else if mint_supply + amount > u64::MAX {
        Some(StablecoinError::Overflow)
    } else {
        None
    }
}

/// Mint `amount` base units of the asset to `recipient`'s asset account.
///
/// Enforces, in order: the pause flag; the caller's master or minter role;
/// the binding of role record, mint and recipient account to this asset;
/// and, for a quota-bound minter, the fixed-window quota.  On success the
/// window usage, the running total and the audit counter advance and the
/// minted event is returned; on any failure both records are left exactly
/// as they were.
pub fn handler(
    config: &mut StablecoinConfig,
    role_account: &mut RoleAccount,
    config_key: Address,
    mint_key: Address,
    mint_supply: u64,
    recipient: Address,
    recipient_ata_mint: Address,
    recipient_ata_owner: Address,
    minter: Address,
    amount: u64,
    now: i64,
) -> (r: Result<TokensMinted, StablecoinError>)
    ensures
        r is Err <==> mint_error(
            *old(config),
            *old(role_account),
            config_key,
            mint_key,
            mint_supply,
            recipient,
            recipient_ata_mint,
            recipient_ata_owner,
            amount,
            now,
        ) is Some,
        r is Err ==> {
            &&& Some(r->Err_0) == mint_error(
                *old(config),
                *old(role_account),
                config_key,
                mint_key,
                mint_supply,
                recipient,
                recipient_ata_mint,
                recipient_ata_owner,
                amount,
                now,
            )
            &&& *final(config) == *old(config)
            &&& *final(role_account) == *old(role_account)
        },
        r is Ok ==> {
            &&& final(config).total_minted == old(config).total_minted + amount
            &&& final(config).audit_counter == old(config).audit_counter + 1
            &&& *final(config) == (StablecoinConfig {
                total_minted: final(config).total_minted,
                audit_counter: final(config).audit_counter,
                ..*old(config)
            })
            &&& (old(role_account).mint_quota is None ==> *final(role_account) == *old(
                role_account
            ))
            &&& (old(role_account).mint_quota is Some ==> {
                &&& final(role_account).minted_current_window == window_base(
                    *old(role_account),
                    now,
                ) + amount
                &&& final(role_account).window_start == (if window_expired(
                    old(role_account).window_start,
                    now,
                ) {
                    now
                } else {
                    old(role_account).window_start
                })
                &&& *final(role_account) == (RoleAccount {
                    minted_current_window: final(role_account).minted_current_window,
                    window_start: final(role_account).window_start,
                    ..*old(role_account)
                })
            })
            &&& r->Ok_0 == (TokensMinted {
                config: config_key,
                mint: mint_key,
                recipient,
                amount,
                minter,
                new_total_supply: (mint_supply + amount) as u64,
                timestamp: now,
            })
        },
        (r is Ok && old(role_account).mint_quota is Some)
            ==> final(role_account).minted_current_window <= old(role_account).mint_quota->Some_0,
{
    if config.is_paused {
        return Err(StablecoinError::SystemPaused);
    }
    if !(role_account.config == config_key) {
        return Err(StablecoinError::Unauthorized);
    }
    if !has_any_role(role_account.roles, ROLE_MASTER_AUTHORITY | ROLE_MINTER) {
        return Err(StablecoinError::Unauthorized);
    }
    if !(config.mint == mint_key) {
        return Err(StablecoinError::Unauthorized);
    }
    if !(recipient_ata_mint == mint_key) {
        return Err(StablecoinError::Unauthorized);
    }
    if !(recipient_ata_owner == recipient) {
        return Err(StablecoinError::Unauthorized);
    }
    let mut new_window_start = role_account.window_start;
    let mut new_minted = role_account.minted_current_window;
    if let Some(quota) = role_account.mint_quota {
        let expired: bool = if role_account.window_start == 0 {
            true
        } else {
            match now.checked_sub(role_account.window_start) {
                Some(elapsed) => elapsed >= MINT_QUOTA_WINDOW_SECONDS,
                None => now > role_account.window_start,
            }
        };
        if expired {
            new_window_start = now;
            new_minted = 0;
        }
        let new_window_total = match new_minted.checked_add(amount) {
            Some(total) => total,
            None => {
                return Err(StablecoinError::Overflow);
            },
        };
        if new_window_total > quota {
            return Err(StablecoinError::QuotaExceeded);
        }
        new_minted = new_window_total;
    }
    let new_total_minted = match config.total_minted.checked_add(amount) {
        Some(value) => value,
        None => {
            return Err(StablecoinError::Overflow);
        },
    };
    let new_audit_counter = match config.audit_counter.checked_add(1) {
        Some(value) => value,
        None => {
            return Err(StablecoinError::Overflow);
        },
    };
    let new_total_supply = match mint_supply.checked_add(amount) {
        Some(value) => value,
        None => {
            return Err(StablecoinError::Overflow);
        },
    };
    if role_account.mint_quota.is_some() {
        role_account.window_start = new_window_start;
        role_account.minted_current_window = new_minted;
    }
    config.total_minted = new_total_minted;
    config.audit_counter = new_audit_counter;
    Ok(
        TokensMinted {
            config: config_key,
            mint: mint_key,
            recipient,
            amount,
            minter,
            new_total_supply,
            timestamp: now,
        },
    )
}

} // verus!
