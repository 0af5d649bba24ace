use vstd::prelude::*;

use crate::addr::Address;
use crate::constants::{
    ROLE_BLACKLISTER, ROLE_MASTER_AUTHORITY, ROLE_MINTER, ROLE_SEIZER,
};
use crate::errors::StablecoinError;
use crate::events::{AuthorityTransferred, RoleUpdated};
use crate::state::{role_wf, RoleAccount, StablecoinConfig};
use crate::utils::{has_any_role, spec_has_any_role, spec_valid_roles};

verus! {

/// Arguments of a role update: the holder, the full new bitmask, and the
/// optional minting quota that comes with the minter bit.
#[derive(Clone, Copy, Debug)]
pub struct UpdateRolesArgs {
    pub target: Address,
    pub roles: u8,
    pub mint_quota: Option<u64>,
}

/// Arguments of a quota-only update for an existing minter.
#[derive(Clone, Copy, Debug)]
pub struct UpdateMinterArgs {
    pub new_quota: u64,
}

/// The first check that fails for a role update, or `None` when the update
/// succeeds.
pub open spec fn update_roles_error(
    config: StablecoinConfig,
    role: RoleAccount,
    config_key: Address,
    args: UpdateRolesArgs,
) -> Option<StablecoinError> {
    if role.config != config_key {
        Some(StablecoinError::Unauthorized)
    } else if !spec_has_any_role(role.roles, ROLE_MASTER_AUTHORITY) {
        Some(StablecoinError::Unauthorized)
    } else if !spec_valid_roles(args.roles) {
        Some(StablecoinError::InvalidRoles)
    } else if !config.features.transfer_hook && args.roles & (ROLE_BLACKLISTER | ROLE_SEIZER)
        != 0 {
        Some(StablecoinError::FeatureNotEnabled)
    } else {
        None
    }
}

/// The role record that a successful update writes: the given bitmask, the
/// quota kept only for a minter, and a fresh quota window.
pub open spec fn updated_role_record(
    config_key: Address,
    args: UpdateRolesArgs,
    bump: u8,
) -> RoleAccount {
    RoleAccount {
        config: config_key,
        authority: args.target,
        roles: args.roles,
        mint_quota: if args.roles & ROLE_MINTER != 0 {
            args.mint_quota
        } else {
            None
        },
        minted_current_window: 0,
        window_start: 0,
        bump,
    }
}

/// Rewrite a holder's role record.  Only the master authority may do this;
/// bitmasks outside the seven defined bits are rejected, the blacklister
/// and seizer bits are rejected while the transfer-hook feature is off, and
/// a quota survives only together with the minter bit — so the written
/// record is always well formed.
pub fn update_roles_handler(
    config: &StablecoinConfig,
    role_account: &RoleAccount,
    target_role_account: &mut RoleAccount,
    config_key: Address,
    target_bump: u8,
    authority: Address,
    args: UpdateRolesArgs,
    now: i64,
) -> (r: Result<RoleUpdated, StablecoinError>)
    ensures
        r is Err <==> update_roles_error(*config, *role_account, config_key, args) is Some,
        r is Err ==> {
            &&& Some(r->Err_0) == update_roles_error(*config, *role_account, config_key, args)
            &&& *final(target_role_account) == *old(target_role_account)
        },
        r is Ok ==> {
            &&& *final(target_role_account) == updated_role_record(config_key, args, target_bump)
            &&& role_wf(*final(target_role_account))
            &&& final(target_role_account).roles == args.roles
            &&& r->Ok_0 == (RoleUpdated {
                config: config_key,
                target: args.target,
                new_roles: args.roles,
                updated_by: authority,
                timestamp: now,
            })
        },
{
    if !(role_account.config == config_key) {
        return Err(StablecoinError::Unauthorized);
    }
    if !has_any_role(role_account.roles, ROLE_MASTER_AUTHORITY) {
        return Err(StablecoinError::Unauthorized);
    }
    if args.roles & !crate::constants::VALID_ROLE_MASK != 0 {
        return Err(StablecoinError::InvalidRoles);
    }
    if !config.features.transfer_hook {
        if args.roles & (ROLE_BLACKLISTER | ROLE_SEIZER) != 0 {
            return Err(StablecoinError::FeatureNotEnabled);
        }
    }
    target_role_account.config = config_key;
    target_role_account.authority = args.target;
    target_role_account.roles = args.roles;
    if args.roles & ROLE_MINTER != 0 {
        target_role_account.mint_quota = args.mint_quota;
    } else {
        target_role_account.mint_quota = None;
    }
    target_role_account.minted_current_window = 0;
    target_role_account.window_start = 0;
    target_role_account.bump = target_bump;
    Ok(
        RoleUpdated {
            config: config_key,
            target: args.target,
            new_roles: args.roles,
            updated_by: authority,
            timestamp: now,
        },
    )
}

/// The first check that fails for a quota-only update, or `None` when the
/// update succeeds.
pub open spec fn update_minter_error(
    role: RoleAccount,
    target_role: RoleAccount,
    config_key: Address,
) -> Option<StablecoinError> {
    if role.config != config_key {
        Some(StablecoinError::Unauthorized)
    } else if !spec_has_any_role(role.roles, ROLE_MASTER_AUTHORITY) {
        Some(StablecoinError::Unauthorized)
    } else if target_role.roles & ROLE_MINTER == 0 {
        Some(StablecoinError::InvalidRoles)
    } else {
        None
    }
}

/// Replace an existing minter's quota, touching nothing else of the
/// record.  Only the master authority may do this, and only for a holder
/// that already has the minter bit.
pub fn update_minter_handler(
    config: &StablecoinConfig,
    role_account: &RoleAccount,
    target_role_account: &mut RoleAccount,
    config_key: Address,
    authority: Address,
    args: UpdateMinterArgs,
    now: i64,
) -> (r: Result<RoleUpdated, StablecoinError>)
    ensures
        r is Err <==> update_minter_error(*role_account, *old(target_role_account), config_key)
            is Some,
        r is Err ==> {
            &&& Some(r->Err_0) == update_minter_error(
                *role_account,
                *old(target_role_account),
                config_key,
            )
            &&& *final(target_role_account) == *old(target_role_account)
        },
        r is Ok ==> {
            &&& *final(target_role_account) == (RoleAccount {
                mint_quota: Some(args.new_quota),
                ..*old(target_role_account)
            })
            &&& (role_wf(*old(target_role_account)) ==> role_wf(*final(target_role_account)))
            &&& r->Ok_0 == (RoleUpdated {
                config: config_key,
                target: old(target_role_account).authority,
                new_roles: old(target_role_account).roles,
                updated_by: authority,
                timestamp: now,
            })
        },
{
    if !(role_account.config == config_key) {
        return Err(StablecoinError::Unauthorized);
    }
    if !has_any_role(role_account.roles, ROLE_MASTER_AUTHORITY) {
        return Err(StablecoinError::Unauthorized);
    }
    if target_role_account.roles & ROLE_MINTER == 0 {
        return Err(StablecoinError::InvalidRoles);
    }
    target_role_account.mint_quota = Some(args.new_quota);
    Ok(
        RoleUpdated {
            config: config_key,
            target: target_role_account.authority,
            new_roles: target_role_account.roles,
            updated_by: authority,
            timestamp: now,
        },
    )
}

/// The first check that fails for an authority transfer, or `None` when
/// the transfer succeeds.
pub open spec fn transfer_authority_error(
    current_role: RoleAccount,
    config_key: Address,
    current_authority: Address,
    new_authority: Address,
) -> Option<StablecoinError> {
    if current_role.config != config_key {
        Some(StablecoinError::Unauthorized)
    } else if !spec_has_any_role(current_role.roles, ROLE_MASTER_AUTHORITY) {
        Some(StablecoinError::Unauthorized)
    } else if new_authority == current_authority {
        Some(StablecoinError::SelfTransfer)
    } else {
        None
    }
}

/// Move the master-authority bit from the current holder to a new one.
/// Transfer to oneself is refused.  The old holder keeps every other role;
/// the new holder keeps every role it already had and gains the master
/// bit; the configuration's authority field follows.
pub fn transfer_authority_handler(
    config: &mut StablecoinConfig,
    current_role_account: &mut RoleAccount,
    new_role_account: &mut RoleAccount,
    config_key: Address,
    current_authority: Address,
    new_authority: Address,
    new_role_bump: u8,
    now: i64,
) -> (r: Result<AuthorityTransferred, StablecoinError>)
    ensures
        r is Err <==> transfer_authority_error(
            *old(current_role_account),
            config_key,
            current_authority,
            new_authority,
        ) is Some,
        r is Err ==> {
            &&& Some(r->Err_0) == transfer_authority_error(
                *old(current_role_account),
                config_key,
                current_authority,
                new_authority,
            )
            &&& *final(config) == *old(config)
            &&& *final(current_role_account) == *old(current_role_account)
            &&& *final(new_role_account) == *old(new_role_account)
        },
        r is Ok ==> {
            &&& *final(current_role_account) == (RoleAccount {
                roles: final(current_role_account).roles,
                ..*old(current_role_account)
            })
            &&& final(current_role_account).roles == old(current_role_account).roles
                & !ROLE_MASTER_AUTHORITY
            &&& final(current_role_account).roles & ROLE_MASTER_AUTHORITY == 0
            &&& *final(new_role_account) == (RoleAccount {
                config: config_key,
                authority: new_authority,
                roles: final(new_role_account).roles,
                bump: new_role_bump,
                ..*old(new_role_account)
            })
            &&& final(new_role_account).roles == old(new_role_account).roles
                | ROLE_MASTER_AUTHORITY
            &&& final(new_role_account).roles & ROLE_MASTER_AUTHORITY != 0
            &&& *final(config) == (StablecoinConfig { authority: new_authority, ..*old(config) })
            &&& (role_wf(*old(current_role_account)) ==> role_wf(*final(current_role_account)))
            &&& (role_wf(*old(new_role_account)) ==> role_wf(*final(new_role_account)))
            &&& r->Ok_0 == (AuthorityTransferred {
                config: config_key,
                old_authority: current_authority,
                new_authority,
                timestamp: now,
            })
        },
{
    if !(current_role_account.config == config_key) {
        return Err(StablecoinError::Unauthorized);
    }
    if !has_any_role(current_role_account.roles, ROLE_MASTER_AUTHORITY) {
        return Err(StablecoinError::Unauthorized);
    }
    if new_authority == current_authority {
        return Err(StablecoinError::SelfTransfer);
    }
    let ghost old_current = *current_role_account;
    let ghost old_new = *new_role_account;
    current_role_account.roles = current_role_account.roles & !ROLE_MASTER_AUTHORITY;
    new_role_account.config = config_key;
    new_role_account.authority = new_authority;
    new_role_account.roles = new_role_account.roles | ROLE_MASTER_AUTHORITY;
    new_role_account.bump = new_role_bump;
    config.authority = new_authority;
    proof {
        lemma_clear_master(old_current.roles);
        lemma_set_master(old_new.roles);
    }
    Ok(
        AuthorityTransferred {
            config: config_key,
            old_authority: current_authority,
            new_authority,
            timestamp: now,
        },
    )
}

/// Clearing the master bit clears it, touches no other bit, and keeps the
/// mask inside the valid range.
proof fn lemma_clear_master(roles: u8)
    ensures
        (roles & !ROLE_MASTER_AUTHORITY) & ROLE_MASTER_AUTHORITY == 0,
        (roles & !ROLE_MASTER_AUTHORITY) & ROLE_MINTER == roles & ROLE_MINTER,
        spec_valid_roles(roles) ==> spec_valid_roles(roles & !ROLE_MASTER_AUTHORITY),
{
    assert((roles & !0x01u8) & 0x01u8 == 0) by (bit_vector);
    assert((roles & !0x01u8) & 0x02u8 == roles & 0x02u8) by (bit_vector);
    assert(roles & !0x7Fu8 == 0 ==> (roles & !0x01u8) & !0x7Fu8 == 0) by (bit_vector);
}

/// Setting the master bit sets it, touches no other bit, and keeps the
/// mask inside the valid range.
proof fn lemma_set_master(roles: u8)
    ensures
        (roles | ROLE_MASTER_AUTHORITY) & ROLE_MASTER_AUTHORITY != 0,
        (roles | ROLE_MASTER_AUTHORITY) & ROLE_MINTER == roles & ROLE_MINTER,
        spec_valid_roles(roles) ==> spec_valid_roles(roles | ROLE_MASTER_AUTHORITY),
{
    assert((roles | 0x01u8) & 0x01u8 != 0) by (bit_vector);
    assert((roles | 0x01u8) & 0x02u8 == roles & 0x02u8) by (bit_vector);
    assert(roles & !0x7Fu8 == 0 ==> (roles | 0x01u8) & !0x7Fu8 == 0) by (bit_vector);
}

} // verus!
