use vstd::prelude::*;

use vstd::string::StrSliceExecFns;
use vstd::string::StringSliceAdditionalSpecFns;

use crate::addr::Address;
use crate::constants::{MAX_NAME_LEN, MAX_SYMBOL_LEN, MAX_URI_LEN, ROLE_MASTER_AUTHORITY};
use crate::errors::StablecoinError;
use crate::events::StablecoinInitialized;
use crate::pda::{extra_account_metas_seeds, find_extra_account_metas_pda, pda_of};
use crate::state::{config_wf, role_wf, FeatureFlags, RoleAccount, StablecoinConfig};
use crate::utils::spec_valid_roles;
use crate::utils::clone_bytes;

verus! {

broadcast use vstd::array::group_array_axioms;

/// Arguments of asset initialization: metadata, decimals and the chosen
/// feature flags.  Confidential transfers cannot be requested at all.
#[derive(Clone, Debug)]
pub struct InitializeArgs {
    pub name: Vec<u8>,
    pub symbol: Vec<u8>,
    pub uri: Vec<u8>,
    pub decimals: u8,
    pub enable_permanent_delegate: bool,
    pub enable_transfer_hook: bool,
    pub default_account_frozen: bool,
    pub transfer_hook_program: Option<Address>,
}

/// The provided auxiliary-record address is the one the hook program would
/// derive for this mint.
pub open spec fn extra_metas_account_matches(provided: Address, mint: Address, hook: Address) -> bool {
    match pda_of(extra_account_metas_seeds(mint@), hook@) {
        Some(pair) => provided@ == pair.0,
        None => false,
    }
}

/// The first check that fails for asset initialization, or `None` when the
/// initialization succeeds.
pub open spec fn initialize_error(
    args: InitializeArgs,
    mint: Address,
    extra_metas_account: Option<Address>,
) -> Option<StablecoinError> {
    if args.name@.len() > MAX_NAME_LEN {
        Some(StablecoinError::NameTooLong)
    } else if args.symbol@.len() > MAX_SYMBOL_LEN {
        Some(StablecoinError::SymbolTooLong)
    } else if args.uri@.len() > MAX_URI_LEN {
        Some(StablecoinError::UriTooLong)
    } else if args.enable_transfer_hook && args.transfer_hook_program is None {
        Some(StablecoinError::InvalidTransferHookProgram)
    } else if args.enable_transfer_hook && extra_metas_account is None {
        Some(StablecoinError::MissingExtraAccountMetas)
    } else if args.enable_transfer_hook && !extra_metas_account_matches(
        extra_metas_account->Some_0,
        mint,
        args.transfer_hook_program->Some_0,
    ) {
        Some(StablecoinError::InvalidExtraAccountMetas)
    } else {
        None
    }
}

/// The configuration record that a successful initialization writes.
pub open spec fn initialized_config(
    args: InitializeArgs,
    authority: Address,
    mint: Address,
    config_bump: u8,
) -> StablecoinConfig {
    StablecoinConfig {
        authority,
        mint,
        name: args.name,
        symbol: args.symbol,
        uri: args.uri,
        decimals: args.decimals,
        is_paused: false,
        total_minted: 0,
        total_burned: 0,
        audit_counter: 0,
        features: FeatureFlags {
            permanent_delegate: args.enable_permanent_delegate,
            transfer_hook: args.enable_transfer_hook,
            confidential: false,
            default_frozen: args.default_account_frozen,
        },
        transfer_hook_program: if args.enable_transfer_hook {
            args.transfer_hook_program
        } else {
            None
        },
        bump: config_bump,
    }
}

/// The first role record of a new asset: the initializer holds exactly the
/// master authority, with no quota.
pub open spec fn initial_role_record(
    config_key: Address,
    authority: Address,
    role_bump: u8,
) -> RoleAccount {
    RoleAccount {
        config: config_key,
        authority,
        roles: ROLE_MASTER_AUTHORITY,
        mint_quota: None,
        minted_current_window: 0,
        window_start: 0,
        bump: role_bump,
    }
}

/// Create an asset: its configuration record and the initializer's role
/// record, which always carries the master authority.  Metadata is bounded;
/// when the transfer-hook feature is requested, the hook program must be
/// named and the provided auxiliary-record address must equal the one this
/// module derives for the mint — both records it returns are well formed.
pub fn handler(
    args: InitializeArgs,
    authority: Address,
    mint: Address,
    config_key: Address,
    config_bump: u8,
    role_bump: u8,
    extra_metas_account: Option<Address>,
    now: i64,
) -> (r: Result<(StablecoinConfig, RoleAccount, StablecoinInitialized), StablecoinError>)
    ensures
        r is Err <==> initialize_error(args, mint, extra_metas_account) is Some,
        r is Err ==> Some(r->Err_0) == initialize_error(args, mint, extra_metas_account),
        r is Ok ==> {
            &&& r->Ok_0.0 == initialized_config(args, authority, mint, config_bump)
            &&& config_wf(r->Ok_0.0)
            &&& r->Ok_0.1 == initial_role_record(config_key, authority, role_bump)
            &&& role_wf(r->Ok_0.1)
            &&& ({
                let ev = r->Ok_0.2;
                &&& ev.config == config_key
                &&& ev.mint == mint
                &&& ev.authority == authority
                &&& ev.name@ == args.name@
                &&& ev.symbol@ == args.symbol@
                &&& ev.preset@ == (if args.enable_transfer_hook {
                    "SSS-2".spec_bytes()
                } else {
                    "SSS-1".spec_bytes()
                })
                &&& ev.timestamp == now
            })
        },
{
    if args.name.len() > MAX_NAME_LEN {
        return Err(StablecoinError::NameTooLong);
    }
    if args.symbol.len() > MAX_SYMBOL_LEN {
        return Err(StablecoinError::SymbolTooLong);
    }
    if args.uri.len() > MAX_URI_LEN {
        return Err(StablecoinError::UriTooLong);
    }
    if args.enable_transfer_hook {
        let hook_program = match args.transfer_hook_program {
            Some(program) => program,
            None => {
                return Err(StablecoinError::InvalidTransferHookProgram);
            },
        };
        let provided = match extra_metas_account {
            Some(account) => account,
            None => {
                return Err(StablecoinError::MissingExtraAccountMetas);
            },
        };
        let expected = find_extra_account_metas_pda(&mint, &hook_program);
        match expected {
            Some(pair) => {
                proof {
                    crate::addr::lemma_address_view_eq(provided, pair.0);
                }
                if !(provided == pair.0) {
                    return Err(StablecoinError::InvalidExtraAccountMetas);
                }
            },
            None => {
                return Err(StablecoinError::InvalidExtraAccountMetas);
            },
        }
    }
    let event_name = clone_bytes(&args.name);
    let event_symbol = clone_bytes(&args.symbol);
    let preset = if args.enable_transfer_hook {
        "SSS-2".as_bytes_vec()
    } else {
        "SSS-1".as_bytes_vec()
    };
    let enable_transfer_hook = args.enable_transfer_hook;
    let config = StablecoinConfig {
        authority,
        mint,
        name: args.name,
        symbol: args.symbol,
        uri: args.uri,
        decimals: args.decimals,
        is_paused: false,
        total_minted: 0,
        total_burned: 0,
        audit_counter: 0,
        features: FeatureFlags {
            permanent_delegate: args.enable_permanent_delegate,
            transfer_hook: enable_transfer_hook,
            confidential: false,
            default_frozen: args.default_account_frozen,
        },
        transfer_hook_program: if enable_transfer_hook {
            args.transfer_hook_program
        } else {
            None
        },
        bump: config_bump,
    };
    proof {
        assert(0x01u8 & !0x7Fu8 == 0) by (bit_vector);
        assert(spec_valid_roles(ROLE_MASTER_AUTHORITY));
    }
    let role_account = RoleAccount {
        config: config_key,
        authority,
        roles: ROLE_MASTER_AUTHORITY,
        mint_quota: None,
        minted_current_window: 0,
        window_start: 0,
        bump: role_bump,
    };
    let event = StablecoinInitialized {
        config: config_key,
        mint,
        authority,
        name: event_name,
        symbol: event_symbol,
        preset,
        timestamp: now,
    };
    Ok((config, role_account, event))
}

} // verus!
