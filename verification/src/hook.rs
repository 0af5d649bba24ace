use vstd::prelude::*;

use crate::addr::{lemma_address_view_eq, Address};
use crate::codec::{
    parse_blacklist_entry, parse_config, read_address, spec_parse_blacklist_entry,
    spec_parse_config, spec_read_address,
};
use crate::constants::spec_expected_core_program_id;
use crate::errors::TransferHookError;
use crate::pda::{
    blacklist_seeds, config_seeds, extra_account_metas_seeds, find_blacklist_pda, find_config_pda,
    find_extra_account_metas_pda, key_is_pda,
};

verus! {

// The transfer validator.  The external ledger invokes it before any
// transfer of the asset completes; it reads the presented records, derives
// on its own what they must be, and approves or denies.  It never mutates
// anything.

/// What the validator sees of one presented record: its address, the program
/// that owns it, and its stored bytes.
#[derive(Clone, Debug)]
pub struct AccountView {
    pub key: Address,
    pub owner: Address,
    pub data: Vec<u8>,
}

/// The owner a token account's bytes designate: the 32 bytes after the
/// mint field.  This is how the validator learns the source and destination
/// owners — from the presented account data, never from the caller's word.
pub open spec fn spec_token_account_owner(data: Seq<u8>) -> Option<Seq<u8>> {
    match spec_read_address(data, 32) {
        Some(p) => Some(p.0),
        None => None,
    }
}

/// The presented auxiliary records are, byte for byte, the ones this
/// module derives for this mint itself: the configuration record's address
/// under the core program, and each party's blacklist address derived from
/// the owner named inside the party's own token account bytes.
pub open spec fn expected_records_presented(
    mint_key: Address,
    source_token: AccountView,
    destination_token: AccountView,
    config_account: AccountView,
    source_blacklist: AccountView,
    destination_blacklist: AccountView,
) -> bool {
    &&& key_is_pda(config_account.key, config_seeds(mint_key@), spec_expected_core_program_id())
    &&& match spec_token_account_owner(source_token.data@) {
        Some(owner) => key_is_pda(
            source_blacklist.key,
            blacklist_seeds(config_account.key@, owner),
            spec_expected_core_program_id(),
        ),
        None => false,
    }
    &&& match spec_token_account_owner(destination_token.data@) {
        Some(owner) => key_is_pda(
            destination_blacklist.key,
            blacklist_seeds(config_account.key@, owner),
            spec_expected_core_program_id(),
        ),
        None => false,
    }
}

/// What one party's blacklist record says: empty space passes, bytes that
/// do not carry a blacklist entry are rejected, an active entry denies the
/// transfer.
pub open spec fn spec_check_blacklist(account: AccountView) -> Result<(), TransferHookError> {
    if account.data@.len() == 0 {
        Ok(())
    } else {
        match spec_parse_blacklist_entry(account.data@) {
            None => Err(TransferHookError::InvalidBlacklistEntry),
            Some(entry) => if entry.is_active {
                Err(TransferHookError::TransferDenied)
            } else {
                Ok(())
            },
        }
    }
}

/// The whole decision of the validator, in the order the checks run.
pub open spec fn execute_decision(
    program_id: Address,
    source_token: AccountView,
    mint_key: Address,
    destination_token: AccountView,
    source_owner: Address,
    extra_metas: AccountView,
    core_program: Address,
    config_account: AccountView,
    source_blacklist: AccountView,
    destination_blacklist: AccountView,
) -> Result<(), TransferHookError> {
    if extra_metas.owner != program_id {
        Err(TransferHookError::InvalidExtraAccountMetas)
    } else if !key_is_pda(extra_metas.key, extra_account_metas_seeds(mint_key@), program_id) {
        Err(TransferHookError::InvalidExtraAccountMetas)
    } else if core_program != spec_expected_core_program_id() {
        Err(TransferHookError::InvalidCoreProgram)
    } else if config_account.owner != spec_expected_core_program_id() {
        Err(TransferHookError::InvalidConfig)
    } else {
        match spec_parse_config(config_account.data@) {
            None => Err(TransferHookError::InvalidConfig),
            Some(config) => {
                if !config.features.transfer_hook {
                    Err(TransferHookError::FeatureNotEnabled)
                } else if config.transfer_hook_program != Some(program_id@) {
                    Err(TransferHookError::InvalidHookProgram)
                } else if config.mint != mint_key@ {
                    Err(TransferHookError::InvalidConfig)
                } else if source_blacklist.data@.len() != 0 && source_blacklist.owner
                    != spec_expected_core_program_id() {
                    Err(TransferHookError::InvalidBlacklistEntry)
                } else if destination_blacklist.data@.len() != 0 && destination_blacklist.owner
                    != spec_expected_core_program_id() {
                    Err(TransferHookError::InvalidBlacklistEntry)
                } else if !expected_records_presented(
                    mint_key,
                    source_token,
                    destination_token,
                    config_account,
                    source_blacklist,
                    destination_blacklist,
                ) {
                    Err(TransferHookError::InvalidExtraAccountMetas)
                } else if source_owner == config_account.key {
                    // The seizure-authority exception: the configuration
                    // record itself moves funds, and only it.
                    Ok(())
                } else {
                    match spec_check_blacklist(source_blacklist) {
                        Err(e) => Err(e),
                        Ok(()) => spec_check_blacklist(destination_blacklist),
                    }
                }
            },
        }
    }
}

/// The owner that a presented token account's bytes designate.
pub fn token_account_owner(data: &Vec<u8>) -> (r: Option<Address>)
    ensures
        match r {
            Some(owner) => spec_token_account_owner(data@) == Some(owner@),
            None => spec_token_account_owner(data@) is None,
        },
{
    match read_address(data, 32) {
        Some(p) => Some(p.0),
        None => None,
    }
}

/// One party's blacklist check.
pub fn check_blacklist(account: &AccountView) -> (r: Result<(), TransferHookError>)
    ensures
        r == spec_check_blacklist(*account),
{
    if account.data.len() == 0 {
        return Ok(());
    }
    match parse_blacklist_entry(&account.data) {
        None => Err(TransferHookError::InvalidBlacklistEntry),
        Some(entry) => {
            if entry.is_active {
                Err(TransferHookError::TransferDenied)
            } else {
                Ok(())
            }
        },
    }
}

/// The transfer validator itself.
///
/// It re-derives the auxiliary-record list for this mint and insists the
/// presented list match it byte for byte; verifies the claimed core-policy
/// program and the configuration record's provenance and content; checks
/// each non-empty blacklist record's provenance; and then denies the
/// transfer if either party's blacklist entry is active — unless the
/// source owner is the configuration record itself, the one narrow
/// exception that lets the seizure protocol move a blacklisted holder's
/// funds.  It is a pure check: nothing is mutated, and the same presented state
/// always yields the same answer.
pub fn execute_handler(
    program_id: Address,
    source_token: &AccountView,
    mint_key: Address,
    destination_token: &AccountView,
    source_owner: Address,
    extra_metas: &AccountView,
    core_program: Address,
    config_account: &AccountView,
    source_blacklist: &AccountView,
    destination_blacklist: &AccountView,
) -> (r: Result<(), TransferHookError>)
    ensures
        r == execute_decision(
            program_id,
            *source_token,
            mint_key,
            *destination_token,
            source_owner,
            *extra_metas,
            core_program,
            *config_account,
            *source_blacklist,
            *destination_blacklist,
        ),
{
    if !(extra_metas.owner == program_id) {
        return Err(TransferHookError::InvalidExtraAccountMetas);
    }
    match find_extra_account_metas_pda(&mint_key, &program_id) {
        Some(pair) => {
            proof {
                lemma_address_view_eq(extra_metas.key, pair.0);
            }
            if !(extra_metas.key == pair.0) {
                return Err(TransferHookError::InvalidExtraAccountMetas);
            }
        },
        None => {
            return Err(TransferHookError::InvalidExtraAccountMetas);
        },
    }
    let expected_core = crate::constants::expected_core_program_id();
    if !(core_program == expected_core) {
        return Err(TransferHookError::InvalidCoreProgram);
    }
    if !(config_account.owner == expected_core) {
        return Err(TransferHookError::InvalidConfig);
    }
    let config = match parse_config(&config_account.data) {
        Some(config) => config,
        None => {
            return Err(TransferHookError::InvalidConfig);
        },
    };
    if !config.features.transfer_hook {
        return Err(TransferHookError::FeatureNotEnabled);
    }
    let hook_matches: bool = match &config.transfer_hook_program {
        Some(program) => {
            proof {
                lemma_address_view_eq(*program, program_id);
            }
            *program == program_id
        },
        None => false,
    };
    if !hook_matches {
        return Err(TransferHookError::InvalidHookProgram);
    }
    proof {
        lemma_address_view_eq(config.mint, mint_key);
    }
    if !(config.mint == mint_key) {
        return Err(TransferHookError::InvalidConfig);
    }
    if source_blacklist.data.len() != 0 && !(source_blacklist.owner == expected_core) {
        return Err(TransferHookError::InvalidBlacklistEntry);
    }
    if destination_blacklist.data.len() != 0 && !(destination_blacklist.owner == expected_core) {
        return Err(TransferHookError::InvalidBlacklistEntry);
    }
    // Step one of the protocol: the presented auxiliary records must equal
    // the ones derived here, against substitution of stale or forged
    // records.
    match find_config_pda(&mint_key, &expected_core) {
        Some(pair) => {
            proof {
                lemma_address_view_eq(config_account.key, pair.0);
            }
            if !(config_account.key == pair.0) {
                return Err(TransferHookError::InvalidExtraAccountMetas);
            }
        },
        None => {
            return Err(TransferHookError::InvalidExtraAccountMetas);
        },
    }
    let source_token_owner = match token_account_owner(&source_token.data) {
        Some(owner) => owner,
        None => {
            return Err(TransferHookError::InvalidExtraAccountMetas);
        },
    };
    match find_blacklist_pda(&config_account.key, &source_token_owner, &expected_core) {
        Some(pair) => {
            proof {
                lemma_address_view_eq(source_blacklist.key, pair.0);
            }
            if !(source_blacklist.key == pair.0) {
                return Err(TransferHookError::InvalidExtraAccountMetas);
            }
        },
        None => {
            return Err(TransferHookError::InvalidExtraAccountMetas);
        },
    }
    let destination_token_owner = match token_account_owner(&destination_token.data) {
        Some(owner) => owner,
        None => {
            return Err(TransferHookError::InvalidExtraAccountMetas);
        },
    };
    match find_blacklist_pda(&config_account.key, &destination_token_owner, &expected_core) {
        Some(pair) => {
            proof {
                lemma_address_view_eq(destination_blacklist.key, pair.0);
            }
            if !(destination_blacklist.key == pair.0) {
                return Err(TransferHookError::InvalidExtraAccountMetas);
            }
        },
        None => {
            return Err(TransferHookError::InvalidExtraAccountMetas);
        },
    }
    if source_owner == config_account.key {
        return Ok(());
    }
    match check_blacklist(source_blacklist) {
        Err(e) => Err(e),
        Ok(()) => check_blacklist(destination_blacklist),
    }
}

} // verus!
