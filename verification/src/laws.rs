use vstd::prelude::*;

use crate::addr::Address;
use crate::constants::{ROLE_MASTER_AUTHORITY, ROLE_SEIZER};
use crate::errors::{StablecoinError, TransferHookError};
use crate::hook::{
    execute_decision, expected_records_presented, spec_check_blacklist, AccountView,
};
use crate::codec::{spec_parse_blacklist_entry, spec_parse_config};
use crate::constants::spec_expected_core_program_id;
use crate::instructions::blacklist::{add_error, remove_error};
use crate::instructions::burn::burn_error;
use crate::instructions::freeze::freeze_error;
use crate::instructions::mint::{mint_error, window_base, window_expired};
use crate::instructions::roles::{
    update_roles_error, updated_role_record, UpdateRolesArgs,
};
use crate::instructions::seize::{seize_error, TargetAccount};
use crate::pda::{extra_account_metas_seeds, key_is_pda};
use crate::state::{
    role_wf, BlacklistEntry, BlacklistEntryV, RoleAccount, StablecoinConfig,
};
use crate::utils::{spec_has_any_role, spec_valid_roles};

verus! {

// The load-bearing guarantees of the policy layer, each stated once, in
// full, over the same specification functions that the operations'
// contracts use.

/// A role update never writes an undefined bit: a bitmask outside the
/// seven defined bits is rejected with InvalidRoles by an authorized
/// caller's update, and any update that goes through leaves the target's
/// record well formed — its bits inside the valid mask, its quota only on
/// a minter.
pub proof fn lemma_update_roles_masks(
    config: StablecoinConfig,
    role: RoleAccount,
    config_key: Address,
    args: UpdateRolesArgs,
    bump: u8,
)
    ensures
        (role.config == config_key && spec_has_any_role(role.roles, ROLE_MASTER_AUTHORITY)
            && !spec_valid_roles(args.roles)) ==> update_roles_error(
            config,
            role,
            config_key,
            args,
        ) == Some(StablecoinError::InvalidRoles),
        update_roles_error(config, role, config_key, args) is None ==> role_wf(
            updated_role_record(config_key, args, bump),
        ),
{
}

/// The sum of the amounts of a chain of successful mints: what one
/// quota-bound minter moved.
pub open spec fn sum_amounts(amounts: Seq<u64>) -> int
    decreases amounts.len(),
{
    if amounts.len() == 0 {
        0
    } else {
        sum_amounts(amounts.drop_last()) + amounts.last()
    }
}

/// The records between the steps of a chain of successful mints by one
/// minter with the fixed quota `q`: exactly what the mint operation's
/// contract says of each step.
pub open spec fn mint_chain(
    records: Seq<RoleAccount>,
    amounts: Seq<u64>,
    times: Seq<i64>,
    q: u64,
) -> bool {
    &&& records.len() == amounts.len() + 1
    &&& times.len() == amounts.len()
    &&& forall|i: int|
        0 <= i < amounts.len() ==> {
            &&& (#[trigger] records[i]).mint_quota == Some(q)
            &&& records[i + 1].minted_current_window == window_base(records[i], times[i])
                + amounts[i]
            &&& records[i + 1].minted_current_window <= q
            &&& records[i + 1].window_start == (if window_expired(
                records[i].window_start,
                times[i],
            ) {
                times[i]
            } else {
                records[i].window_start
            })
        }
}

/// Within one quota window — no step of the chain crosses a window
/// boundary — the window's running total carries the whole sum.
proof fn lemma_chain_total(
    records: Seq<RoleAccount>,
    amounts: Seq<u64>,
    times: Seq<i64>,
    q: u64,
    k: int,
)
    requires
        mint_chain(records, amounts, times, q),
        forall|i: int|
            0 <= i < amounts.len() ==> !window_expired(
                (#[trigger] records[i]).window_start,
                times[i],
            ),
        0 <= k <= amounts.len(),
    ensures
        records[k].minted_current_window == records[0].minted_current_window + sum_amounts(
            amounts.take(k),
        ),
    decreases k,
{
    if k == 0 {
        assert(amounts.take(0) =~= Seq::<u64>::empty());
    } else {
        lemma_chain_total(records, amounts, times, q, k - 1);
        assert(amounts.take(k).drop_last() =~= amounts.take(k - 1));
        assert(amounts.take(k).last() == amounts[k - 1]);
    }
}

/// The quota law: however a quota-bound minter spreads its requests, the
/// amounts approved within any single window sum to at most the quota.
/// The window is fixed, not sliding: a chain that crosses a boundary
/// starts a fresh total, so two adjacent windows may each reach the quota
/// independently — documented behavior, not an accident.
pub proof fn lemma_window_quota_bound(
    records: Seq<RoleAccount>,
    amounts: Seq<u64>,
    times: Seq<i64>,
    q: u64,
)
    requires
        mint_chain(records, amounts, times, q),
        forall|i: int|
            0 <= i < amounts.len() ==> !window_expired(
                (#[trigger] records[i]).window_start,
                times[i],
            ),
    ensures
        sum_amounts(amounts) <= q,
{
    if amounts.len() == 0 {
        assert(sum_amounts(amounts) == 0);
    } else {
        let n = amounts.len() as int;
        lemma_chain_total(records, amounts, times, q, n);
        assert(amounts.take(n) =~= amounts);
        assert(records[n - 1].mint_quota == Some(q));
        assert(records[n].minted_current_window <= q);
        assert(sum_amounts(amounts) == records[n].minted_current_window - records[
            0
        ].minted_current_window);
    }
}

/// All of the transfer validator's checks short of the blacklist itself, with
/// the seizure-authority exception not in play.
pub open spec fn validator_context_ok(
    program_id: Address,
    source_token: AccountView,
    mint_key: Address,
    destination_token: AccountView,
    source_owner: Address,
    extra_metas: AccountView,
    core_program: Address,
    config_account: AccountView,
    source_blacklist: AccountView,
    destination_blacklist: AccountView,
) -> bool {
    &&& extra_metas.owner == program_id
    &&& key_is_pda(extra_metas.key, extra_account_metas_seeds(mint_key@), program_id)
    &&& core_program == spec_expected_core_program_id()
    &&& config_account.owner == spec_expected_core_program_id()
    &&& match spec_parse_config(config_account.data@) {
        Some(config) => config.features.transfer_hook && config.transfer_hook_program == Some(
            program_id@,
        ) && config.mint == mint_key@,
        None => false,
    }
    &&& (source_blacklist.data@.len() != 0 ==> source_blacklist.owner
        == spec_expected_core_program_id())
    &&& (destination_blacklist.data@.len() != 0 ==> destination_blacklist.owner
        == spec_expected_core_program_id())
    &&& expected_records_presented(
        mint_key,
        source_token,
        destination_token,
        config_account,
        source_blacklist,
        destination_blacklist,
    )
}

/// One half of the blacklist round trip: while a wallet's entry is
/// active, a transfer out of that wallet that satisfies every other check
/// is denied — blacklisting then immediately transferring fails.
pub proof fn lemma_blacklisted_source_denied(
    program_id: Address,
    source_token: AccountView,
    mint_key: Address,
    destination_token: AccountView,
    source_owner: Address,
    extra_metas: AccountView,
    core_program: Address,
    config_account: AccountView,
    source_blacklist: AccountView,
    destination_blacklist: AccountView,
    entry: BlacklistEntryV,
)
    requires
        validator_context_ok(
            program_id,
            source_token,
            mint_key,
            destination_token,
            source_owner,
            extra_metas,
            core_program,
            config_account,
            source_blacklist,
            destination_blacklist,
        ),
        source_owner != config_account.key,
        spec_parse_blacklist_entry(source_blacklist.data@) == Some(entry),
        entry.is_active,
    ensures
        execute_decision(
            program_id,
            source_token,
            mint_key,
            destination_token,
            source_owner,
            extra_metas,
            core_program,
            config_account,
            source_blacklist,
            destination_blacklist,
        ) == Err::<(), TransferHookError>(TransferHookError::TransferDenied),
{
    assert(source_blacklist.data@.len() >= 8);
}

/// The other half of the round trip: once the entry is deactivated — the
/// record kept, only its active flag dropped — the same transfer passes,
/// provided the destination's entry does not block it.
pub proof fn lemma_removed_source_allowed(
    program_id: Address,
    source_token: AccountView,
    mint_key: Address,
    destination_token: AccountView,
    source_owner: Address,
    extra_metas: AccountView,
    core_program: Address,
    config_account: AccountView,
    source_blacklist: AccountView,
    destination_blacklist: AccountView,
    entry: BlacklistEntryV,
)
    requires
        validator_context_ok(
            program_id,
            source_token,
            mint_key,
            destination_token,
            source_owner,
            extra_metas,
            core_program,
            config_account,
            source_blacklist,
            destination_blacklist,
        ),
        source_owner != config_account.key,
        spec_parse_blacklist_entry(source_blacklist.data@) == Some(entry),
        !entry.is_active,
        spec_check_blacklist(destination_blacklist) == Ok::<(), TransferHookError>(()),
    ensures
        execute_decision(
            program_id,
            source_token,
            mint_key,
            destination_token,
            source_owner,
            extra_metas,
            core_program,
            config_account,
            source_blacklist,
            destination_blacklist,
        ) == Ok::<(), TransferHookError>(()),
{
    assert(source_blacklist.data@.len() >= 8);
}

/// The one exception: when the mover is the configuration record itself —
/// the seizure protocol's forced transfer — the validator approves without
/// consulting either blacklist entry.  The exception is scoped to that
/// identity, not to any privileged role.
pub proof fn lemma_seizure_authority_exception(
    program_id: Address,
    source_token: AccountView,
    mint_key: Address,
    destination_token: AccountView,
    source_owner: Address,
    extra_metas: AccountView,
    core_program: Address,
    config_account: AccountView,
    source_blacklist: AccountView,
    destination_blacklist: AccountView,
)
    requires
        validator_context_ok(
            program_id,
            source_token,
            mint_key,
            destination_token,
            source_owner,
            extra_metas,
            core_program,
            config_account,
            source_blacklist,
            destination_blacklist,
        ),
        source_owner == config_account.key,
    ensures
        execute_decision(
            program_id,
            source_token,
            mint_key,
            destination_token,
            source_owner,
            extra_metas,
            core_program,
            config_account,
            source_blacklist,
            destination_blacklist,
        ) == Ok::<(), TransferHookError>(()),
{
}

/// The seizure preconditions work in combination.  With the caller's role
/// and every record binding in place, dropping the permanent-delegate
/// feature, the target's active blacklist entry, or the target's frozen
/// state each yields its own error — and the operation's contract then
/// guarantees the configuration is left untouched; with all three
/// present, every check passes.
pub proof fn lemma_seize_preconditions(
    config: StablecoinConfig,
    role: RoleAccount,
    entry: BlacklistEntry,
    target: TargetAccount,
    config_key: Address,
    mint_key: Address,
)
    requires
        role.config == config_key,
        spec_has_any_role(role.roles, ROLE_MASTER_AUTHORITY | ROLE_SEIZER),
        entry.config == config_key,
        entry.wallet == target.owner,
        target.mint == mint_key,
        config.mint == mint_key,
        config.audit_counter < u64::MAX,
    ensures
        !config.features.permanent_delegate ==> seize_error(
            config,
            role,
            entry,
            target,
            config_key,
            mint_key,
        ) == Some(StablecoinError::FeatureNotEnabled),
        (config.features.permanent_delegate && !entry.is_active) ==> seize_error(
            config,
            role,
            entry,
            target,
            config_key,
            mint_key,
        ) == Some(StablecoinError::TargetNotBlacklisted),
        (config.features.permanent_delegate && entry.is_active && !target.is_frozen)
            ==> seize_error(config, role, entry, target, config_key, mint_key) == Some(
            StablecoinError::AccountNotFrozen,
        ),
        (config.features.permanent_delegate && entry.is_active && target.is_frozen)
            ==> seize_error(config, role, entry, target, config_key, mint_key) is None,
{
}

/// Pausing blocks exactly issuance.  While the asset is paused, mint and
/// burn fail with SystemPaused; freezing, blacklisting and role
/// management answer precisely as they would unpaused, so incident
/// response stays available.
pub proof fn lemma_pause_scope(
    config: StablecoinConfig,
    role: RoleAccount,
    entry: BlacklistEntry,
    config_key: Address,
    mint_key: Address,
    mint_supply: u64,
    recipient: Address,
    recipient_ata_mint: Address,
    recipient_ata_owner: Address,
    burner: Address,
    burner_ata_mint: Address,
    burner_ata_owner: Address,
    burner_ata_amount: u64,
    target_ata_mint: Address,
    amount: u64,
    now: i64,
    reason_len: nat,
    args: UpdateRolesArgs,
)
    requires
        config.is_paused,
    ensures
        mint_error(
            config,
            role,
            config_key,
            mint_key,
            mint_supply,
            recipient,
            recipient_ata_mint,
            recipient_ata_owner,
            amount,
            now,
        ) == Some(StablecoinError::SystemPaused),
        burn_error(
            config,
            role,
            config_key,
            mint_key,
            mint_supply,
            burner,
            burner_ata_mint,
            burner_ata_owner,
            burner_ata_amount,
            amount,
        ) == Some(StablecoinError::SystemPaused),
        freeze_error(config, role, config_key, mint_key, target_ata_mint) == freeze_error(
            StablecoinConfig { is_paused: false, ..config },
            role,
            config_key,
            mint_key,
            target_ata_mint,
        ),
        add_error(config, role, entry, config_key, reason_len) == add_error(
            StablecoinConfig { is_paused: false, ..config },
            role,
            entry,
            config_key,
            reason_len,
        ),
        remove_error(config, role, entry, config_key) == remove_error(
            StablecoinConfig { is_paused: false, ..config },
            role,
            entry,
            config_key,
        ),
        update_roles_error(config, role, config_key, args) == update_roles_error(
            StablecoinConfig { is_paused: false, ..config },
            role,
            config_key,
            args,
        ),
{
}

} // verus!
