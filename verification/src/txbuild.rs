use vstd::prelude::*;

use crate::addr::Address;
use crate::codec::{
    append_bool, append_bytes, append_option_address, append_option_u64, append_u64,
    append_address, spec_encode_bool, spec_encode_bytes, spec_encode_option_address,
    spec_encode_option_u64, spec_encode_u64,
};
use crate::constants::{
    spec_associated_token_program_id, spec_stablecoin_core_id, spec_system_program_id,
    spec_sysvar_rent_id, spec_token_program_id, associated_token_program_id, stablecoin_core_id,
    system_program_id, sysvar_rent_id, token_program_id,
};
use crate::digest::{anchor_discriminator, spec_operation_tag};
use crate::errors::StablecoinError;
use crate::pda::{blacklist_seeds, config_seeds, find_blacklist_pda, find_config_pda, find_role_pda, pda_of, role_seeds};

verus! {

// Building operations for the wire.  Every named operation is an eight-
// byte tag derived from its name, a fixed ordered account list, and a
// fixed ordered argument layout; any two implementations must agree on
// all three.

/// One entry of an operation's account list.
#[derive(Clone, Copy, Debug)]
pub struct AccountMetaInfo {
    pub pubkey: Address,
    pub is_signer: bool,
    pub is_writable: bool,
}

/// The model of one account-list entry.
pub ghost struct MetaV {
    pub pubkey: Seq<u8>,
    pub is_signer: bool,
    pub is_writable: bool,
}

impl View for AccountMetaInfo {
    type V = MetaV;

    open spec fn view(&self) -> MetaV {
        MetaV { pubkey: self.pubkey@, is_signer: self.is_signer, is_writable: self.is_writable }
    }
}

impl DeepView for AccountMetaInfo {
    type V = MetaV;

    open spec fn deep_view(&self) -> MetaV {
        self.view()
    }
}

pub open spec fn meta_v(pubkey: Seq<u8>, is_signer: bool, is_writable: bool) -> MetaV {
    MetaV { pubkey, is_signer, is_writable }
}

/// A complete operation, ready to submit: the program to run, the account
/// list, and the tagged argument bytes.
#[derive(Clone, Debug)]
pub struct Instruction {
    pub program_id: Address,
    pub accounts: Vec<AccountMetaInfo>,
    pub data: Vec<u8>,
}

/// A writable signer entry.
fn meta_signer(pubkey: Address) -> (m: AccountMetaInfo)
    ensures
        m@ == meta_v(pubkey@, true, true),
{
    AccountMetaInfo { pubkey, is_signer: true, is_writable: true }
}

/// A writable entry.
fn meta_writable(pubkey: Address) -> (m: AccountMetaInfo)
    ensures
        m@ == meta_v(pubkey@, false, true),
{
    AccountMetaInfo { pubkey, is_signer: false, is_writable: true }
}

/// A read-only entry.
fn meta_readonly(pubkey: Address) -> (m: AccountMetaInfo)
    ensures
        m@ == meta_v(pubkey@, false, false),
{
    AccountMetaInfo { pubkey, is_signer: false, is_writable: false }
}

/// Put the operation tag in front of the argument bytes.
pub fn build_instruction(
    name: &str,
    data: Vec<u8>,
    accounts: Vec<AccountMetaInfo>,
    program_id: Address,
) -> (ix: Instruction)
    ensures
        ix.program_id == program_id,
        ix.accounts == accounts,
        ix.data@ == spec_operation_tag(name) + data@,
{
    let mut payload = anchor_discriminator(name);
    let mut rest = data;
    payload.append(&mut rest);
    Instruction { program_id, accounts, data: payload }
}

/// The account list of a mint operation, or nothing when a sub-record
/// address cannot be derived.
pub open spec fn spec_mint_accounts(
    minter: Address,
    mint: Address,
    recipient: Address,
    recipient_ata: Address,
) -> Option<Seq<MetaV>> {
    let core = spec_stablecoin_core_id();
    match pda_of(config_seeds(mint@), core@) {
        None => None,
        Some(config) => match pda_of(role_seeds(config.0, minter@), core@) {
            None => None,
            Some(role) => Some(
                seq![
                    meta_v(minter@, true, true),
                    meta_v(config.0, false, true),
                    meta_v(role.0, false, true),
                    meta_v(mint@, false, false),
                    meta_v(recipient@, false, false),
                    meta_v(recipient_ata@, false, true),
                    meta_v(spec_token_program_id()@, false, false),
                    meta_v(spec_associated_token_program_id()@, false, false),
                    meta_v(spec_system_program_id()@, false, false),
                ],
            ),
        },
    }
}

/// What a mint operation carries.
pub struct MintParams {
    pub minter: Address,
    pub mint: Address,
    pub recipient: Address,
    pub recipient_ata: Address,
    pub amount: u64,
}

/// Build the mint operation: derive the configuration and role addresses,
/// lay out the fixed account list, and tag the amount.
pub fn build_mint_instruction(params: MintParams) -> (r: Option<Instruction>)
    ensures
        match r {
            Some(ix) => {
                &&& ix.program_id == spec_stablecoin_core_id()
                &&& Some(ix.accounts.deep_view()) == spec_mint_accounts(
                    params.minter,
                    params.mint,
                    params.recipient,
                    params.recipient_ata,
                )
                &&& ix.data@ == spec_operation_tag("mint") + spec_encode_u64(params.amount)
            },
            None => spec_mint_accounts(
                params.minter,
                params.mint,
                params.recipient,
                params.recipient_ata,
            ) is None,
        },
{
    let core = stablecoin_core_id();
    let config_pda = match find_config_pda(&params.mint, &core) {
        Some(pair) => pair.0,
        None => {
            return None;
        },
    };
    let role_pda = match find_role_pda(&config_pda, &params.minter, &core) {
        Some(pair) => pair.0,
        None => {
            return None;
        },
    };
    let mut accounts: Vec<AccountMetaInfo> = Vec::new();
    accounts.push(meta_signer(params.minter));
    accounts.push(meta_writable(config_pda));
    accounts.push(meta_writable(role_pda));
    accounts.push(meta_readonly(params.mint));
    accounts.push(meta_readonly(params.recipient));
    accounts.push(meta_writable(params.recipient_ata));
    accounts.push(meta_readonly(token_program_id()));
    accounts.push(meta_readonly(associated_token_program_id()));
    accounts.push(meta_readonly(system_program_id()));
    let mut data: Vec<u8> = Vec::new();
    append_u64(&mut data, params.amount);
    let ix = build_instruction("mint", data, accounts, core);
    proof {
        assert(Some(ix.accounts.deep_view()) =~~= spec_mint_accounts(
            params.minter,
            params.mint,
            params.recipient,
            params.recipient_ata,
        ));
    }
    Some(ix)
}


/// The account list of a burn operation.
pub open spec fn spec_burn_accounts(burner: Address, mint: Address, burner_ata: Address) -> Option<
    Seq<MetaV>,
> {
    let core = spec_stablecoin_core_id();
    match pda_of(config_seeds(mint@), core@) {
        None => None,
        Some(config) => match pda_of(role_seeds(config.0, burner@), core@) {
            None => None,
            Some(role) => Some(
                seq![
                    meta_v(burner@, true, true),
                    meta_v(config.0, false, true),
                    meta_v(role.0, false, true),
                    meta_v(mint@, false, true),
                    meta_v(burner_ata@, false, true),
                    meta_v(spec_token_program_id()@, false, false),
                ],
            ),
        },
    }
}

pub struct BurnParams {
    pub burner: Address,
    pub mint: Address,
    pub burner_ata: Address,
    pub amount: u64,
}

/// Build the burn operation.
pub fn build_burn_instruction(params: BurnParams) -> (r: Option<Instruction>)
    ensures
        match r {
            Some(ix) => {
                &&& ix.program_id == spec_stablecoin_core_id()
                &&& Some(ix.accounts.deep_view()) == spec_burn_accounts(
                    params.burner,
                    params.mint,
                    params.burner_ata,
                )
                &&& ix.data@ == spec_operation_tag("burn") + spec_encode_u64(params.amount)
            },
            None => spec_burn_accounts(params.burner, params.mint, params.burner_ata) is None,
        },
{
    let core = stablecoin_core_id();
    let config_pda = match find_config_pda(&params.mint, &core) {
        Some(pair) => pair.0,
        None => {
            return None;
        },
    };
    let role_pda = match find_role_pda(&config_pda, &params.burner, &core) {
        Some(pair) => pair.0,
        None => {
            return None;
        },
    };
    let mut accounts: Vec<AccountMetaInfo> = Vec::new();
    accounts.push(meta_signer(params.burner));
    accounts.push(meta_writable(config_pda));
    accounts.push(meta_writable(role_pda));
    accounts.push(meta_writable(params.mint));
    accounts.push(meta_writable(params.burner_ata));
    accounts.push(meta_readonly(token_program_id()));
    let mut data: Vec<u8> = Vec::new();
    append_u64(&mut data, params.amount);
    let ix = build_instruction("burn", data, accounts, core);
    proof {
        assert(Some(ix.accounts.deep_view()) =~~= spec_burn_accounts(
            params.burner,
            params.mint,
            params.burner_ata,
        ));
    }
    Some(ix)
}

/// The shared account list of the freeze and thaw operations.
pub open spec fn spec_freeze_accounts(
    freezer: Address,
    mint: Address,
    target_ata: Address,
) -> Option<Seq<MetaV>> {
    let core = spec_stablecoin_core_id();
    match pda_of(config_seeds(mint@), core@) {
        None => None,
        Some(config) => match pda_of(role_seeds(config.0, freezer@), core@) {
            None => None,
            Some(role) => Some(
                seq![
                    meta_v(freezer@, true, true),
                    meta_v(config.0, false, true),
                    meta_v(role.0, false, true),
                    meta_v(mint@, false, false),
                    meta_v(target_ata@, false, true),
                    meta_v(spec_token_program_id()@, false, false),
                ],
            ),
        },
    }
}

pub struct FreezeParams {
    pub freezer: Address,
    pub mint: Address,
    pub target_ata: Address,
}

/// Build the freeze operation.
pub fn build_freeze_instruction(params: FreezeParams) -> (r: Option<Instruction>)
    ensures
        match r {
            Some(ix) => {
                &&& ix.program_id == spec_stablecoin_core_id()
                &&& Some(ix.accounts.deep_view()) == spec_freeze_accounts(
                    params.freezer,
                    params.mint,
                    params.target_ata,
                )
                &&& ix.data@ == spec_operation_tag("freeze_account")
            },
            None => spec_freeze_accounts(params.freezer, params.mint, params.target_ata) is None,
        },
{
    let core = stablecoin_core_id();
    let config_pda = match find_config_pda(&params.mint, &core) {
        Some(pair) => pair.0,
        None => {
            return None;
        },
    };
    let role_pda = match find_role_pda(&config_pda, &params.freezer, &core) {
        Some(pair) => pair.0,
        None => {
            return None;
        },
    };
    let mut accounts: Vec<AccountMetaInfo> = Vec::new();
    accounts.push(meta_signer(params.freezer));
    accounts.push(meta_writable(config_pda));
    accounts.push(meta_writable(role_pda));
    accounts.push(meta_readonly(params.mint));
    accounts.push(meta_writable(params.target_ata));
    accounts.push(meta_readonly(token_program_id()));
    let ix = build_instruction("freeze_account", Vec::new(), accounts, core);
    proof {
        assert(Some(ix.accounts.deep_view()) =~~= spec_freeze_accounts(
            params.freezer,
            params.mint,
            params.target_ata,
        ));
        assert(ix.data@ =~= spec_operation_tag("freeze_account"));
    }
    Some(ix)
}

/// Build the thaw operation: the freeze list under the thaw tag.
pub fn build_thaw_instruction(params: FreezeParams) -> (r: Option<Instruction>)
    ensures
        match r {
            Some(ix) => {
                &&& ix.program_id == spec_stablecoin_core_id()
                &&& Some(ix.accounts.deep_view()) == spec_freeze_accounts(
                    params.freezer,
                    params.mint,
                    params.target_ata,
                )
                &&& ix.data@ == spec_operation_tag("thaw_account")
            },
            None => spec_freeze_accounts(params.freezer, params.mint, params.target_ata) is None,
        },
{
    let core = stablecoin_core_id();
    let config_pda = match find_config_pda(&params.mint, &core) {
        Some(pair) => pair.0,
        None => {
            return None;
        },
    };
    let role_pda = match find_role_pda(&config_pda, &params.freezer, &core) {
        Some(pair) => pair.0,
        None => {
            return None;
        },
    };
    let mut accounts: Vec<AccountMetaInfo> = Vec::new();
    accounts.push(meta_signer(params.freezer));
    accounts.push(meta_writable(config_pda));
    accounts.push(meta_writable(role_pda));
    accounts.push(meta_readonly(params.mint));
    accounts.push(meta_writable(params.target_ata));
    accounts.push(meta_readonly(token_program_id()));
    let ix = build_instruction("thaw_account", Vec::new(), accounts, core);
    proof {
        assert(Some(ix.accounts.deep_view()) =~~= spec_freeze_accounts(
            params.freezer,
            params.mint,
            params.target_ata,
        ));
        assert(ix.data@ =~= spec_operation_tag("thaw_account"));
    }
    Some(ix)
}

/// The account list of the pause and unpause operations.
pub open spec fn spec_pause_accounts(pauser: Address, config_pda: Address) -> Option<Seq<MetaV>> {
    let core = spec_stablecoin_core_id();
    match pda_of(role_seeds(config_pda@, pauser@), core@) {
        None => None,
        Some(role) => Some(
            seq![
                meta_v(pauser@, true, true),
                meta_v(config_pda@, false, true),
                meta_v(role.0, false, true),
            ],
        ),
    }
}

pub struct PauseParams {
    pub pauser: Address,
    pub config_pda: Address,
    pub unpause: bool,
}

/// Build the pause or unpause operation, by the flag.
pub fn build_pause_instruction(params: PauseParams) -> (r: Option<Instruction>)
    ensures
        match r {
            Some(ix) => {
                &&& ix.program_id == spec_stablecoin_core_id()
                &&& Some(ix.accounts.deep_view()) == spec_pause_accounts(
                    params.pauser,
                    params.config_pda,
                )
                &&& ix.data@ == (if params.unpause {
                    spec_operation_tag("unpause")
                } else {
                    spec_operation_tag("pause")
                })
            },
            None => spec_pause_accounts(params.pauser, params.config_pda) is None,
        },
{
    let core = stablecoin_core_id();
    let role_pda = match find_role_pda(&params.config_pda, &params.pauser, &core) {
        Some(pair) => pair.0,
        None => {
            return None;
        },
    };
    let mut accounts: Vec<AccountMetaInfo> = Vec::new();
    accounts.push(meta_signer(params.pauser));
    accounts.push(meta_writable(params.config_pda));
    accounts.push(meta_writable(role_pda));
    let name: &str = if params.unpause {
        "unpause"
    } else {
        "pause"
    };
    let ix = build_instruction(name, Vec::new(), accounts, core);
    proof {
        assert(Some(ix.accounts.deep_view()) =~~= spec_pause_accounts(
            params.pauser,
            params.config_pda,
        ));
        if params.unpause {
            assert(ix.data@ =~= spec_operation_tag("unpause"));
        } else {
            assert(ix.data@ =~= spec_operation_tag("pause"));
        }
    }
    Some(ix)
}

/// The account list of a role update.
pub open spec fn spec_update_roles_accounts(
    authority: Address,
    config_pda: Address,
    target: Address,
) -> Option<Seq<MetaV>> {
    let core = spec_stablecoin_core_id();
    match pda_of(role_seeds(config_pda@, authority@), core@) {
        None => None,
        Some(role) => match pda_of(role_seeds(config_pda@, target@), core@) {
            None => None,
            Some(target_role) => Some(
                seq![
                    meta_v(authority@, true, true),
                    meta_v(config_pda@, false, true),
                    meta_v(role.0, false, true),
                    meta_v(target_role.0, false, true),
                    meta_v(target@, false, false),
                    meta_v(spec_system_program_id()@, false, false),
                ],
            ),
        },
    }
}

pub struct UpdateRolesParams {
    pub authority: Address,
    pub config_pda: Address,
    pub target: Address,
    pub roles: u8,
    pub mint_quota: Option<u64>,
}

/// Build the role-update operation: the target, the new bitmask and the
/// optional quota behind the tag.
pub fn build_update_roles_instruction(params: UpdateRolesParams) -> (r: Option<Instruction>)
    ensures
        match r {
            Some(ix) => {
                &&& ix.program_id == spec_stablecoin_core_id()
                &&& Some(ix.accounts.deep_view()) == spec_update_roles_accounts(
                    params.authority,
                    params.config_pda,
                    params.target,
                )
                &&& ix.data@ == spec_operation_tag("update_roles") + params.target@ + seq![
                    params.roles,
                ] + spec_encode_option_u64(params.mint_quota)
            },
            None => spec_update_roles_accounts(
                params.authority,
                params.config_pda,
                params.target,
            ) is None,
        },
{
    let core = stablecoin_core_id();
    let role_pda = match find_role_pda(&params.config_pda, &params.authority, &core) {
        Some(pair) => pair.0,
        None => {
            return None;
        },
    };
    let target_role_pda = match find_role_pda(&params.config_pda, &params.target, &core) {
        Some(pair) => pair.0,
        None => {
            return None;
        },
    };
    let mut accounts: Vec<AccountMetaInfo> = Vec::new();
    accounts.push(meta_signer(params.authority));
    accounts.push(meta_writable(params.config_pda));
    accounts.push(meta_writable(role_pda));
    accounts.push(meta_writable(target_role_pda));
    accounts.push(meta_readonly(params.target));
    accounts.push(meta_readonly(system_program_id()));
    let mut data: Vec<u8> = Vec::new();
    append_address(&mut data, &params.target);
    data.push(params.roles);
    append_option_u64(&mut data, &params.mint_quota);
    proof {
        assert(data@ =~= params.target@ + seq![params.roles] + spec_encode_option_u64(
            params.mint_quota,
        ));
    }
    let ix = build_instruction("update_roles", data, accounts, core);
    proof {
        assert(Some(ix.accounts.deep_view()) =~~= spec_update_roles_accounts(
            params.authority,
            params.config_pda,
            params.target,
        ));
    }
    Some(ix)
}

/// The account list of a blacklist addition.
pub open spec fn spec_add_to_blacklist_accounts(
    blacklister: Address,
    config_pda: Address,
    wallet: Address,
) -> Option<Seq<MetaV>> {
    let core = spec_stablecoin_core_id();
    match pda_of(role_seeds(config_pda@, blacklister@), core@) {
        None => None,
        Some(role) => match pda_of(blacklist_seeds(config_pda@, wallet@), core@) {
            None => None,
            Some(entry) => Some(
                seq![
                    meta_v(blacklister@, true, true),
                    meta_v(config_pda@, false, true),
                    meta_v(role.0, false, true),
                    meta_v(entry.0, false, true),
                    meta_v(wallet@, false, false),
                    meta_v(spec_system_program_id()@, false, false),
                ],
            ),
        },
    }
}

pub struct AddToBlacklistParams {
    pub blacklister: Address,
    pub config_pda: Address,
    pub wallet: Address,
    pub reason: Vec<u8>,
}

/// Build the blacklist-addition operation: the wallet and the reason
/// behind the tag.
pub fn build_add_to_blacklist_instruction(params: AddToBlacklistParams) -> (r: Option<Instruction>)
    requires
        params.reason@.len() <= u32::MAX,
    ensures
        match r {
            Some(ix) => {
                &&& ix.program_id == spec_stablecoin_core_id()
                &&& Some(ix.accounts.deep_view()) == spec_add_to_blacklist_accounts(
                    params.blacklister,
                    params.config_pda,
                    params.wallet,
                )
                &&& ix.data@ == spec_operation_tag("add_to_blacklist") + params.wallet@
                    + spec_encode_bytes(params.reason@)
            },
            None => spec_add_to_blacklist_accounts(
                params.blacklister,
                params.config_pda,
                params.wallet,
            ) is None,
        },
{
    let core = stablecoin_core_id();
    let role_pda = match find_role_pda(&params.config_pda, &params.blacklister, &core) {
        Some(pair) => pair.0,
        None => {
            return None;
        },
    };
    let blacklist_pda = match find_blacklist_pda(&params.config_pda, &params.wallet, &core) {
        Some(pair) => pair.0,
        None => {
            return None;
        },
    };
    let mut accounts: Vec<AccountMetaInfo> = Vec::new();
    accounts.push(meta_signer(params.blacklister));
    accounts.push(meta_writable(params.config_pda));
    accounts.push(meta_writable(role_pda));
    accounts.push(meta_writable(blacklist_pda));
    accounts.push(meta_readonly(params.wallet));
    accounts.push(meta_readonly(system_program_id()));
    let mut data: Vec<u8> = Vec::new();
    append_address(&mut data, &params.wallet);
    append_bytes(&mut data, &params.reason);
    let ix = build_instruction("add_to_blacklist", data, accounts, core);
    proof {
        assert(Some(ix.accounts.deep_view()) =~~= spec_add_to_blacklist_accounts(
            params.blacklister,
            params.config_pda,
            params.wallet,
        ));
    }
    Some(ix)
}

/// The account list of a blacklist removal.
pub open spec fn spec_remove_from_blacklist_accounts(
    blacklister: Address,
    config_pda: Address,
    blacklist_entry: Address,
) -> Option<Seq<MetaV>> {
    let core = spec_stablecoin_core_id();
    match pda_of(role_seeds(config_pda@, blacklister@), core@) {
        None => None,
        Some(role) => Some(
            seq![
                meta_v(blacklister@, true, true),
                meta_v(config_pda@, false, true),
                meta_v(role.0, false, true),
                meta_v(blacklist_entry@, false, true),
            ],
        ),
    }
}

pub struct RemoveFromBlacklistParams {
    pub blacklister: Address,
    pub config_pda: Address,
    pub blacklist_entry: Address,
}

/// Build the blacklist-removal operation.
pub fn build_remove_from_blacklist_instruction(params: RemoveFromBlacklistParams) -> (r: Option<
    Instruction,
>)
    ensures
        match r {
            Some(ix) => {
                &&& ix.program_id == spec_stablecoin_core_id()
                &&& Some(ix.accounts.deep_view()) == spec_remove_from_blacklist_accounts(
                    params.blacklister,
                    params.config_pda,
                    params.blacklist_entry,
                )
                &&& ix.data@ == spec_operation_tag("remove_from_blacklist")
            },
            None => spec_remove_from_blacklist_accounts(
                params.blacklister,
                params.config_pda,
                params.blacklist_entry,
            ) is None,
        },
{
    let core = stablecoin_core_id();
    let role_pda = match find_role_pda(&params.config_pda, &params.blacklister, &core) {
        Some(pair) => pair.0,
        None => {
            return None;
        },
    };
    let mut accounts: Vec<AccountMetaInfo> = Vec::new();
    accounts.push(meta_signer(params.blacklister));
    accounts.push(meta_writable(params.config_pda));
    accounts.push(meta_writable(role_pda));
    accounts.push(meta_writable(params.blacklist_entry));
    let ix = build_instruction("remove_from_blacklist", Vec::new(), accounts, core);
    proof {
        assert(Some(ix.accounts.deep_view()) =~~= spec_remove_from_blacklist_accounts(
            params.blacklister,
            params.config_pda,
            params.blacklist_entry,
        ));
        assert(ix.data@ =~= spec_operation_tag("remove_from_blacklist"));
    }
    Some(ix)
}

/// The account list of a seizure.
pub open spec fn spec_seize_accounts(
    seizer: Address,
    config_pda: Address,
    mint: Address,
    target_ata: Address,
    treasury_ata: Address,
    blacklist_entry: Address,
) -> Option<Seq<MetaV>> {
    let core = spec_stablecoin_core_id();
    match pda_of(role_seeds(config_pda@, seizer@), core@) {
        None => None,
        Some(role) => Some(
            seq![
                meta_v(seizer@, true, true),
                meta_v(config_pda@, false, true),
                meta_v(role.0, false, true),
                meta_v(mint@, false, false),
                meta_v(target_ata@, false, true),
                meta_v(treasury_ata@, false, true),
                meta_v(blacklist_entry@, false, false),
                meta_v(spec_token_program_id()@, false, false),
            ],
        ),
    }
}

pub struct SeizeParams {
    pub seizer: Address,
    pub config_pda: Address,
    pub mint: Address,
    pub target_ata: Address,
    pub treasury_ata: Address,
    pub blacklist_entry: Address,
}

/// Build the seizure operation.
pub fn build_seize_instruction(params: SeizeParams) -> (r: Option<Instruction>)
    ensures
        match r {
            Some(ix) => {
                &&& ix.program_id == spec_stablecoin_core_id()
                &&& Some(ix.accounts.deep_view()) == spec_seize_accounts(
                    params.seizer,
                    params.config_pda,
                    params.mint,
                    params.target_ata,
                    params.treasury_ata,
                    params.blacklist_entry,
                )
                &&& ix.data@ == spec_operation_tag("seize")
            },
            None => spec_seize_accounts(
                params.seizer,
                params.config_pda,
                params.mint,
                params.target_ata,
                params.treasury_ata,
                params.blacklist_entry,
            ) is None,
        },
{
    let core = stablecoin_core_id();
    let role_pda = match find_role_pda(&params.config_pda, &params.seizer, &core) {
        Some(pair) => pair.0,
        None => {
            return None;
        },
    };
    let mut accounts: Vec<AccountMetaInfo> = Vec::new();
    accounts.push(meta_signer(params.seizer));
    accounts.push(meta_writable(params.config_pda));
    accounts.push(meta_writable(role_pda));
    accounts.push(meta_readonly(params.mint));
    accounts.push(meta_writable(params.target_ata));
    accounts.push(meta_writable(params.treasury_ata));
    accounts.push(meta_readonly(params.blacklist_entry));
    accounts.push(meta_readonly(token_program_id()));
    let ix = build_instruction("seize", Vec::new(), accounts, core);
    proof {
        assert(Some(ix.accounts.deep_view()) =~~= spec_seize_accounts(
            params.seizer,
            params.config_pda,
            params.mint,
            params.target_ata,
            params.treasury_ata,
            params.blacklist_entry,
        ));
        assert(ix.data@ =~= spec_operation_tag("seize"));
    }
    Some(ix)
}

/// What the initialization operation carries.
pub struct InitializeParams {
    pub authority: Address,
    pub mint: Address,
    pub name: Vec<u8>,
    pub symbol: Vec<u8>,
    pub uri: Vec<u8>,
    pub decimals: u8,
    pub enable_permanent_delegate: bool,
    pub enable_transfer_hook: bool,
    pub default_account_frozen: bool,
    pub transfer_hook_program: Option<Address>,
    pub config_pda: Address,
    pub role_pda: Address,
    pub extra_metas: Option<Address>,
}

/// The argument bytes of the initialization operation.
pub open spec fn spec_initialize_data(params: InitializeParams) -> Seq<u8> {
    spec_encode_bytes(params.name@) + spec_encode_bytes(params.symbol@) + spec_encode_bytes(
        params.uri@,
    ) + seq![params.decimals] + spec_encode_bool(params.enable_permanent_delegate)
        + spec_encode_bool(params.enable_transfer_hook) + spec_encode_bool(
        params.default_account_frozen,
    ) + spec_encode_option_address(
        if params.enable_transfer_hook {
            match params.transfer_hook_program {
                Some(program) => Some(program@),
                None => None,
            }
        } else {
            None
        },
    )
}

/// The account list of the initialization operation: with the transfer
/// hook, the auxiliary-record account and the hook program join the list.
pub open spec fn spec_initialize_accounts(
    params: InitializeParams,
    extra_metas: Address,
    hook_program: Address,
) -> Seq<MetaV> {
    let head = seq![
        meta_v(params.authority@, true, true),
        meta_v(params.mint@, true, true),
        meta_v(params.config_pda@, false, true),
        meta_v(params.role_pda@, false, true),
    ];
    let tail = seq![
        meta_v(spec_token_program_id()@, false, false),
        meta_v(spec_system_program_id()@, false, false),
        meta_v(spec_sysvar_rent_id()@, false, false),
    ];
    if params.enable_transfer_hook {
        head + seq![meta_v(extra_metas@, false, true), meta_v(hook_program@, false, false)] + tail
    } else {
        head + tail
    }
}

/// Build the initialization operation.  With the transfer hook requested,
/// the auxiliary-record account and the hook program must both be named.
pub fn build_initialize_instruction(params: InitializeParams) -> (r: Result<
    Instruction,
    StablecoinError,
>)
    requires
        params.name@.len() <= u32::MAX,
        params.symbol@.len() <= u32::MAX,
        params.uri@.len() <= u32::MAX,
    ensures
        r is Err <==> params.enable_transfer_hook && (params.extra_metas is None
            || params.transfer_hook_program is None),
        r is Err ==> r->Err_0 == (if params.extra_metas is None {
            StablecoinError::MissingExtraAccountMetas
        } else {
            StablecoinError::InvalidTransferHookProgram
        }),
        r matches Ok(ix) ==> {
            &&& ix.program_id == spec_stablecoin_core_id()
            &&& ix.data@ == spec_operation_tag("initialize") + spec_initialize_data(params)
            &&& (params.enable_transfer_hook ==> ix.accounts.deep_view()
                == spec_initialize_accounts(
                params,
                params.extra_metas->Some_0,
                params.transfer_hook_program->Some_0,
            ))
            &&& (!params.enable_transfer_hook ==> ix.accounts.deep_view()
                == spec_initialize_accounts(params, params.config_pda, params.config_pda))
        },
{
    let mut accounts: Vec<AccountMetaInfo> = Vec::new();
    accounts.push(meta_signer(params.authority));
    accounts.push(meta_signer(params.mint));
    accounts.push(meta_writable(params.config_pda));
    accounts.push(meta_writable(params.role_pda));
    if params.enable_transfer_hook {
        let extra_metas = match params.extra_metas {
            Some(account) => account,
            None => {
                return Err(StablecoinError::MissingExtraAccountMetas);
            },
        };
        let hook_program = match params.transfer_hook_program {
            Some(program) => program,
            None => {
                return Err(StablecoinError::InvalidTransferHookProgram);
            },
        };
        accounts.push(meta_writable(extra_metas));
        accounts.push(meta_readonly(hook_program));
    }
    accounts.push(meta_readonly(token_program_id()));
    accounts.push(meta_readonly(system_program_id()));
    accounts.push(meta_readonly(sysvar_rent_id()));
    let mut data: Vec<u8> = Vec::new();
    append_bytes(&mut data, &params.name);
    append_bytes(&mut data, &params.symbol);
    append_bytes(&mut data, &params.uri);
    data.push(params.decimals);
    append_bool(&mut data, params.enable_permanent_delegate);
    append_bool(&mut data, params.enable_transfer_hook);
    append_bool(&mut data, params.default_account_frozen);
    let hook_arg: Option<Address> = if params.enable_transfer_hook {
        params.transfer_hook_program
    } else {
        None
    };
    append_option_address(&mut data, &hook_arg);
    proof {
        assert(data@ =~= spec_initialize_data(params));
    }
    let ix = build_instruction("initialize", data, accounts, stablecoin_core_id());
    proof {
        if params.enable_transfer_hook {
            assert(ix.accounts.deep_view() =~~= spec_initialize_accounts(
                params,
                params.extra_metas->Some_0,
                params.transfer_hook_program->Some_0,
            ));
        } else {
            assert(ix.accounts.deep_view() =~~= spec_initialize_accounts(
                params,
                params.config_pda,
                params.config_pda,
            ));
        }
    }
    Ok(ix)
}

} // verus!
