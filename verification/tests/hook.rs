use stablecoin::addr::Address;
use stablecoin::codec::{
    encode_blacklist_entry, encode_config, encode_role_account, parse_blacklist_entry,
    parse_config, parse_role_account, parse_token_account,
};
use stablecoin::constants::expected_core_program_id;
use stablecoin::errors::TransferHookError;
use stablecoin::hook::{check_blacklist, execute_handler, token_account_owner, AccountView};
use stablecoin::pda::{find_blacklist_pda, find_config_pda, find_extra_account_metas_pda};
use stablecoin::state::{BlacklistEntry, FeatureFlags, RoleAccount, StablecoinConfig};

fn addr(tag: u8) -> Address {
    Address { bytes: [tag; 32] }
}

fn hook_config(mint: Address, hook_program: Address) -> StablecoinConfig {
    StablecoinConfig {
        authority: addr(1),
        mint,
        name: b"Test Dollar".to_vec(),
        symbol: b"TUSD".to_vec(),
        uri: b"https://example.com/tusd.json".to_vec(),
        decimals: 6,
        is_paused: false,
        total_minted: 10,
        total_burned: 3,
        audit_counter: 17,
        features: FeatureFlags {
            permanent_delegate: true,
            transfer_hook: true,
            confidential: false,
            default_frozen: false,
        },
        transfer_hook_program: Some(hook_program),
        bump: 254,
    }
}

fn active_entry(config: Address, wallet: Address) -> BlacklistEntry {
    BlacklistEntry {
        config,
        wallet,
        blacklisted_at: 100,
        blacklisted_by: addr(7),
        reason: b"fraud".to_vec(),
        is_active: true,
        bump: 250,
    }
}

fn token_account_bytes(mint: &Address, owner: &Address) -> Vec<u8> {
    let mut data = vec![0u8; 165];
    data[0..32].copy_from_slice(&mint.bytes);
    data[32..64].copy_from_slice(&owner.bytes);
    data
}

struct HookSetup {
    hook_program: Address,
    mint: Address,
    core: Address,
    source_token: AccountView,
    destination_token: AccountView,
    source_owner: Address,
    extra_metas: AccountView,
    config_account: AccountView,
    source_blacklist: AccountView,
    destination_blacklist: AccountView,
}

fn hook_setup(source_entry_active: bool) -> HookSetup {
    let core = expected_core_program_id();
    let hook_program = addr(0x50);
    let mint = addr(0x51);
    let source_owner = addr(0x60);
    let destination_owner = addr(0x61);

    let (config_pda, _) = find_config_pda(&mint, &core).unwrap();
    let config = hook_config(mint, hook_program);
    let (extra_pda, _) = find_extra_account_metas_pda(&mint, &hook_program).unwrap();
    let (source_bl_pda, _) = find_blacklist_pda(&config_pda, &source_owner, &core).unwrap();
    let (dest_bl_pda, _) = find_blacklist_pda(&config_pda, &destination_owner, &core).unwrap();

    let mut entry = active_entry(config_pda, source_owner);
    entry.is_active = source_entry_active;

    HookSetup {
        hook_program,
        mint,
        core,
        source_token: AccountView {
            key: addr(0x70),
            owner: addr(0x71),
            data: token_account_bytes(&mint, &source_owner),
        },
        destination_token: AccountView {
            key: addr(0x72),
            owner: addr(0x71),
            data: token_account_bytes(&mint, &destination_owner),
        },
        source_owner,
        extra_metas: AccountView { key: extra_pda, owner: hook_program, data: vec![1] },
        config_account: AccountView {
            key: config_pda,
            owner: core,
            data: encode_config(&config),
        },
        source_blacklist: AccountView {
            key: source_bl_pda,
            owner: core,
            data: encode_blacklist_entry(&entry),
        },
        destination_blacklist: AccountView { key: dest_bl_pda, owner: core, data: Vec::new() },
    }
}

fn run_hook(s: &HookSetup) -> Result<(), TransferHookError> {
    execute_handler(
        s.hook_program,
        &s.source_token,
        s.mint,
        &s.destination_token,
        s.source_owner,
        &s.extra_metas,
        s.core,
        &s.config_account,
        &s.source_blacklist,
        &s.destination_blacklist,
    )
}

#[test]
fn hook_denies_blacklisted_source_and_allows_after_removal() {
    // The blacklist round trip at the validator: active entry denies, the
    // deactivated entry (same record) lets the same transfer through.
    let denied = hook_setup(true);
    assert_eq!(run_hook(&denied), Err(TransferHookError::TransferDenied));

    let allowed = hook_setup(false);
    assert_eq!(run_hook(&allowed), Ok(()));
}

#[test]
fn hook_checks_destination_too() {
    // Both parties are checked symmetrically: an active entry at the
    // destination denies as well.
    let mut s = hook_setup(false);
    let destination_owner = addr(0x61);
    let entry = active_entry(s.config_account.key, destination_owner);
    s.destination_blacklist.data = encode_blacklist_entry(&entry);
    assert_eq!(run_hook(&s), Err(TransferHookError::TransferDenied));
}

#[test]
fn hook_exempts_the_configuration_authority() {
    // The seizure exception: when the source owner is the configuration
    // record itself, even an active source entry does not deny.
    let mut s = hook_setup(true);
    s.source_owner = s.config_account.key;
    assert_eq!(run_hook(&s), Ok(()));
}

#[test]
fn hook_rejects_substituted_records() {
    // A presented list that is not byte-for-byte the derived one fails.
    let mut s = hook_setup(false);
    s.source_blacklist.key = addr(0x7F);
    assert_eq!(run_hook(&s), Err(TransferHookError::InvalidExtraAccountMetas));

    let mut s = hook_setup(false);
    s.extra_metas.key = addr(0x7E);
    assert_eq!(run_hook(&s), Err(TransferHookError::InvalidExtraAccountMetas));

    let mut s = hook_setup(false);
    s.config_account.key = addr(0x7D);
    assert_eq!(run_hook(&s), Err(TransferHookError::InvalidExtraAccountMetas));
}

#[test]
fn hook_rejects_wrong_wiring() {
    let mut s = hook_setup(false);
    s.core = addr(0x7C);
    assert_eq!(run_hook(&s), Err(TransferHookError::InvalidCoreProgram));

    let mut s = hook_setup(false);
    s.config_account.owner = addr(0x7B);
    assert_eq!(run_hook(&s), Err(TransferHookError::InvalidConfig));

    let mut s = hook_setup(false);
    s.source_blacklist.owner = addr(0x7A);
    assert_eq!(run_hook(&s), Err(TransferHookError::InvalidBlacklistEntry));

    // A forged configuration record does not parse.
    let mut s = hook_setup(false);
    s.config_account.data[0] ^= 1;
    assert_eq!(run_hook(&s), Err(TransferHookError::InvalidConfig));

    // A mint that the configuration does not govern is refused.
    let mut s = hook_setup(false);
    let other_config = hook_config(addr(0x52), s.hook_program);
    s.config_account.data = encode_config(&other_config);
    assert_eq!(run_hook(&s), Err(TransferHookError::InvalidConfig));

    // A hook program the configuration did not register is refused.
    let mut s = hook_setup(false);
    let foreign = hook_config(s.mint, addr(0x53));
    s.config_account.data = encode_config(&foreign);
    assert_eq!(run_hook(&s), Err(TransferHookError::InvalidHookProgram));

    // With the transfer-hook feature off, the validator reports it.
    let mut s = hook_setup(false);
    let mut off = hook_config(s.mint, s.hook_program);
    off.features.transfer_hook = false;
    off.transfer_hook_program = None;
    s.config_account.data = encode_config(&off);
    assert_eq!(run_hook(&s), Err(TransferHookError::FeatureNotEnabled));
}

#[test]
fn blacklist_check_reads_entries() {
    let entry = active_entry(addr(10), addr(8));
    let view = AccountView { key: addr(9), owner: addr(4), data: encode_blacklist_entry(&entry) };
    assert_eq!(check_blacklist(&view), Err(TransferHookError::TransferDenied));

    let mut inactive = entry.clone();
    inactive.is_active = false;
    let view = AccountView {
        key: addr(9),
        owner: addr(4),
        data: encode_blacklist_entry(&inactive),
    };
    assert_eq!(check_blacklist(&view), Ok(()));

    // Empty space passes; bytes that are not an entry are rejected.
    let empty = AccountView { key: addr(9), owner: addr(4), data: Vec::new() };
    assert_eq!(check_blacklist(&empty), Ok(()));
    let junk = AccountView { key: addr(9), owner: addr(4), data: vec![1, 2, 3] };
    assert_eq!(check_blacklist(&junk), Err(TransferHookError::InvalidBlacklistEntry));
}

#[test]
fn records_round_trip_through_the_wire() {
    let config = hook_config(addr(0x51), addr(0x50));
    let bytes = encode_config(&config);
    let back = parse_config(&bytes).unwrap();
    assert_eq!(back.authority, config.authority);
    assert_eq!(back.mint, config.mint);
    assert_eq!(back.name, config.name);
    assert_eq!(back.symbol, config.symbol);
    assert_eq!(back.uri, config.uri);
    assert_eq!(back.decimals, config.decimals);
    assert_eq!(back.is_paused, config.is_paused);
    assert_eq!(back.total_minted, config.total_minted);
    assert_eq!(back.total_burned, config.total_burned);
    assert_eq!(back.audit_counter, config.audit_counter);
    assert_eq!(back.features, config.features);
    assert_eq!(back.transfer_hook_program, config.transfer_hook_program);
    assert_eq!(back.bump, config.bump);

    let role = RoleAccount {
        config: addr(10),
        authority: addr(3),
        roles: 0x43,
        mint_quota: Some(123_456),
        minted_current_window: 77,
        window_start: -5,
        bump: 251,
    };
    let bytes = encode_role_account(&role);
    let back = parse_role_account(&bytes).unwrap();
    assert_eq!(back.config, role.config);
    assert_eq!(back.authority, role.authority);
    assert_eq!(back.roles, role.roles);
    assert_eq!(back.mint_quota, role.mint_quota);
    assert_eq!(back.minted_current_window, role.minted_current_window);
    assert_eq!(back.window_start, role.window_start);
    assert_eq!(back.bump, role.bump);

    let entry = active_entry(addr(10), addr(8));
    let bytes = encode_blacklist_entry(&entry);
    let back = parse_blacklist_entry(&bytes).unwrap();
    assert_eq!(back.config, entry.config);
    assert_eq!(back.wallet, entry.wallet);
    assert_eq!(back.blacklisted_at, entry.blacklisted_at);
    assert_eq!(back.blacklisted_by, entry.blacklisted_by);
    assert_eq!(back.reason, entry.reason);
    assert_eq!(back.is_active, entry.is_active);
    assert_eq!(back.bump, entry.bump);
}

#[test]
fn stored_records_tolerate_trailing_padding() {
    let entry = active_entry(addr(10), addr(8));
    let mut bytes = encode_blacklist_entry(&entry);
    bytes.extend_from_slice(&[0u8; 64]);
    let back = parse_blacklist_entry(&bytes).unwrap();
    assert_eq!(back.wallet, entry.wallet);
}

#[test]
fn parsers_reject_malformed_records() {
    let entry = active_entry(addr(10), addr(8));
    let good = encode_blacklist_entry(&entry);

    // A wrong record tag is rejected.
    let mut wrong_tag = good.clone();
    wrong_tag[0] ^= 0xFF;
    assert!(parse_blacklist_entry(&wrong_tag).is_none());

    // Truncation is rejected.
    let mut short = good.clone();
    short.truncate(good.len() - 1);
    assert!(parse_blacklist_entry(&short).is_none());

    // A boolean byte other than zero or one is rejected.
    let mut bad_bool = good.clone();
    let flag_at = good.len() - 2;
    bad_bool[flag_at] = 2;
    assert!(parse_blacklist_entry(&bad_bool).is_none());

    // A config record's bytes are not a blacklist entry.
    let config = hook_config(addr(0x51), addr(0x50));
    assert!(parse_blacklist_entry(&encode_config(&config)).is_none());
}

#[test]
fn record_tags_are_the_documented_digests() {
    // The eight-byte record tags pin the digest derivation: these values
    // are sha256("account:<Name>") truncated to eight bytes.
    let config = hook_config(addr(0x51), addr(0x50));
    assert_eq!(&encode_config(&config)[0..8], &[127, 25, 244, 213, 1, 192, 101, 6]);
    let role = RoleAccount {
        config: addr(10),
        authority: addr(3),
        roles: 1,
        mint_quota: None,
        minted_current_window: 0,
        window_start: 0,
        bump: 0,
    };
    assert_eq!(&encode_role_account(&role)[0..8], &[142, 236, 135, 197, 214, 3, 244, 226]);
    let entry = active_entry(addr(10), addr(8));
    assert_eq!(
        &encode_blacklist_entry(&entry)[0..8],
        &[218, 179, 231, 40, 141, 25, 168, 189]
    );
}

#[test]
fn token_account_fields_sit_at_fixed_offsets() {
    let mint = addr(0x51);
    let owner = addr(0x60);
    let mut data = token_account_bytes(&mint, &owner);
    data[64..72].copy_from_slice(&777u64.to_le_bytes());
    data[108] = 2;
    let info = parse_token_account(&data).unwrap();
    assert_eq!(info.mint, mint);
    assert_eq!(info.owner, owner);
    assert_eq!(info.amount, 777);
    assert!(info.is_frozen);

    data[108] = 1;
    assert!(!parse_token_account(&data).unwrap().is_frozen);
    assert!(parse_token_account(&data[0..164].to_vec()).is_none());

    assert_eq!(token_account_owner(&data).unwrap(), owner);
    assert!(token_account_owner(&vec![0u8; 63]).is_none());
}
