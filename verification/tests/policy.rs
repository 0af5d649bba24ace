use stablecoin::addr::Address;
use stablecoin::constants::{
    MINT_QUOTA_WINDOW_SECONDS, ROLE_BLACKLISTER, ROLE_BURNER, ROLE_FREEZER,
    ROLE_MASTER_AUTHORITY, ROLE_MINTER, ROLE_PAUSER, ROLE_SEIZER, VALID_ROLE_MASK,
};
use stablecoin::errors::StablecoinError;
use stablecoin::instructions::blacklist::{add_handler, remove_handler, AddToBlacklistArgs};
use stablecoin::instructions::burn;
use stablecoin::instructions::freeze::{freeze_handler, thaw_handler};
use stablecoin::instructions::initialize::{self, InitializeArgs};
use stablecoin::instructions::mint;
use stablecoin::instructions::pause::{pause_handler, unpause_handler};
use stablecoin::instructions::roles::{
    transfer_authority_handler, update_minter_handler, update_roles_handler, UpdateMinterArgs,
    UpdateRolesArgs,
};
use stablecoin::instructions::seize::{self, TargetAccount};
use stablecoin::state::{BlacklistEntry, FeatureFlags, RoleAccount, StablecoinConfig};

fn addr(tag: u8) -> Address {
    Address { bytes: [tag; 32] }
}

fn test_config(permanent_delegate: bool, transfer_hook: bool) -> StablecoinConfig {
    StablecoinConfig {
        authority: addr(1),
        mint: addr(2),
        name: b"Test Dollar".to_vec(),
        symbol: b"TUSD".to_vec(),
        uri: b"https://example.com/tusd.json".to_vec(),
        decimals: 6,
        is_paused: false,
        total_minted: 0,
        total_burned: 0,
        audit_counter: 0,
        features: FeatureFlags {
            permanent_delegate,
            transfer_hook,
            confidential: false,
            default_frozen: false,
        },
        transfer_hook_program: if transfer_hook { Some(addr(9)) } else { None },
        bump: 254,
    }
}

fn role_with(roles: u8, holder: Address, quota: Option<u64>) -> RoleAccount {
    RoleAccount {
        config: addr(10),
        authority: holder,
        roles,
        mint_quota: quota,
        minted_current_window: 0,
        window_start: 0,
        bump: 255,
    }
}

fn fresh_entry() -> BlacklistEntry {
    BlacklistEntry {
        config: Address { bytes: [0; 32] },
        wallet: Address { bytes: [0; 32] },
        blacklisted_at: 0,
        blacklisted_by: Address { bytes: [0; 32] },
        reason: Vec::new(),
        is_active: false,
        bump: 0,
    }
}

#[test]
fn initialize_creates_master_and_checks_bounds() {
    let args = InitializeArgs {
        name: b"Test Dollar".to_vec(),
        symbol: b"TUSD".to_vec(),
        uri: b"https://example.com/tusd.json".to_vec(),
        decimals: 6,
        enable_permanent_delegate: false,
        enable_transfer_hook: false,
        default_account_frozen: false,
        transfer_hook_program: None,
    };
    let (config, role, event) =
        initialize::handler(args, addr(1), addr(2), addr(10), 254, 255, None, 1_000).unwrap();
    assert_eq!(config.authority, addr(1));
    assert_eq!(config.mint, addr(2));
    assert!(!config.is_paused);
    assert_eq!(config.total_minted, 0);
    assert_eq!(config.audit_counter, 0);
    assert_eq!(role.roles, ROLE_MASTER_AUTHORITY);
    assert_eq!(role.mint_quota, None);
    assert_eq!(event.preset, b"SSS-1".to_vec());

    let long_name = InitializeArgs {
        name: vec![b'a'; 33],
        symbol: b"TUSD".to_vec(),
        uri: Vec::new(),
        decimals: 6,
        enable_permanent_delegate: false,
        enable_transfer_hook: false,
        default_account_frozen: false,
        transfer_hook_program: None,
    };
    assert_eq!(
        initialize::handler(long_name, addr(1), addr(2), addr(10), 254, 255, None, 0).unwrap_err(),
        StablecoinError::NameTooLong
    );
    let long_symbol = InitializeArgs {
        name: Vec::new(),
        symbol: vec![b's'; 11],
        uri: Vec::new(),
        decimals: 6,
        enable_permanent_delegate: false,
        enable_transfer_hook: false,
        default_account_frozen: false,
        transfer_hook_program: None,
    };
    assert_eq!(
        initialize::handler(long_symbol, addr(1), addr(2), addr(10), 254, 255, None, 0)
            .unwrap_err(),
        StablecoinError::SymbolTooLong
    );
    let hook_without_program = InitializeArgs {
        name: Vec::new(),
        symbol: Vec::new(),
        uri: Vec::new(),
        decimals: 6,
        enable_permanent_delegate: true,
        enable_transfer_hook: true,
        default_account_frozen: false,
        transfer_hook_program: None,
    };
    assert_eq!(
        initialize::handler(hook_without_program, addr(1), addr(2), addr(10), 254, 255, None, 0)
            .unwrap_err(),
        StablecoinError::InvalidTransferHookProgram
    );
}

#[test]
fn mint_respects_quota_window() {
    // Quota scenario: two mints in one window may not sum past the quota.
    let mut config = test_config(false, false);
    let mut role = role_with(ROLE_MINTER, addr(3), Some(1_000_000));
    let now = 50_000;
    let first = mint::handler(
        &mut config, &mut role, addr(10), addr(2), 0, addr(4), addr(2), addr(4), addr(3),
        500_000, now,
    );
    assert!(first.is_ok());
    assert_eq!(role.minted_current_window, 500_000);
    assert_eq!(role.window_start, now);
    assert_eq!(config.total_minted, 500_000);
    assert_eq!(config.audit_counter, 1);

    let second = mint::handler(
        &mut config, &mut role, addr(10), addr(2), 500_000, addr(4), addr(2), addr(4), addr(3),
        500_001, now + 10,
    );
    assert_eq!(second.unwrap_err(), StablecoinError::QuotaExceeded);
    // The failed call left every record exactly as it was.
    assert_eq!(role.minted_current_window, 500_000);
    assert_eq!(config.total_minted, 500_000);
    assert_eq!(config.audit_counter, 1);

    // The fixed window rolls over: one unit later than a full window, the
    // whole quota is available again.
    let third = mint::handler(
        &mut config, &mut role, addr(10), addr(2), 500_000, addr(4), addr(2), addr(4), addr(3),
        1_000_000, now + MINT_QUOTA_WINDOW_SECONDS,
    );
    assert!(third.is_ok());
    assert_eq!(role.minted_current_window, 1_000_000);
    assert_eq!(role.window_start, now + MINT_QUOTA_WINDOW_SECONDS);
}

#[test]
fn mint_requires_role_and_bindings() {
    let mut config = test_config(false, false);
    let mut role = role_with(ROLE_BURNER, addr(3), None);
    let denied = mint::handler(
        &mut config, &mut role, addr(10), addr(2), 0, addr(4), addr(2), addr(4), addr(3), 5, 0,
    );
    assert_eq!(denied.unwrap_err(), StablecoinError::Unauthorized);

    // Master authority mints without the minter bit and without a quota.
    let mut master = role_with(ROLE_MASTER_AUTHORITY, addr(1), None);
    let minted = mint::handler(
        &mut config, &mut master, addr(10), addr(2), 0, addr(4), addr(2), addr(4), addr(1), 5, 0,
    );
    assert!(minted.is_ok());
    assert_eq!(master.window_start, 0);

    // A recipient account bound to another mint is refused.
    let wrong_ata = mint::handler(
        &mut config, &mut master, addr(10), addr(2), 5, addr(4), addr(7), addr(4), addr(1), 5, 0,
    );
    assert_eq!(wrong_ata.unwrap_err(), StablecoinError::Unauthorized);
}

#[test]
fn burn_requires_balance() {
    let mut config = test_config(false, false);
    let role = role_with(ROLE_BURNER, addr(3), None);
    let short = burn::handler(
        &mut config, &role, addr(10), addr(2), 100, addr(3), addr(2), addr(3), 4, 5, 0,
    );
    assert_eq!(short.unwrap_err(), StablecoinError::InsufficientBalance);
    assert_eq!(config.total_burned, 0);

    let event =
        burn::handler(&mut config, &role, addr(10), addr(2), 100, addr(3), addr(2), addr(3), 5, 5, 7)
            .unwrap();
    assert_eq!(config.total_burned, 5);
    assert_eq!(config.audit_counter, 1);
    assert_eq!(event.new_total_supply, 95);
    assert_eq!(event.timestamp, 7);
}

#[test]
fn pause_blocks_issuance_only() {
    // Pausing blocks mint and burn but leaves freezing, blacklisting and
    // role management available for incident response.
    let mut config = test_config(false, true);
    let pauser = role_with(ROLE_PAUSER, addr(5), None);
    pause_handler(&mut config, &pauser, addr(10), addr(5), 1).unwrap();
    assert!(config.is_paused);

    let mut minter = role_with(ROLE_MINTER, addr(3), None);
    let minted = mint::handler(
        &mut config, &mut minter, addr(10), addr(2), 0, addr(4), addr(2), addr(4), addr(3), 1, 2,
    );
    assert_eq!(minted.unwrap_err(), StablecoinError::SystemPaused);

    let burner = role_with(ROLE_BURNER, addr(3), None);
    let burned = burn::handler(
        &mut config, &burner, addr(10), addr(2), 10, addr(3), addr(2), addr(3), 10, 1, 2,
    );
    assert_eq!(burned.unwrap_err(), StablecoinError::SystemPaused);

    let freezer = role_with(ROLE_FREEZER, addr(6), None);
    assert!(freeze_handler(&mut config, &freezer, addr(10), addr(2), addr(8), addr(2), addr(6), 3)
        .is_ok());

    let blacklister = role_with(ROLE_BLACKLISTER, addr(7), None);
    let mut entry = fresh_entry();
    let args = AddToBlacklistArgs { wallet: addr(8), reason: b"fraud".to_vec() };
    assert!(add_handler(&config, &blacklister, &mut entry, addr(10), 250, addr(7), args, 4)
        .is_ok());

    let master = role_with(ROLE_MASTER_AUTHORITY, addr(1), None);
    let mut target_role = role_with(0, addr(8), None);
    let update = UpdateRolesArgs { target: addr(8), roles: ROLE_FREEZER, mint_quota: None };
    assert!(update_roles_handler(&config, &master, &mut target_role, addr(10), 249, addr(1),
        update, 5)
        .is_ok());

    unpause_handler(&mut config, &pauser, addr(10), addr(5), 6).unwrap();
    assert!(!config.is_paused);
}

#[test]
fn freeze_and_thaw_authorize_and_count() {
    let mut config = test_config(false, false);
    let freezer = role_with(ROLE_FREEZER, addr(6), None);
    let frozen =
        freeze_handler(&mut config, &freezer, addr(10), addr(2), addr(8), addr(2), addr(6), 1)
            .unwrap();
    assert_eq!(frozen.target_account, addr(8));
    assert_eq!(config.audit_counter, 1);
    let thawed =
        thaw_handler(&mut config, &freezer, addr(10), addr(2), addr(8), addr(2), addr(6), 2)
            .unwrap();
    assert_eq!(thawed.target_account, addr(8));
    assert_eq!(config.audit_counter, 2);

    let outsider = role_with(ROLE_PAUSER, addr(5), None);
    let denied =
        freeze_handler(&mut config, &outsider, addr(10), addr(2), addr(8), addr(2), addr(5), 3);
    assert_eq!(denied.unwrap_err(), StablecoinError::Unauthorized);
}

#[test]
fn update_roles_validates_masks_and_features() {
    // An out-of-range bitmask is rejected, so every stored mask stays
    // inside the seven defined bits.
    let config = test_config(false, false);
    let master = role_with(ROLE_MASTER_AUTHORITY, addr(1), None);
    let mut target = role_with(0, addr(8), None);

    let bad = UpdateRolesArgs { target: addr(8), roles: 0x80, mint_quota: None };
    assert_eq!(
        update_roles_handler(&config, &master, &mut target, addr(10), 249, addr(1), bad, 1)
            .unwrap_err(),
        StablecoinError::InvalidRoles
    );
    assert_eq!(VALID_ROLE_MASK, 0x7F);

    // Blacklister and seizer bits need the transfer-hook feature.
    let gated = UpdateRolesArgs { target: addr(8), roles: ROLE_BLACKLISTER, mint_quota: None };
    assert_eq!(
        update_roles_handler(&config, &master, &mut target, addr(10), 249, addr(1), gated, 2)
            .unwrap_err(),
        StablecoinError::FeatureNotEnabled
    );
    let hooked = test_config(false, true);
    let gated = UpdateRolesArgs { target: addr(8), roles: ROLE_BLACKLISTER | ROLE_SEIZER,
        mint_quota: None };
    assert!(update_roles_handler(&hooked, &master, &mut target, addr(10), 249, addr(1), gated, 3)
        .is_ok());
    assert_eq!(target.roles & !VALID_ROLE_MASK, 0);

    // A quota given without the minter bit is dropped.
    let quota_no_minter =
        UpdateRolesArgs { target: addr(8), roles: ROLE_FREEZER, mint_quota: Some(5) };
    update_roles_handler(&config, &master, &mut target, addr(10), 249, addr(1), quota_no_minter, 4)
        .unwrap();
    assert_eq!(target.mint_quota, None);

    // Only the master authority may update roles.
    let minter = role_with(ROLE_MINTER, addr(3), None);
    let denied = UpdateRolesArgs { target: addr(8), roles: ROLE_MINTER, mint_quota: None };
    assert_eq!(
        update_roles_handler(&config, &minter, &mut target, addr(10), 249, addr(3), denied, 5)
            .unwrap_err(),
        StablecoinError::Unauthorized
    );
}

#[test]
fn update_minter_changes_quota_only() {
    let config = test_config(false, false);
    let master = role_with(ROLE_MASTER_AUTHORITY, addr(1), None);
    let mut target = role_with(ROLE_MINTER, addr(3), Some(10));
    target.minted_current_window = 4;
    update_minter_handler(&config, &master, &mut target, addr(10), addr(1),
        UpdateMinterArgs { new_quota: 99 }, 1)
        .unwrap();
    assert_eq!(target.mint_quota, Some(99));
    assert_eq!(target.minted_current_window, 4);
    assert_eq!(target.roles, ROLE_MINTER);

    let mut not_minter = role_with(ROLE_FREEZER, addr(6), None);
    assert_eq!(
        update_minter_handler(&config, &master, &mut not_minter, addr(10), addr(1),
            UpdateMinterArgs { new_quota: 1 }, 2)
            .unwrap_err(),
        StablecoinError::InvalidRoles
    );
}

#[test]
fn authority_transfer_moves_master_bit() {
    // The master bit leaves the old holder, reaches the new one, and a
    // transfer to oneself is refused.
    let mut config = test_config(false, false);
    let mut current = role_with(ROLE_MASTER_AUTHORITY | ROLE_PAUSER, addr(1), None);
    let mut incoming = role_with(ROLE_MINTER, addr(8), Some(7));

    let selfish =
        transfer_authority_handler(&mut config, &mut current, &mut incoming, addr(10), addr(1),
            addr(1), 248, 1);
    assert_eq!(selfish.unwrap_err(), StablecoinError::SelfTransfer);
    assert_eq!(current.roles, ROLE_MASTER_AUTHORITY | ROLE_PAUSER);

    transfer_authority_handler(&mut config, &mut current, &mut incoming, addr(10), addr(1),
        addr(8), 248, 2)
        .unwrap();
    assert_eq!(current.roles & ROLE_MASTER_AUTHORITY, 0);
    assert_eq!(current.roles, ROLE_PAUSER);
    assert_eq!(incoming.roles, ROLE_MINTER | ROLE_MASTER_AUTHORITY);
    assert_eq!(incoming.mint_quota, Some(7));
    assert_eq!(config.authority, addr(8));
}

#[test]
fn blacklist_add_remove_reactivate() {
    // Adding twice fails; removing deactivates in place; adding again
    // reactivates with the new reason.
    let config = test_config(false, true);
    let blacklister = role_with(ROLE_BLACKLISTER, addr(7), None);
    let mut entry = fresh_entry();
    let wallet = addr(8);

    let added = add_handler(&config, &blacklister, &mut entry, addr(10), 250, addr(7),
        AddToBlacklistArgs { wallet, reason: b"fraud".to_vec() }, 100)
        .unwrap();
    assert!(entry.is_active);
    assert_eq!(entry.reason, b"fraud".to_vec());
    assert_eq!(entry.blacklisted_at, 100);
    assert_eq!(added.reason, b"fraud".to_vec());

    let again = add_handler(&config, &blacklister, &mut entry, addr(10), 250, addr(7),
        AddToBlacklistArgs { wallet, reason: b"x".to_vec() }, 101);
    assert_eq!(again.unwrap_err(), StablecoinError::AlreadyBlacklisted);
    assert_eq!(entry.reason, b"fraud".to_vec());

    remove_handler(&config, &blacklister, &mut entry, addr(10), addr(7), 102).unwrap();
    assert!(!entry.is_active);
    // History survives removal.
    assert_eq!(entry.reason, b"fraud".to_vec());
    assert_eq!(entry.wallet, wallet);

    let removed_again = remove_handler(&config, &blacklister, &mut entry, addr(10), addr(7), 103);
    assert_eq!(removed_again.unwrap_err(), StablecoinError::NotBlacklisted);

    add_handler(&config, &blacklister, &mut entry, addr(10), 250, addr(7),
        AddToBlacklistArgs { wallet, reason: b"x".to_vec() }, 104)
        .unwrap();
    assert!(entry.is_active);
    assert_eq!(entry.reason, b"x".to_vec());
    assert_eq!(entry.blacklisted_at, 104);
}

#[test]
fn blacklist_needs_feature_role_and_bound() {
    let hookless = test_config(false, false);
    let blacklister = role_with(ROLE_BLACKLISTER, addr(7), None);
    let mut entry = fresh_entry();
    let args = AddToBlacklistArgs { wallet: addr(8), reason: b"fraud".to_vec() };
    assert_eq!(
        add_handler(&hookless, &blacklister, &mut entry, addr(10), 250, addr(7), args, 1)
            .unwrap_err(),
        StablecoinError::FeatureNotEnabled
    );

    let config = test_config(false, true);
    let outsider = role_with(ROLE_MINTER, addr(3), None);
    let args = AddToBlacklistArgs { wallet: addr(8), reason: b"fraud".to_vec() };
    assert_eq!(
        add_handler(&config, &outsider, &mut entry, addr(10), 250, addr(3), args, 2).unwrap_err(),
        StablecoinError::Unauthorized
    );

    let long_reason = AddToBlacklistArgs { wallet: addr(8), reason: vec![b'r'; 129] };
    assert_eq!(
        add_handler(&config, &blacklister, &mut entry, addr(10), 250, addr(7), long_reason, 3)
            .unwrap_err(),
        StablecoinError::ReasonTooLong
    );
}

#[test]
fn seize_needs_all_three_preconditions() {
    // Removing any one of: permanent-delegate feature, active blacklist
    // entry, frozen target — fails with its own error and leaves the
    // configuration untouched.
    let seizer = role_with(ROLE_MASTER_AUTHORITY | ROLE_SEIZER, addr(1), None);
    let entry = BlacklistEntry {
        config: addr(10),
        wallet: addr(8),
        blacklisted_at: 5,
        blacklisted_by: addr(7),
        reason: b"fraud".to_vec(),
        is_active: true,
        bump: 250,
    };
    let target = TargetAccount {
        key: addr(11),
        owner: addr(8),
        mint: addr(2),
        amount: 777,
        is_frozen: true,
    };

    let mut no_delegate = test_config(false, true);
    let refused = seize::handler(&mut no_delegate, &seizer, &entry, target, addr(10), addr(2),
        addr(12), addr(1), 9);
    assert_eq!(refused.unwrap_err(), StablecoinError::FeatureNotEnabled);
    assert_eq!(no_delegate.audit_counter, 0);

    let mut config = test_config(true, true);
    let mut inactive = entry.clone();
    inactive.is_active = false;
    let refused = seize::handler(&mut config, &seizer, &inactive, target, addr(10), addr(2),
        addr(12), addr(1), 9);
    assert_eq!(refused.unwrap_err(), StablecoinError::TargetNotBlacklisted);
    assert_eq!(config.audit_counter, 0);

    let thawed = TargetAccount { is_frozen: false, ..target };
    let refused = seize::handler(&mut config, &seizer, &entry, thawed, addr(10), addr(2),
        addr(12), addr(1), 9);
    assert_eq!(refused.unwrap_err(), StablecoinError::AccountNotFrozen);
    assert_eq!(config.audit_counter, 0);

    let seized = seize::handler(&mut config, &seizer, &entry, target, addr(10), addr(2),
        addr(12), addr(1), 9)
        .unwrap();
    assert_eq!(seized.amount, 777);
    assert_eq!(seized.from_account, addr(11));
    assert_eq!(seized.to_account, addr(12));
    assert_eq!(config.audit_counter, 1);
}

#[test]
fn initialize_checks_hook_wiring_and_uri() {
    let long_uri = InitializeArgs {
        name: Vec::new(),
        symbol: Vec::new(),
        uri: vec![b'u'; 201],
        decimals: 6,
        enable_permanent_delegate: false,
        enable_transfer_hook: false,
        default_account_frozen: false,
        transfer_hook_program: None,
    };
    assert_eq!(
        initialize::handler(long_uri, addr(1), addr(2), addr(10), 254, 255, None, 0).unwrap_err(),
        StablecoinError::UriTooLong
    );

    let hooked = || InitializeArgs {
        name: Vec::new(),
        symbol: Vec::new(),
        uri: Vec::new(),
        decimals: 6,
        enable_permanent_delegate: true,
        enable_transfer_hook: true,
        default_account_frozen: false,
        transfer_hook_program: Some(addr(9)),
    };
    // Hook enabled but no auxiliary-record account named.
    assert_eq!(
        initialize::handler(hooked(), addr(1), addr(2), addr(10), 254, 255, None, 0)
            .unwrap_err(),
        StablecoinError::MissingExtraAccountMetas
    );
    // Hook enabled but the named account is not the derived one.
    assert_eq!(
        initialize::handler(hooked(), addr(1), addr(2), addr(10), 254, 255, Some(addr(13)), 0)
            .unwrap_err(),
        StablecoinError::InvalidExtraAccountMetas
    );
    // The derived account passes, and the hook program is registered.
    let (extra, _) =
        stablecoin::pda::find_extra_account_metas_pda(&addr(2), &addr(9)).unwrap();
    let (config, _, event) =
        initialize::handler(hooked(), addr(1), addr(2), addr(10), 254, 255, Some(extra), 0)
            .unwrap();
    assert_eq!(config.transfer_hook_program, Some(addr(9)));
    assert!(config.features.transfer_hook);
    assert_eq!(event.preset, b"SSS-2".to_vec());
}

#[test]
fn counters_report_overflow() {
    let mut config = test_config(false, false);
    config.total_minted = u64::MAX;
    let mut master = role_with(ROLE_MASTER_AUTHORITY, addr(1), None);
    let overflowed = mint::handler(
        &mut config, &mut master, addr(10), addr(2), 0, addr(4), addr(2), addr(4), addr(1), 1, 0,
    );
    assert_eq!(overflowed.unwrap_err(), StablecoinError::Overflow);
    assert_eq!(config.total_minted, u64::MAX);
    assert_eq!(config.audit_counter, 0);
}
