use stablecoin::addr::Address;
use stablecoin::client::{
    build_role_assignments, parse_commitment, resolve_cluster, explorer_url, ClusterInfo,
    Commitment, ExtensionsConfig, MinterConfig, RolesConfig,
};
use stablecoin::constants::{
    stablecoin_core_id, token_program_id, ROLE_BLACKLISTER, ROLE_BURNER, ROLE_FREEZER,
    ROLE_MINTER, ROLE_PAUSER,
};
use stablecoin::digest::{account_discriminator, anchor_discriminator};
use stablecoin::pda::{find_blacklist_pda, find_config_pda, find_role_pda};
use stablecoin::txbuild::{
    build_burn_instruction, build_initialize_instruction, build_mint_instruction,
    build_pause_instruction, build_update_roles_instruction, BurnParams, InitializeParams,
    MintParams, PauseParams, UpdateRolesParams,
};

fn addr(tag: u8) -> Address {
    Address { bytes: [tag; 32] }
}

#[test]
fn operation_tags_are_the_documented_digests() {
    // The eight-byte operation tags pin the derivation: these values are
    // sha256("global:<name>") truncated to eight bytes.
    assert_eq!(anchor_discriminator("mint"), vec![51, 57, 225, 47, 182, 146, 137, 166]);
    assert_eq!(anchor_discriminator("burn"), vec![116, 110, 29, 56, 107, 219, 42, 93]);
    assert_eq!(
        anchor_discriminator("initialize"),
        vec![175, 175, 109, 31, 13, 152, 155, 237]
    );
    assert_eq!(
        account_discriminator("StablecoinConfig"),
        vec![127, 25, 244, 213, 1, 192, 101, 6]
    );
}

#[test]
fn derived_addresses_match_the_deriver() {
    // The library's sub-record addresses are exactly what the address
    // deriver answers when asked directly.
    let core = stablecoin_core_id();
    let mint = addr(0x51);
    let (config_pda, config_bump) = find_config_pda(&mint, &core).unwrap();

    let program = solana_pubkey::Pubkey::new_from_array(core.bytes);
    let (direct, direct_bump) = solana_pubkey::Pubkey::find_program_address(
        &[b"stablecoin", &mint.bytes],
        &program,
    );
    assert_eq!(config_pda.bytes, direct.to_bytes());
    assert_eq!(config_bump, direct_bump);

    let holder = addr(0x52);
    let (role_pda, role_bump) = find_role_pda(&config_pda, &holder, &core).unwrap();
    let (direct, direct_bump) = solana_pubkey::Pubkey::find_program_address(
        &[b"role", &config_pda.bytes, &holder.bytes],
        &program,
    );
    assert_eq!(role_pda.bytes, direct.to_bytes());
    assert_eq!(role_bump, direct_bump);

    let wallet = addr(0x53);
    let (bl_pda, _) = find_blacklist_pda(&config_pda, &wallet, &core).unwrap();
    let (direct, _) = solana_pubkey::Pubkey::find_program_address(
        &[b"blacklist", &config_pda.bytes, &wallet.bytes],
        &program,
    );
    assert_eq!(bl_pda.bytes, direct.to_bytes());
}

#[test]
fn mint_instruction_lays_out_accounts_and_data() {
    let core = stablecoin_core_id();
    let mint = addr(0x51);
    let minter = addr(0x52);
    let recipient = addr(0x53);
    let recipient_ata = addr(0x54);
    let ix = build_mint_instruction(MintParams {
        minter,
        mint,
        recipient,
        recipient_ata,
        amount: 1_500_000,
    })
    .unwrap();

    assert_eq!(ix.program_id, core);
    let mut expected_data = anchor_discriminator("mint");
    expected_data.extend_from_slice(&1_500_000u64.to_le_bytes());
    assert_eq!(ix.data, expected_data);

    let (config_pda, _) = find_config_pda(&mint, &core).unwrap();
    let (role_pda, _) = find_role_pda(&config_pda, &minter, &core).unwrap();
    assert_eq!(ix.accounts.len(), 9);
    assert_eq!(ix.accounts[0].pubkey, minter);
    assert!(ix.accounts[0].is_signer && ix.accounts[0].is_writable);
    assert_eq!(ix.accounts[1].pubkey, config_pda);
    assert!(!ix.accounts[1].is_signer && ix.accounts[1].is_writable);
    assert_eq!(ix.accounts[2].pubkey, role_pda);
    assert_eq!(ix.accounts[3].pubkey, mint);
    assert!(!ix.accounts[3].is_writable);
    assert_eq!(ix.accounts[4].pubkey, recipient);
    assert_eq!(ix.accounts[5].pubkey, recipient_ata);
    assert!(ix.accounts[5].is_writable);
    assert_eq!(ix.accounts[6].pubkey, token_program_id());
}

#[test]
fn burn_and_pause_instructions_carry_their_tags() {
    let ix = build_burn_instruction(BurnParams {
        burner: addr(0x52),
        mint: addr(0x51),
        burner_ata: addr(0x54),
        amount: 7,
    })
    .unwrap();
    let mut expected = anchor_discriminator("burn");
    expected.extend_from_slice(&7u64.to_le_bytes());
    assert_eq!(ix.data, expected);
    assert_eq!(ix.accounts.len(), 6);

    let pause = build_pause_instruction(PauseParams {
        pauser: addr(0x52),
        config_pda: addr(0x55),
        unpause: false,
    })
    .unwrap();
    assert_eq!(pause.data, anchor_discriminator("pause"));
    assert_eq!(pause.accounts.len(), 3);
    let unpause = build_pause_instruction(PauseParams {
        pauser: addr(0x52),
        config_pda: addr(0x55),
        unpause: true,
    })
    .unwrap();
    assert_eq!(unpause.data, anchor_discriminator("unpause"));
}

#[test]
fn update_roles_instruction_encodes_its_arguments() {
    let ix = build_update_roles_instruction(UpdateRolesParams {
        authority: addr(0x52),
        config_pda: addr(0x55),
        target: addr(0x56),
        roles: ROLE_MINTER | ROLE_FREEZER,
        mint_quota: Some(1_000_000),
    })
    .unwrap();
    let mut expected = anchor_discriminator("update_roles");
    expected.extend_from_slice(&[0x56; 32]);
    expected.push(ROLE_MINTER | ROLE_FREEZER);
    expected.push(1);
    expected.extend_from_slice(&1_000_000u64.to_le_bytes());
    assert_eq!(ix.data, expected);

    let no_quota = build_update_roles_instruction(UpdateRolesParams {
        authority: addr(0x52),
        config_pda: addr(0x55),
        target: addr(0x56),
        roles: ROLE_FREEZER,
        mint_quota: None,
    })
    .unwrap();
    assert_eq!(*no_quota.data.last().unwrap(), 0);
}

#[test]
fn initialize_instruction_requires_hook_accounts() {
    let base = InitializeParams {
        authority: addr(0x52),
        mint: addr(0x51),
        name: b"Test Dollar".to_vec(),
        symbol: b"TUSD".to_vec(),
        uri: Vec::new(),
        decimals: 6,
        enable_permanent_delegate: true,
        enable_transfer_hook: true,
        default_account_frozen: false,
        transfer_hook_program: Some(addr(0x50)),
        config_pda: addr(0x55),
        role_pda: addr(0x57),
        extra_metas: Some(addr(0x58)),
    };
    let ix = build_initialize_instruction(base).unwrap();
    // authority, mint, config, role, extra metas, hook program, token,
    // system, rent.
    assert_eq!(ix.accounts.len(), 9);
    assert_eq!(&ix.data[0..8], &anchor_discriminator("initialize")[..]);

    let missing_metas = InitializeParams {
        authority: addr(0x52),
        mint: addr(0x51),
        name: Vec::new(),
        symbol: Vec::new(),
        uri: Vec::new(),
        decimals: 6,
        enable_permanent_delegate: true,
        enable_transfer_hook: true,
        default_account_frozen: false,
        transfer_hook_program: Some(addr(0x50)),
        config_pda: addr(0x55),
        role_pda: addr(0x57),
        extra_metas: None,
    };
    assert!(build_initialize_instruction(missing_metas).is_err());

    let plain = InitializeParams {
        authority: addr(0x52),
        mint: addr(0x51),
        name: Vec::new(),
        symbol: Vec::new(),
        uri: Vec::new(),
        decimals: 6,
        enable_permanent_delegate: false,
        enable_transfer_hook: false,
        default_account_frozen: false,
        transfer_hook_program: None,
        config_pda: addr(0x55),
        role_pda: addr(0x57),
        extra_metas: None,
    };
    let ix = build_initialize_instruction(plain).unwrap();
    assert_eq!(ix.accounts.len(), 7);
}

#[test]
fn resolves_known_clusters_and_endpoints() {
    let devnet = resolve_cluster("devnet").unwrap();
    assert_eq!(devnet.url, "https://api.devnet.solana.com");
    assert_eq!(devnet.label.as_deref(), Some("devnet"));

    // Matching is case-insensitive, and both mainnet spellings work.
    let mainnet = resolve_cluster("MAINNET").unwrap();
    assert_eq!(mainnet.label.as_deref(), Some("mainnet-beta"));
    let beta = resolve_cluster("mainnet-beta").unwrap();
    assert_eq!(beta.url, "https://api.mainnet-beta.solana.com");

    let local = resolve_cluster("localnet").unwrap();
    assert_eq!(local.url, "http://127.0.0.1:8899");

    // A raw endpoint keeps its address and is labelled by the network its
    // lowercase form mentions.
    let custom = resolve_cluster("https://rpc.Devnet.example.org").unwrap();
    assert_eq!(custom.url, "https://rpc.Devnet.example.org");
    assert_eq!(custom.label.as_deref(), Some("devnet"));
    let unlabelled = resolve_cluster("http://rpc.example.org").unwrap();
    assert_eq!(unlabelled.label, None);

    assert!(resolve_cluster("bogus").is_none());
}

#[test]
fn explorer_links_carry_the_label() {
    let cluster = ClusterInfo {
        url: String::from("https://api.devnet.solana.com"),
        label: Some(String::from("devnet")),
    };
    assert_eq!(
        explorer_url("SIG", &cluster).unwrap(),
        "https://explorer.solana.com/tx/SIG?cluster=devnet"
    );
    let unlabelled = ClusterInfo { url: String::from("http://x"), label: None };
    assert!(explorer_url("SIG", &unlabelled).is_none());
}

#[test]
fn commitment_words_fall_back_to_confirmed() {
    assert_eq!(parse_commitment(Some("processed")), Commitment::Processed);
    assert_eq!(parse_commitment(Some("finalized")), Commitment::Finalized);
    assert_eq!(parse_commitment(Some("confirmed")), Commitment::Confirmed);
    assert_eq!(parse_commitment(Some("anything")), Commitment::Confirmed);
    assert_eq!(parse_commitment(None), Commitment::Confirmed);
}

#[test]
fn presets_pair_the_compliance_features() {
    let compliance = ExtensionsConfig::from_preset(true);
    assert_eq!(compliance.permanent_delegate, Some(true));
    assert_eq!(compliance.transfer_hook, Some(true));
    assert_eq!(compliance.default_account_frozen, Some(false));
    assert_eq!(compliance.confidential_transfer, Some(false));
    let plain = ExtensionsConfig::from_preset(false);
    assert_eq!(plain.permanent_delegate, Some(false));
    assert_eq!(plain.transfer_hook, Some(false));
}

#[test]
fn role_assignments_union_grants_without_losing_any() {
    let alice = addr(0x61);
    let bob = addr(0x62);
    let carol = addr(0x63);
    let config = RolesConfig {
        minters: vec![
            MinterConfig { pubkey: alice, quota: 5 },
            MinterConfig { pubkey: alice, quota: 9 },
        ],
        freezers: vec![bob, alice],
        pausers: vec![bob],
        blacklisters: vec![carol],
        seizers: Vec::new(),
        burners: vec![carol],
    };
    let assignments = build_role_assignments(&config);
    assert_eq!(assignments.len(), 3);

    let of = |a: Address| {
        assignments
            .iter()
            .find(|(key, _)| *key == a)
            .map(|(_, asg)| *asg)
            .unwrap()
    };
    let alice_asg = of(alice);
    assert_eq!(alice_asg.roles, ROLE_MINTER | ROLE_FREEZER);
    // The later minter entry's quota wins.
    assert_eq!(alice_asg.mint_quota, Some(9));
    let bob_asg = of(bob);
    assert_eq!(bob_asg.roles, ROLE_FREEZER | ROLE_PAUSER);
    assert_eq!(bob_asg.mint_quota, None);
    let carol_asg = of(carol);
    assert_eq!(carol_asg.roles, ROLE_BLACKLISTER | ROLE_BURNER);
}
