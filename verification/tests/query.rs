use stablecoin::addr::Address;
use stablecoin::constants::{
    ROLE_BLACKLISTER, ROLE_BURNER, ROLE_MASTER_AUTHORITY, ROLE_MINTER,
};
use stablecoin::query::{count_active_blacklist, count_role, minter_list, rank_holders,
    HolderBalance};
use stablecoin::state::{BlacklistEntry, RoleAccount};

fn addr(tag: u8) -> Address {
    Address { bytes: [tag; 32] }
}

fn holder(tag: u8, amount: u64) -> HolderBalance {
    HolderBalance { owner: addr(tag), token_account: addr(tag), amount }
}

fn role(holder: Address, roles: u8, quota: Option<u64>) -> RoleAccount {
    RoleAccount {
        config: addr(10),
        authority: holder,
        roles,
        mint_quota: quota,
        minted_current_window: 0,
        window_start: 0,
        bump: 255,
    }
}

#[test]
fn holders_rank_by_balance_with_threshold() {
    let holders = vec![holder(1, 5), holder(2, 500), holder(3, 50), holder(4, 5_000)];
    let ranked = rank_holders(holders.clone(), None);
    let amounts: Vec<u64> = ranked.iter().map(|h| h.amount).collect();
    assert_eq!(amounts, vec![5_000, 500, 50, 5]);

    let above = rank_holders(holders, Some(50));
    let amounts: Vec<u64> = above.iter().map(|h| h.amount).collect();
    assert_eq!(amounts, vec![5_000, 500, 50]);
    assert_eq!(above[0].owner, addr(4));

    let none: Vec<HolderBalance> = Vec::new();
    assert!(rank_holders(none, Some(1)).is_empty());
}

#[test]
fn role_counts_follow_the_bits() {
    let entries = vec![
        role(addr(1), ROLE_MASTER_AUTHORITY, None),
        role(addr(2), ROLE_MINTER | ROLE_BURNER, Some(9)),
        role(addr(3), ROLE_MINTER, None),
        role(addr(4), ROLE_BLACKLISTER, None),
    ];
    assert_eq!(count_role(&entries, ROLE_MINTER), 2);
    assert_eq!(count_role(&entries, ROLE_MASTER_AUTHORITY), 1);
    assert_eq!(count_role(&entries, ROLE_BURNER), 1);
    assert_eq!(count_role(&entries, ROLE_MASTER_AUTHORITY | ROLE_MINTER), 3);

    let minters = minter_list(&entries);
    assert_eq!(minters.len(), 2);
    assert_eq!(minters[0].0, addr(2));
    assert_eq!(minters[0].1, Some(9));
    assert_eq!(minters[1].0, addr(3));
    assert_eq!(minters[1].1, None);
}

#[test]
fn active_blacklist_entries_are_counted() {
    let entry = |active: bool| BlacklistEntry {
        config: addr(10),
        wallet: addr(8),
        blacklisted_at: 0,
        blacklisted_by: addr(7),
        reason: Vec::new(),
        is_active: active,
        bump: 0,
    };
    let entries = vec![entry(true), entry(false), entry(true)];
    assert_eq!(count_active_blacklist(&entries), 2);
    assert_eq!(count_active_blacklist(&Vec::new()), 0);
}
