use vstd::prelude::*;

use crate::addr::Address;
use crate::digest::{account_discriminator, spec_record_tag};
use crate::state::{
    BlacklistEntry, BlacklistEntryV, ConfigV, FeatureFlags, RoleAccount, RoleAccountV,
    StablecoinConfig,
};

verus! {

broadcast use vstd::array::group_array_axioms;

// Every record and argument of this module crosses the wire in one fixed,
// ordered binary layout: little-endian integers, booleans as one strict
// 0-or-1 byte, byte strings behind a four-byte length, options behind a
// one-byte tag, each record behind its eight-byte record tag.  The readers
// here return the value and the position after it, or nothing when the
// bytes do not carry the layout.

/// Read one byte.
pub open spec fn spec_read_u8(bytes: Seq<u8>, i: int) -> Option<(u8, int)> {
    if 0 <= i && i + 1 <= bytes.len() {
        Some((bytes[i], i + 1))
    } else {
        None
    }
}

pub fn read_u8(bytes: &Vec<u8>, i: usize) -> (r: Option<(u8, usize)>)
    ensures
        match r {
            Some(p) => spec_read_u8(bytes@, i as int) == Some((p.0, p.1 as int)),
            None => spec_read_u8(bytes@, i as int) is None,
        },
{
    if i < bytes.len() {
        Some((bytes[i], i + 1))
    } else {
        None
    }
}

/// Read one strict boolean byte: zero or one, nothing else.
pub open spec fn spec_read_bool(bytes: Seq<u8>, i: int) -> Option<(bool, int)> {
    match spec_read_u8(bytes, i) {
        Some(p) => if p.0 == 0 {
            Some((false, p.1))
        } else if p.0 == 1 {
            Some((true, p.1))
        } else {
            None
        },
        None => None,
    }
}

pub fn read_bool(bytes: &Vec<u8>, i: usize) -> (r: Option<(bool, usize)>)
    ensures
        match r {
            Some(p) => spec_read_bool(bytes@, i as int) == Some((p.0, p.1 as int)),
            None => spec_read_bool(bytes@, i as int) is None,
        },
{
    match read_u8(bytes, i) {
        Some(p) => {
            if p.0 == 0 {
                Some((false, p.1))
            } else if p.0 == 1 {
                Some((true, p.1))
            } else {
                None
            }
        },
        None => None,
    }
}

/// Read a four-byte little-endian unsigned integer.
pub open spec fn spec_read_u32(bytes: Seq<u8>, i: int) -> Option<(u32, int)> {
    if 0 <= i && i + 4 <= bytes.len() {
        Some(
            (
                ((bytes[i] as int) + (bytes[i + 1] as int) * 0x100 + (bytes[i + 2] as int)
                    * 0x10000 + (bytes[i + 3] as int) * 0x1000000) as u32,
                i + 4,
            ),
        )
    } else {
        None
    }
}

pub fn read_u32(bytes: &Vec<u8>, i: usize) -> (r: Option<(u32, usize)>)
    ensures
        match r {
            Some(p) => spec_read_u32(bytes@, i as int) == Some((p.0, p.1 as int)),
            None => spec_read_u32(bytes@, i as int) is None,
        },
{
    if bytes.len() >= 4 && i <= bytes.len() - 4 {
        let value = (bytes[i] as u32) + (bytes[i + 1] as u32) * 0x100 + (bytes[i + 2] as u32)
            * 0x10000 + (bytes[i + 3] as u32) * 0x1000000;
        Some((value, i + 4))
    } else {
        None
    }
}

/// Read an eight-byte little-endian unsigned integer.
pub open spec fn spec_read_u64(bytes: Seq<u8>, i: int) -> Option<(u64, int)> {
    if 0 <= i && i + 8 <= bytes.len() {
        Some(
            (
                ((bytes[i] as int) + (bytes[i + 1] as int) * 0x100 + (bytes[i + 2] as int)
                    * 0x10000 + (bytes[i + 3] as int) * 0x1000000 + (bytes[i + 4] as int)
                    * 0x100000000 + (bytes[i + 5] as int) * 0x10000000000 + (bytes[i + 6] as int)
                    * 0x1000000000000 + (bytes[i + 7] as int) * 0x100000000000000) as u64,
                i + 8,
            ),
        )
    } else {
        None
    }
}

pub fn read_u64(bytes: &Vec<u8>, i: usize) -> (r: Option<(u64, usize)>)
    ensures
        match r {
            Some(p) => spec_read_u64(bytes@, i as int) == Some((p.0, p.1 as int)),
            None => spec_read_u64(bytes@, i as int) is None,
        },
{
    if bytes.len() >= 8 && i <= bytes.len() - 8 {
        let value = (bytes[i] as u64) + (bytes[i + 1] as u64) * 0x100 + (bytes[i + 2] as u64)
            * 0x10000 + (bytes[i + 3] as u64) * 0x1000000 + (bytes[i + 4] as u64) * 0x100000000 + (
        bytes[i + 5] as u64) * 0x10000000000 + (bytes[i + 6] as u64) * 0x1000000000000 + (bytes[i
            + 7] as u64) * 0x100000000000000;
        Some((value, i + 8))
    } else {
        None
    }
}

/// The signed value that an eight-byte little-endian word carries in
/// two's complement.
pub open spec fn spec_signed_of(word: u64) -> i64 {
    if word <= i64::MAX {
        word as i64
    } else {
        (word - 0x1_0000_0000_0000_0000) as i64
    }
}

/// The eight-byte word that carries a signed value in two's complement.
pub open spec fn spec_word_of(value: i64) -> u64 {
    if value >= 0 {
        value as u64
    } else {
        (value + 0x1_0000_0000_0000_0000) as u64
    }
}

/// Read an eight-byte little-endian two's-complement signed integer.
pub open spec fn spec_read_i64(bytes: Seq<u8>, i: int) -> Option<(i64, int)> {
    match spec_read_u64(bytes, i) {
        Some(p) => Some((spec_signed_of(p.0), p.1)),
        None => None,
    }
}

pub fn read_i64(bytes: &Vec<u8>, i: usize) -> (r: Option<(i64, usize)>)
    ensures
        match r {
            Some(p) => spec_read_i64(bytes@, i as int) == Some((p.0, p.1 as int)),
            None => spec_read_i64(bytes@, i as int) is None,
        },
{
    match read_u64(bytes, i) {
        Some(p) => {
            let value: i64 = if p.0 <= i64::MAX as u64 {
                p.0 as i64
            } else {
                -((u64::MAX - p.0) as i64) - 1
            };
            Some((value, p.1))
        },
        None => None,
    }
}

/// Read a 32-byte identifier.
pub open spec fn spec_read_address(bytes: Seq<u8>, i: int) -> Option<(Seq<u8>, int)> {
    if 0 <= i && i + 32 <= bytes.len() {
        Some((bytes.subrange(i, i + 32), i + 32))
    } else {
        None
    }
}

pub fn read_address(bytes: &Vec<u8>, i: usize) -> (r: Option<(Address, usize)>)
    ensures
        match r {
            Some(p) => spec_read_address(bytes@, i as int) == Some((p.0@, p.1 as int)),
            None => spec_read_address(bytes@, i as int) is None,
        },
{
    if bytes.len() >= 32 && i <= bytes.len() - 32 {
        let mut raw: [u8; 32] = [0u8; 32];
        let mut k: usize = 0;
        while k < 32
            invariant
                k <= 32,
                i + 32 <= bytes@.len() <= usize::MAX,
                forall|j: int| 0 <= j < k ==> raw@[j] == bytes@[i + j],
            decreases 32 - k,
        {
            raw[k] = bytes[i + k];
            k = k + 1;
        }
        let address = Address { bytes: raw };
        proof {
            assert(address@ =~= bytes@.subrange(i as int, i + 32));
        }
        Some((address, i + 32))
    } else {
        None
    }
}

/// Read a byte string behind its four-byte length.
pub open spec fn spec_read_bytes(bytes: Seq<u8>, i: int) -> Option<(Seq<u8>, int)> {
    match spec_read_u32(bytes, i) {
        Some(p) => if p.1 + p.0 <= bytes.len() {
            Some((bytes.subrange(p.1, p.1 + p.0), p.1 + p.0))
        } else {
            None
        },
        None => None,
    }
}

pub fn read_bytes(bytes: &Vec<u8>, i: usize) -> (r: Option<(Vec<u8>, usize)>)
    ensures
        match r {
            Some(p) => spec_read_bytes(bytes@, i as int) == Some((p.0@, p.1 as int)),
            None => spec_read_bytes(bytes@, i as int) is None,
        },
{
    match read_u32(bytes, i) {
        Some(p) => {
            let n = p.0 as usize;
            if n <= bytes.len() && p.1 <= bytes.len() - n {
                let mut out: Vec<u8> = Vec::new();
                let mut k: usize = 0;
                while k < n
                    invariant
                        k <= n,
                        p.1 + n <= bytes@.len() <= usize::MAX,
                        out@ =~= bytes@.subrange(p.1 as int, p.1 + k),
                    decreases n - k,
                {
                    out.push(bytes[p.1 + k]);
                    k = k + 1;
                }
                proof {
                    assert(out@ =~= bytes@.subrange(p.1 as int, p.1 + n));
                }
                Some((out, p.1 + n))
            } else {
                None
            }
        },
        None => None,
    }
}

/// Read an optional 32-byte identifier behind its one-byte tag.
pub open spec fn spec_read_option_address(bytes: Seq<u8>, i: int) -> Option<
    (Option<Seq<u8>>, int),
> {
    match spec_read_u8(bytes, i) {
        Some(p) => if p.0 == 0 {
            Some((None, p.1))
        } else if p.0 == 1 {
            match spec_read_address(bytes, p.1) {
                Some(q) => Some((Some(q.0), q.1)),
                None => None,
            }
        } else {
            None
        },
        None => None,
    }
}

pub fn read_option_address(bytes: &Vec<u8>, i: usize) -> (r: Option<(Option<Address>, usize)>)
    ensures
        match r {
            Some(p) => spec_read_option_address(bytes@, i as int) == Some(
                (
                    match p.0 {
                        Some(a) => Some(a@),
                        None => None,
                    },
                    p.1 as int,
                ),
            ),
            None => spec_read_option_address(bytes@, i as int) is None,
        },
{
    match read_u8(bytes, i) {
        Some(p) => {
            if p.0 == 0 {
                Some((None, p.1))
            } else if p.0 == 1 {
                match read_address(bytes, p.1) {
                    Some(q) => Some((Some(q.0), q.1)),
                    None => None,
                }
            } else {
                None
            }
        },
        None => None,
    }
}

/// Read an optional eight-byte unsigned integer behind its one-byte tag.
pub open spec fn spec_read_option_u64(bytes: Seq<u8>, i: int) -> Option<(Option<u64>, int)> {
    match spec_read_u8(bytes, i) {
        Some(p) => if p.0 == 0 {
            Some((None, p.1))
        } else if p.0 == 1 {
            match spec_read_u64(bytes, p.1) {
                Some(q) => Some((Some(q.0), q.1)),
                None => None,
            }
        } else {
            None
        },
        None => None,
    }
}

pub fn read_option_u64(bytes: &Vec<u8>, i: usize) -> (r: Option<(Option<u64>, usize)>)
    ensures
        match r {
            Some(p) => spec_read_option_u64(bytes@, i as int) == Some((p.0, p.1 as int)),
            None => spec_read_option_u64(bytes@, i as int) is None,
        },
{
    match read_u8(bytes, i) {
        Some(p) => {
            if p.0 == 0 {
                Some((None, p.1))
            } else if p.0 == 1 {
                match read_u64(bytes, p.1) {
                    Some(q) => Some((Some(q.0), q.1)),
                    None => None,
                }
            } else {
                None
            }
        },
        None => None,
    }
}

/// Read the four feature flags.
pub open spec fn spec_read_features(bytes: Seq<u8>, i: int) -> Option<(FeatureFlags, int)> {
    match spec_read_bool(bytes, i) {
        Some(pd) => match spec_read_bool(bytes, pd.1) {
            Some(th) => match spec_read_bool(bytes, th.1) {
                Some(conf) => match spec_read_bool(bytes, conf.1) {
                    Some(df) => Some(
                        (
                            FeatureFlags {
                                permanent_delegate: pd.0,
                                transfer_hook: th.0,
                                confidential: conf.0,
                                default_frozen: df.0,
                            },
                            df.1,
                        ),
                    ),
                    None => None,
                },
                None => None,
            },
            None => None,
        },
        None => None,
    }
}

pub fn read_features(bytes: &Vec<u8>, i: usize) -> (r: Option<(FeatureFlags, usize)>)
    ensures
        match r {
            Some(p) => spec_read_features(bytes@, i as int) == Some((p.0, p.1 as int)),
            None => spec_read_features(bytes@, i as int) is None,
        },
{
    let pd = match read_bool(bytes, i) {
        Some(p) => p,
        None => {
            return None;
        },
    };
    let th = match read_bool(bytes, pd.1) {
        Some(p) => p,
        None => {
            return None;
        },
    };
    let conf = match read_bool(bytes, th.1) {
        Some(p) => p,
        None => {
            return None;
        },
    };
    let df = match read_bool(bytes, conf.1) {
        Some(p) => p,
        None => {
            return None;
        },
    };
    Some(
        (
            FeatureFlags {
                permanent_delegate: pd.0,
                transfer_hook: th.0,
                confidential: conf.0,
                default_frozen: df.0,
            },
            df.1,
        ),
    )
}

/// The bytes open with this record tag.
pub open spec fn spec_has_tag(bytes: Seq<u8>, name: &str) -> bool {
    bytes.len() >= 8 && bytes.take(8) == spec_record_tag(name)
}

/// Whether the bytes open with the given eight-byte tag.
fn has_tag(bytes: &Vec<u8>, tag: &Vec<u8>) -> (b: bool)
    requires
        tag@.len() == 8,
    ensures
        b == (bytes@.len() >= 8 && bytes@.take(8) == tag@),
{
    if bytes.len() < 8 {
        return false;
    }
    let mut k: usize = 0;
    while k < 8
        invariant
            k <= 8,
            bytes@.len() >= 8,
            tag@.len() == 8,
            forall|j: int| 0 <= j < k ==> bytes@[j] == tag@[j],
        decreases 8 - k,
    {
        if bytes[k] != tag[k] {
            proof {
                assert(bytes@.take(8)[k as int] != tag@[k as int]);
            }
            return false;
        }
        k = k + 1;
    }
    proof {
        assert(bytes@.take(8) =~= tag@);
    }
    true
}

/// The configuration record that these bytes carry behind its tag, if they
/// carry one; bytes beyond the record are ignored, as stored records sit in
/// zero-padded space.
pub open spec fn spec_parse_config(bytes: Seq<u8>) -> Option<ConfigV> {
    if !spec_has_tag(bytes, "StablecoinConfig") {
        None
    } else {
        match spec_read_address(bytes, 8) {
            Some(authority) => match spec_read_address(bytes, authority.1) {
                Some(mint) => match spec_read_bytes(bytes, mint.1) {
                    Some(name) => match spec_read_bytes(bytes, name.1) {
                        Some(symbol) => match spec_read_bytes(bytes, symbol.1) {
                            Some(uri) => match spec_read_u8(bytes, uri.1) {
                                Some(decimals) => match spec_read_bool(bytes, decimals.1) {
                                    Some(is_paused) => match spec_read_u64(bytes, is_paused.1) {
                                        Some(total_minted) => match spec_read_u64(
                                            bytes,
                                            total_minted.1,
                                        ) {
                                            Some(total_burned) => match spec_read_u64(
                                                bytes,
                                                total_burned.1,
                                            ) {
                                                Some(audit_counter) => match spec_read_features(
                                                    bytes,
                                                    audit_counter.1,
                                                ) {
                                                    Some(features) => match spec_read_option_address(
                                                        bytes,
                                                        features.1,
                                                    ) {
                                                        Some(hook) => match spec_read_u8(
                                                            bytes,
                                                            hook.1,
                                                        ) {
                                                            Some(bump) => Some(
                                                                ConfigV {
                                                                    authority: authority.0,
                                                                    mint: mint.0,
                                                                    name: name.0,
                                                                    symbol: symbol.0,
                                                                    uri: uri.0,
                                                                    decimals: decimals.0,
                                                                    is_paused: is_paused.0,
                                                                    total_minted: total_minted.0,
                                                                    total_burned: total_burned.0,
                                                                    audit_counter: audit_counter.0,
                                                                    features: features.0,
                                                                    transfer_hook_program: hook.0,
                                                                    bump: bump.0,
                                                                },
                                                            ),
                                                            None => None,
                                                        },
                                                        None => None,
                                                    },
                                                    None => None,
                                                },
                                                None => None,
                                            },
                                            None => None,
                                        },
                                        None => None,
                                    },
                                    None => None,
                                },
                                None => None,
                            },
                            None => None,
                        },
                        None => None,
                    },
                    None => None,
                },
                None => None,
            },
            None => None,
        }
    }
}

/// Decode a stored configuration record.
pub fn parse_config(bytes: &Vec<u8>) -> (r: Option<StablecoinConfig>)
    ensures
        match r {
            Some(c) => spec_parse_config(bytes@) == Some(c@),
            None => spec_parse_config(bytes@) is None,
        },
{
    let tag = account_discriminator("StablecoinConfig");
    if !has_tag(bytes, &tag) {
        return None;
    }
    let authority = match read_address(bytes, 8) {
        Some(p) => p,
        None => {
            return None;
        },
    };
    let mint = match read_address(bytes, authority.1) {
        Some(p) => p,
        None => {
            return None;
        },
    };
    let name = match read_bytes(bytes, mint.1) {
        Some(p) => p,
        None => {
            return None;
        },
    };
    let symbol = match read_bytes(bytes, name.1) {
        Some(p) => p,
        None => {
            return None;
        },
    };
    let uri = match read_bytes(bytes, symbol.1) {
        Some(p) => p,
        None => {
            return None;
        },
    };
    let decimals = match read_u8(bytes, uri.1) {
        Some(p) => p,
        None => {
            return None;
        },
    };
    let is_paused = match read_bool(bytes, decimals.1) {
        Some(p) => p,
        None => {
            return None;
        },
    };
    let total_minted = match read_u64(bytes, is_paused.1) {
        Some(p) => p,
        None => {
            return None;
        },
    };
    let total_burned = match read_u64(bytes, total_minted.1) {
        Some(p) => p,
        None => {
            return None;
        },
    };
    let audit_counter = match read_u64(bytes, total_burned.1) {
        Some(p) => p,
        None => {
            return None;
        },
    };
    let features = match read_features(bytes, audit_counter.1) {
        Some(p) => p,
        None => {
            return None;
        },
    };
    let hook = match read_option_address(bytes, features.1) {
        Some(p) => p,
        None => {
            return None;
        },
    };
    let bump = match read_u8(bytes, hook.1) {
        Some(p) => p,
        None => {
            return None;
        },
    };
    Some(
        StablecoinConfig {
            authority: authority.0,
            mint: mint.0,
            name: name.0,
            symbol: symbol.0,
            uri: uri.0,
            decimals: decimals.0,
            is_paused: is_paused.0,
            total_minted: total_minted.0,
            total_burned: total_burned.0,
            audit_counter: audit_counter.0,
            features: features.0,
            transfer_hook_program: hook.0,
            bump: bump.0,
        },
    )
}

/// The role record that these bytes carry behind its tag, if they carry
/// one.
pub open spec fn spec_parse_role_account(bytes: Seq<u8>) -> Option<RoleAccountV> {
    if !spec_has_tag(bytes, "RoleAccount") {
        None
    } else {
        match spec_read_address(bytes, 8) {
            Some(config) => match spec_read_address(bytes, config.1) {
                Some(authority) => match spec_read_u8(bytes, authority.1) {
                    Some(roles) => match spec_read_option_u64(bytes, roles.1) {
                        Some(mint_quota) => match spec_read_u64(bytes, mint_quota.1) {
                            Some(minted) => match spec_read_i64(bytes, minted.1) {
                                Some(window_start) => match spec_read_u8(bytes, window_start.1) {
                                    Some(bump) => Some(
                                        RoleAccountV {
                                            config: config.0,
                                            authority: authority.0,
                                            roles: roles.0,
                                            mint_quota: mint_quota.0,
                                            minted_current_window: minted.0,
                                            window_start: window_start.0,
                                            bump: bump.0,
                                        },
                                    ),
                                    None => None,
                                },
                                None => None,
                            },
                            None => None,
                        },
                        None => None,
                    },
                    None => None,
                },
                None => None,
            },
            None => None,
        }
    }
}

/// Decode a stored role record.
pub fn parse_role_account(bytes: &Vec<u8>) -> (r: Option<RoleAccount>)
    ensures
        match r {
            Some(a) => spec_parse_role_account(bytes@) == Some(a@),
            None => spec_parse_role_account(bytes@) is None,
        },
{
    let tag = account_discriminator("RoleAccount");
    if !has_tag(bytes, &tag) {
        return None;
    }
    let config = match read_address(bytes, 8) {
        Some(p) => p,
        None => {
            return None;
        },
    };
    let authority = match read_address(bytes, config.1) {
        Some(p) => p,
        None => {
            return None;
        },
    };
    let roles = match read_u8(bytes, authority.1) {
        Some(p) => p,
        None => {
            return None;
        },
    };
    let mint_quota = match read_option_u64(bytes, roles.1) {
        Some(p) => p,
        None => {
            return None;
        },
    };
    let minted = match read_u64(bytes, mint_quota.1) {
        Some(p) => p,
        None => {
            return None;
        },
    };
    let window_start = match read_i64(bytes, minted.1) {
        Some(p) => p,
        None => {
            return None;
        },
    };
    let bump = match read_u8(bytes, window_start.1) {
        Some(p) => p,
        None => {
            return None;
        },
    };
    Some(
        RoleAccount {
            config: config.0,
            authority: authority.0,
            roles: roles.0,
            mint_quota: mint_quota.0,
            minted_current_window: minted.0,
            window_start: window_start.0,
            bump: bump.0,
        },
    )
}

/// The blacklist entry that these bytes carry behind its tag, if they
/// carry one.
pub open spec fn spec_parse_blacklist_entry(bytes: Seq<u8>) -> Option<BlacklistEntryV> {
    if !spec_has_tag(bytes, "BlacklistEntry") {
        None
    } else {
        match spec_read_address(bytes, 8) {
            Some(config) => match spec_read_address(bytes, config.1) {
                Some(wallet) => match spec_read_i64(bytes, wallet.1) {
                    Some(at) => match spec_read_address(bytes, at.1) {
                        Some(by) => match spec_read_bytes(bytes, by.1) {
                            Some(reason) => match spec_read_bool(bytes, reason.1) {
                                Some(is_active) => match spec_read_u8(bytes, is_active.1) {
                                    Some(bump) => Some(
                                        BlacklistEntryV {
                                            config: config.0,
                                            wallet: wallet.0,
                                            blacklisted_at: at.0,
                                            blacklisted_by: by.0,
                                            reason: reason.0,
                                            is_active: is_active.0,
                                            bump: bump.0,
                                        },
                                    ),
                                    None => None,
                                },
                                None => None,
                            },
                            None => None,
                        },
                        None => None,
                    },
                    None => None,
                },
                None => None,
            },
            None => None,
        }
    }
}

/// Decode a stored blacklist entry.
pub fn parse_blacklist_entry(bytes: &Vec<u8>) -> (r: Option<BlacklistEntry>)
    ensures
        match r {
            Some(e) => spec_parse_blacklist_entry(bytes@) == Some(e@),
            None => spec_parse_blacklist_entry(bytes@) is None,
        },
{
    let tag = account_discriminator("BlacklistEntry");
    if !has_tag(bytes, &tag) {
        return None;
    }
    let config = match read_address(bytes, 8) {
        Some(p) => p,
        None => {
            return None;
        },
    };
    let wallet = match read_address(bytes, config.1) {
        Some(p) => p,
        None => {
            return None;
        },
    };
    let at = match read_i64(bytes, wallet.1) {
        Some(p) => p,
        None => {
            return None;
        },
    };
    let by = match read_address(bytes, at.1) {
        Some(p) => p,
        None => {
            return None;
        },
    };
    let reason = match read_bytes(bytes, by.1) {
        Some(p) => p,
        None => {
            return None;
        },
    };
    let is_active = match read_bool(bytes, reason.1) {
        Some(p) => p,
        None => {
            return None;
        },
    };
    let bump = match read_u8(bytes, is_active.1) {
        Some(p) => p,
        None => {
            return None;
        },
    };
    Some(
        BlacklistEntry {
            config: config.0,
            wallet: wallet.0,
            blacklisted_at: at.0,
            blacklisted_by: by.0,
            reason: reason.0,
            is_active: is_active.0,
            bump: bump.0,
        },
    )
}


// Writers: the exact inverse layouts of the readers above.

/// The four little-endian bytes of a 32-bit integer.
pub open spec fn spec_encode_u32(v: u32) -> Seq<u8> {
    seq![
        (v % 0x100) as u8,
        ((v / 0x100) % 0x100) as u8,
        ((v / 0x10000) % 0x100) as u8,
        ((v / 0x1000000) % 0x100) as u8,
    ]
}

pub fn append_u32(out: &mut Vec<u8>, v: u32)
    ensures
        final(out)@ == old(out)@ + spec_encode_u32(v),
{
    out.push((v % 0x100) as u8);
    out.push(((v / 0x100) % 0x100) as u8);
    out.push(((v / 0x10000) % 0x100) as u8);
    out.push(((v / 0x1000000) % 0x100) as u8);
    proof {
        assert(out@ =~= old(out)@ + spec_encode_u32(v));
    }
}

/// The eight little-endian bytes of a 64-bit integer.
pub open spec fn spec_encode_u64(v: u64) -> Seq<u8> {
    seq![
        (v % 0x100) as u8,
        ((v / 0x100) % 0x100) as u8,
        ((v / 0x10000) % 0x100) as u8,
        ((v / 0x1000000) % 0x100) as u8,
        ((v / 0x100000000) % 0x100) as u8,
        ((v / 0x10000000000) % 0x100) as u8,
        ((v / 0x1000000000000) % 0x100) as u8,
        ((v / 0x100000000000000) % 0x100) as u8,
    ]
}

pub fn append_u64(out: &mut Vec<u8>, v: u64)
    ensures
        final(out)@ == old(out)@ + spec_encode_u64(v),
{
    out.push((v % 0x100) as u8);
    out.push(((v / 0x100) % 0x100) as u8);
    out.push(((v / 0x10000) % 0x100) as u8);
    out.push(((v / 0x1000000) % 0x100) as u8);
    out.push(((v / 0x100000000) % 0x100) as u8);
    out.push(((v / 0x10000000000) % 0x100) as u8);
    out.push(((v / 0x1000000000000) % 0x100) as u8);
    out.push(((v / 0x100000000000000) % 0x100) as u8);
    proof {
        assert(out@ =~= old(out)@ + spec_encode_u64(v));
    }
}

/// The eight little-endian bytes of a signed integer, in two's
/// complement.
pub open spec fn spec_encode_i64(v: i64) -> Seq<u8> {
    spec_encode_u64(spec_word_of(v))
}

pub fn append_i64(out: &mut Vec<u8>, v: i64)
    ensures
        final(out)@ == old(out)@ + spec_encode_i64(v),
{
    let word: u64 = if v >= 0 {
        v as u64
    } else {
        u64::MAX - ((-(v + 1)) as u64)
    };
    proof {
        assert(word == spec_word_of(v));
    }
    append_u64(out, word);
}

/// One strict boolean byte.
pub open spec fn spec_encode_bool(v: bool) -> Seq<u8> {
    seq![if v { 1u8 } else { 0u8 }]
}

pub fn append_bool(out: &mut Vec<u8>, v: bool)
    ensures
        final(out)@ == old(out)@ + spec_encode_bool(v),
{
    out.push(if v { 1u8 } else { 0u8 });
    proof {
        assert(out@ =~= old(out)@ + spec_encode_bool(v));
    }
}

/// A 32-byte identifier, written raw.
pub fn append_address(out: &mut Vec<u8>, a: &Address)
    ensures
        final(out)@ == old(out)@ + a@,
{
    let mut k: usize = 0;
    while k < 32
        invariant
            k <= 32,
            out@ =~= old(out)@ + a@.take(k as int),
        decreases 32 - k,
    {
        out.push(a.bytes[k]);
        k = k + 1;
    }
    proof {
        assert(out@ =~= old(out)@ + a@);
    }
}

/// A byte string behind its four-byte length.
pub open spec fn spec_encode_bytes(s: Seq<u8>) -> Seq<u8>
    recommends
        s.len() <= u32::MAX,
{
    spec_encode_u32(s.len() as u32) + s
}

pub fn append_bytes(out: &mut Vec<u8>, s: &Vec<u8>)
    requires
        s@.len() <= u32::MAX,
    ensures
        final(out)@ == old(out)@ + spec_encode_bytes(s@),
{
    append_u32(out, s.len() as u32);
    let mut k: usize = 0;
    while k < s.len()
        invariant
            k <= s@.len(),
            out@ =~= old(out)@ + spec_encode_u32(s@.len() as u32) + s@.take(k as int),
        decreases s@.len() - k,
    {
        out.push(s[k]);
        k = k + 1;
    }
    proof {
        assert(out@ =~= old(out)@ + spec_encode_bytes(s@));
    }
}

/// An optional 32-byte identifier behind its one-byte tag.
pub open spec fn spec_encode_option_address(v: Option<Seq<u8>>) -> Seq<u8> {
    match v {
        None => seq![0u8],
        Some(a) => seq![1u8] + a,
    }
}

pub fn append_option_address(out: &mut Vec<u8>, v: &Option<Address>)
    ensures
        final(out)@ == old(out)@ + spec_encode_option_address(
            match v {
                Some(a) => Some(a@),
                None => None,
            },
        ),
{
    match v {
        None => {
            out.push(0u8);
            proof {
                assert(out@ =~= old(out)@ + spec_encode_option_address(None));
            }
        },
        Some(a) => {
            out.push(1u8);
            append_address(out, a);
            proof {
                assert(out@ =~= old(out)@ + spec_encode_option_address(Some(a@)));
            }
        },
    }
}

/// An optional eight-byte integer behind its one-byte tag.
pub open spec fn spec_encode_option_u64(v: Option<u64>) -> Seq<u8> {
    match v {
        None => seq![0u8],
        Some(n) => seq![1u8] + spec_encode_u64(n),
    }
}

pub fn append_option_u64(out: &mut Vec<u8>, v: &Option<u64>)
    ensures
        final(out)@ == old(out)@ + spec_encode_option_u64(*v),
{
    match v {
        None => {
            out.push(0u8);
            proof {
                assert(out@ =~= old(out)@ + spec_encode_option_u64(None));
            }
        },
        Some(n) => {
            out.push(1u8);
            append_u64(out, *n);
            proof {
                assert(out@ =~= old(out)@ + spec_encode_option_u64(Some(*n)));
            }
        },
    }
}


/// The stored form of a configuration record: its tag, then each field in
/// declaration order.
pub open spec fn spec_encode_config(c: ConfigV) -> Seq<u8> {
    spec_record_tag("StablecoinConfig") + c.authority + c.mint + spec_encode_bytes(c.name)
        + spec_encode_bytes(c.symbol) + spec_encode_bytes(c.uri) + seq![c.decimals]
        + spec_encode_bool(c.is_paused) + spec_encode_u64(c.total_minted) + spec_encode_u64(
        c.total_burned,
    ) + spec_encode_u64(c.audit_counter) + spec_encode_bool(c.features.permanent_delegate)
        + spec_encode_bool(c.features.transfer_hook) + spec_encode_bool(c.features.confidential)
        + spec_encode_bool(c.features.default_frozen) + spec_encode_option_address(
        c.transfer_hook_program,
    ) + seq![c.bump]
}

/// Encode a configuration record for storage.
#[verifier::rlimit(60)]
pub fn encode_config(c: &StablecoinConfig) -> (r: Vec<u8>)
    requires
        c.name@.len() <= u32::MAX,
        c.symbol@.len() <= u32::MAX,
        c.uri@.len() <= u32::MAX,
    ensures
        r@ == spec_encode_config(c@),
{
    let mut out = account_discriminator("StablecoinConfig");
    append_address(&mut out, &c.authority);
    append_address(&mut out, &c.mint);
    append_bytes(&mut out, &c.name);
    append_bytes(&mut out, &c.symbol);
    append_bytes(&mut out, &c.uri);
    out.push(c.decimals);
    append_bool(&mut out, c.is_paused);
    append_u64(&mut out, c.total_minted);
    append_u64(&mut out, c.total_burned);
    append_u64(&mut out, c.audit_counter);
    append_bool(&mut out, c.features.permanent_delegate);
    append_bool(&mut out, c.features.transfer_hook);
    append_bool(&mut out, c.features.confidential);
    append_bool(&mut out, c.features.default_frozen);
    append_option_address(&mut out, &c.transfer_hook_program);
    out.push(c.bump);
    proof {
        assert(out@ =~= spec_encode_config(c@));
    }
    out
}

/// The stored form of a role record.
pub open spec fn spec_encode_role_account(a: RoleAccountV) -> Seq<u8> {
    spec_record_tag("RoleAccount") + a.config + a.authority + seq![a.roles]
        + spec_encode_option_u64(a.mint_quota) + spec_encode_u64(a.minted_current_window)
        + spec_encode_i64(a.window_start) + seq![a.bump]
}

/// Encode a role record for storage.
pub fn encode_role_account(a: &RoleAccount) -> (r: Vec<u8>)
    ensures
        r@ == spec_encode_role_account(a@),
{
    let mut out = account_discriminator("RoleAccount");
    append_address(&mut out, &a.config);
    append_address(&mut out, &a.authority);
    out.push(a.roles);
    append_option_u64(&mut out, &a.mint_quota);
    append_u64(&mut out, a.minted_current_window);
    append_i64(&mut out, a.window_start);
    out.push(a.bump);
    proof {
        assert(out@ =~= spec_encode_role_account(a@));
    }
    out
}

/// The stored form of a blacklist entry.
pub open spec fn spec_encode_blacklist_entry(e: BlacklistEntryV) -> Seq<u8> {
    spec_record_tag("BlacklistEntry") + e.config + e.wallet + spec_encode_i64(e.blacklisted_at)
        + e.blacklisted_by + spec_encode_bytes(e.reason) + spec_encode_bool(e.is_active) + seq![
        e.bump,
    ]
}

/// Encode a blacklist entry for storage.
pub fn encode_blacklist_entry(e: &BlacklistEntry) -> (r: Vec<u8>)
    requires
        e.reason@.len() <= u32::MAX,
    ensures
        r@ == spec_encode_blacklist_entry(e@),
{
    let mut out = account_discriminator("BlacklistEntry");
    append_address(&mut out, &e.config);
    append_address(&mut out, &e.wallet);
    append_i64(&mut out, e.blacklisted_at);
    append_address(&mut out, &e.blacklisted_by);
    append_bytes(&mut out, &e.reason);
    append_bool(&mut out, e.is_active);
    out.push(e.bump);
    proof {
        assert(out@ =~= spec_encode_blacklist_entry(e@));
    }
    out
}

/// What the policy layer reads of a token ledger account: its mint, its
/// owner, its balance and its frozen state, at their fixed offsets.
#[derive(Clone, Copy, Debug)]
pub struct TokenAccountInfo {
    pub mint: Address,
    pub owner: Address,
    pub amount: u64,
    pub is_frozen: bool,
}

/// The ledger lays a token account out with the mint first, the owner at
/// 32, the balance at 64 and the state byte at 108, in at least 165
/// bytes; state 2 is frozen.
pub open spec fn spec_parse_token_account(bytes: Seq<u8>) -> Option<
    (Seq<u8>, Seq<u8>, u64, bool),
> {
    if bytes.len() < 165 {
        None
    } else {
        match spec_read_address(bytes, 0) {
            Some(mint) => match spec_read_address(bytes, 32) {
                Some(owner) => match spec_read_u64(bytes, 64) {
                    Some(amount) => Some((mint.0, owner.0, amount.0, bytes[108] == 2)),
                    None => None,
                },
                None => None,
            },
            None => None,
        }
    }
}

/// Decode the base fields of a token ledger account.
pub fn parse_token_account(bytes: &Vec<u8>) -> (r: Option<TokenAccountInfo>)
    ensures
        match r {
            Some(info) => spec_parse_token_account(bytes@) == Some(
                (info.mint@, info.owner@, info.amount, info.is_frozen),
            ),
            None => spec_parse_token_account(bytes@) is None,
        },
{
    if bytes.len() < 165 {
        return None;
    }
    let mint = match read_address(bytes, 0) {
        Some(p) => p.0,
        None => {
            return None;
        },
    };
    let owner = match read_address(bytes, 32) {
        Some(p) => p.0,
        None => {
            return None;
        },
    };
    let amount = match read_u64(bytes, 64) {
        Some(p) => p.0,
        None => {
            return None;
        },
    };
    let is_frozen = bytes[108] == 2;
    Some(TokenAccountInfo { mint, owner, amount, is_frozen })
}


// The readers invert the writers: each little-endian layout written above
// is read back as the value it came from, whatever follows it.

/// Reading four written bytes gives back the 32-bit value.
pub proof fn lemma_u32_round_trip(v: u32, rest: Seq<u8>)
    ensures
        spec_read_u32(spec_encode_u32(v) + rest, 0) == Some((v, 4int)),
{
    let s = spec_encode_u32(v) + rest;
    assert(s[0] == (v % 0x100) as u8);
    assert(s[1] == ((v / 0x100) % 0x100) as u8);
    assert(s[2] == ((v / 0x10000) % 0x100) as u8);
    assert(s[3] == ((v / 0x1000000) % 0x100) as u8);
    assert(v == (v % 0x100) + ((v / 0x100) % 0x100) * 0x100 + ((v / 0x10000) % 0x100) * 0x10000
        + ((v / 0x1000000) % 0x100) * 0x1000000) by (bit_vector);
}

/// Reading eight written bytes gives back the 64-bit value.
pub proof fn lemma_u64_round_trip(v: u64, rest: Seq<u8>)
    ensures
        spec_read_u64(spec_encode_u64(v) + rest, 0) == Some((v, 8int)),
{
    let s = spec_encode_u64(v) + rest;
    assert(s[0] == (v % 0x100) as u8);
    assert(s[1] == ((v / 0x100) % 0x100) as u8);
    assert(s[2] == ((v / 0x10000) % 0x100) as u8);
    assert(s[3] == ((v / 0x1000000) % 0x100) as u8);
    assert(s[4] == ((v / 0x100000000) % 0x100) as u8);
    assert(s[5] == ((v / 0x10000000000) % 0x100) as u8);
    assert(s[6] == ((v / 0x1000000000000) % 0x100) as u8);
    assert(s[7] == ((v / 0x100000000000000) % 0x100) as u8);
    assert(v == (v % 0x100) + ((v / 0x100) % 0x100) * 0x100 + ((v / 0x10000) % 0x100) * 0x10000
        + ((v / 0x1000000) % 0x100) * 0x1000000 + ((v / 0x100000000) % 0x100) * 0x100000000 + ((v
        / 0x10000000000) % 0x100) * 0x10000000000 + ((v / 0x1000000000000) % 0x100)
        * 0x1000000000000 + ((v / 0x100000000000000) % 0x100) * 0x100000000000000)
        by (bit_vector);
}

/// Reading a written signed word gives back the signed value.
pub proof fn lemma_i64_round_trip(v: i64, rest: Seq<u8>)
    ensures
        spec_read_i64(spec_encode_i64(v) + rest, 0) == Some((v, 8int)),
{
    lemma_u64_round_trip(spec_word_of(v), rest);
    assert(spec_signed_of(spec_word_of(v)) == v);
}

/// Reading a written strict boolean gives it back.
pub proof fn lemma_bool_round_trip(v: bool, rest: Seq<u8>)
    ensures
        spec_read_bool(spec_encode_bool(v) + rest, 0) == Some((v, 1int)),
{
}

/// Reading a written length-prefixed byte string gives it back.
pub proof fn lemma_bytes_round_trip(s: Seq<u8>, rest: Seq<u8>)
    requires
        s.len() <= u32::MAX,
    ensures
        spec_read_bytes(spec_encode_bytes(s) + rest, 0) == Some((s, s.len() as int + 4)),
{
    let whole = spec_encode_bytes(s) + rest;
    assert(spec_encode_u32(s.len() as u32) + (s + rest) =~= whole);
    lemma_u32_round_trip(s.len() as u32, s + rest);
    assert(whole.subrange(4, 4 + s.len() as int) =~= s);
}


/// Reading a 32-byte identifier where it was written gives it back.
pub proof fn lemma_read_address_at(pre: Seq<u8>, a: Seq<u8>, rest: Seq<u8>)
    requires
        a.len() == 32,
    ensures
        spec_read_address(pre + a + rest, pre.len() as int) == Some(
            (a, pre.len() as int + 32),
        ),
{
    let s = pre + a + rest;
    assert(s.subrange(pre.len() as int, pre.len() as int + 32) =~= a);
}

/// Reading one byte where it was written gives it back.
pub proof fn lemma_read_u8_at(pre: Seq<u8>, b: u8, rest: Seq<u8>)
    ensures
        spec_read_u8(pre + seq![b] + rest, pre.len() as int) == Some((b, pre.len() as int + 1)),
{
    let s = pre + seq![b] + rest;
    assert(s[pre.len() as int] == b);
}

/// Reading a strict boolean where it was written gives it back.
pub proof fn lemma_read_bool_at(pre: Seq<u8>, v: bool, rest: Seq<u8>)
    ensures
        spec_read_bool(pre + spec_encode_bool(v) + rest, pre.len() as int) == Some(
            (v, pre.len() as int + 1),
        ),
{
    lemma_read_u8_at(pre, if v { 1u8 } else { 0u8 }, rest);
    assert(pre + spec_encode_bool(v) + rest =~= pre + seq![if v { 1u8 } else { 0u8 }] + rest);
}

/// Reading an eight-byte integer where it was written gives it back.
pub proof fn lemma_read_u64_at(pre: Seq<u8>, v: u64, rest: Seq<u8>)
    ensures
        spec_read_u64(pre + spec_encode_u64(v) + rest, pre.len() as int) == Some(
            (v, pre.len() as int + 8),
        ),
{
    let s = pre + spec_encode_u64(v) + rest;
    let i = pre.len() as int;
    assert(s[i] == (v % 0x100) as u8);
    assert(s[i + 1] == ((v / 0x100) % 0x100) as u8);
    assert(s[i + 2] == ((v / 0x10000) % 0x100) as u8);
    assert(s[i + 3] == ((v / 0x1000000) % 0x100) as u8);
    assert(s[i + 4] == ((v / 0x100000000) % 0x100) as u8);
    assert(s[i + 5] == ((v / 0x10000000000) % 0x100) as u8);
    assert(s[i + 6] == ((v / 0x1000000000000) % 0x100) as u8);
    assert(s[i + 7] == ((v / 0x100000000000000) % 0x100) as u8);
    assert(v == (v % 0x100) + ((v / 0x100) % 0x100) * 0x100 + ((v / 0x10000) % 0x100) * 0x10000
        + ((v / 0x1000000) % 0x100) * 0x1000000 + ((v / 0x100000000) % 0x100) * 0x100000000 + ((v
        / 0x10000000000) % 0x100) * 0x10000000000 + ((v / 0x1000000000000) % 0x100)
        * 0x1000000000000 + ((v / 0x100000000000000) % 0x100) * 0x100000000000000)
        by (bit_vector);
}

/// Reading a signed word where it was written gives it back.
pub proof fn lemma_read_i64_at(pre: Seq<u8>, v: i64, rest: Seq<u8>)
    ensures
        spec_read_i64(pre + spec_encode_i64(v) + rest, pre.len() as int) == Some(
            (v, pre.len() as int + 8),
        ),
{
    lemma_read_u64_at(pre, spec_word_of(v), rest);
    assert(spec_signed_of(spec_word_of(v)) == v);
}

/// Reading a length-prefixed byte string where it was written gives it
/// back.
pub proof fn lemma_read_bytes_at(pre: Seq<u8>, s: Seq<u8>, rest: Seq<u8>)
    requires
        s.len() <= u32::MAX,
    ensures
        spec_read_bytes(pre + spec_encode_bytes(s) + rest, pre.len() as int) == Some(
            (s, pre.len() as int + 4 + s.len()),
        ),
{
    let whole = pre + spec_encode_bytes(s) + rest;
    assert(whole =~= pre + spec_encode_u32(s.len() as u32) + (s + rest));
    let i = pre.len() as int;
    assert(whole[i] == (s.len() as u32 % 0x100) as u8);
    assert(whole[i + 1] == ((s.len() as u32 / 0x100) % 0x100) as u8);
    assert(whole[i + 2] == ((s.len() as u32 / 0x10000) % 0x100) as u8);
    assert(whole[i + 3] == ((s.len() as u32 / 0x1000000) % 0x100) as u8);
    let n = s.len() as u32;
    assert(n == (n % 0x100) + ((n / 0x100) % 0x100) * 0x100 + ((n / 0x10000) % 0x100) * 0x10000
        + ((n / 0x1000000) % 0x100) * 0x1000000) by (bit_vector);
    assert(whole.subrange(i + 4, i + 4 + s.len() as int) =~= s);
}

/// The coherence of the blacklist entry's layout: a stored entry, however
/// padded, reads back as itself.  This closes the loop between what the
/// compliance registry writes and what the transfer validator reads.  The
/// record tag is eight bytes wide, as the digest wrapper states.
#[verifier::rlimit(100)]
pub proof fn lemma_blacklist_entry_round_trip(e: BlacklistEntryV, pad: Seq<u8>)
    requires
        e.config.len() == 32,
        e.wallet.len() == 32,
        e.blacklisted_by.len() == 32,
        e.reason.len() <= u32::MAX,
        spec_record_tag("BlacklistEntry").len() == 8,
    ensures
        spec_parse_blacklist_entry(spec_encode_blacklist_entry(e) + pad) == Some(e),
{
    let tag = spec_record_tag("BlacklistEntry");
    let at = spec_encode_i64(e.blacklisted_at);
    let reason = spec_encode_bytes(e.reason);
    let active = spec_encode_bool(e.is_active);
    let s = spec_encode_blacklist_entry(e) + pad;
    assert(s =~= tag + (e.config + e.wallet + at + e.blacklisted_by + reason + active + seq![
        e.bump,
    ] + pad));
    assert(s.take(8) =~= tag);

    assert(s =~= tag + e.config + (e.wallet + at + e.blacklisted_by + reason + active + seq![
        e.bump,
    ] + pad));
    lemma_read_address_at(tag, e.config, e.wallet + at + e.blacklisted_by + reason + active
        + seq![e.bump] + pad);

    assert(s =~= (tag + e.config) + e.wallet + (at + e.blacklisted_by + reason + active + seq![
        e.bump,
    ] + pad));
    lemma_read_address_at(tag + e.config, e.wallet, at + e.blacklisted_by + reason + active
        + seq![e.bump] + pad);

    assert(s =~= (tag + e.config + e.wallet) + at + (e.blacklisted_by + reason + active + seq![
        e.bump,
    ] + pad));
    lemma_read_i64_at(tag + e.config + e.wallet, e.blacklisted_at, e.blacklisted_by + reason
        + active + seq![e.bump] + pad);

    assert(s =~= (tag + e.config + e.wallet + at) + e.blacklisted_by + (reason + active + seq![
        e.bump,
    ] + pad));
    lemma_read_address_at(tag + e.config + e.wallet + at, e.blacklisted_by, reason + active
        + seq![e.bump] + pad);

    assert(s =~= (tag + e.config + e.wallet + at + e.blacklisted_by) + reason + (active + seq![
        e.bump,
    ] + pad));
    lemma_read_bytes_at(tag + e.config + e.wallet + at + e.blacklisted_by, e.reason, active
        + seq![e.bump] + pad);

    assert(s =~= (tag + e.config + e.wallet + at + e.blacklisted_by + reason) + active + (seq![
        e.bump,
    ] + pad));
    lemma_read_bool_at(tag + e.config + e.wallet + at + e.blacklisted_by + reason, e.is_active,
        seq![e.bump] + pad);

    assert(s =~= (tag + e.config + e.wallet + at + e.blacklisted_by + reason + active) + seq![
        e.bump,
    ] + pad);
    lemma_read_u8_at(tag + e.config + e.wallet + at + e.blacklisted_by + reason + active, e.bump,
        pad);
}


/// Reading an optional quota where it was written gives it back.
pub proof fn lemma_read_option_u64_at(pre: Seq<u8>, v: Option<u64>, rest: Seq<u8>)
    ensures
        spec_read_option_u64(pre + spec_encode_option_u64(v) + rest, pre.len() as int) == Some(
            (v, pre.len() as int + spec_encode_option_u64(v).len()),
        ),
{
    match v {
        None => {
            lemma_read_u8_at(pre, 0u8, rest);
            assert(pre + spec_encode_option_u64(v) + rest =~= pre + seq![0u8] + rest);
        },
        Some(n) => {
            assert(pre + spec_encode_option_u64(v) + rest =~= pre + seq![1u8] + (
            spec_encode_u64(n) + rest));
            lemma_read_u8_at(pre, 1u8, spec_encode_u64(n) + rest);
            assert(pre + spec_encode_option_u64(v) + rest =~= (pre + seq![1u8])
                + spec_encode_u64(n) + rest);
            lemma_read_u64_at(pre + seq![1u8], n, rest);
        },
    }
}

/// Reading an optional identifier where it was written gives it back.
pub proof fn lemma_read_option_address_at(pre: Seq<u8>, v: Option<Seq<u8>>, rest: Seq<u8>)
    requires
        v matches Some(a) ==> a.len() == 32,
    ensures
        spec_read_option_address(pre + spec_encode_option_address(v) + rest, pre.len() as int)
            == Some((v, pre.len() as int + spec_encode_option_address(v).len())),
{
    match v {
        None => {
            lemma_read_u8_at(pre, 0u8, rest);
            assert(pre + spec_encode_option_address(v) + rest =~= pre + seq![0u8] + rest);
        },
        Some(a) => {
            assert(pre + spec_encode_option_address(v) + rest =~= pre + seq![1u8] + (a + rest));
            lemma_read_u8_at(pre, 1u8, a + rest);
            assert(pre + spec_encode_option_address(v) + rest =~= (pre + seq![1u8]) + a + rest);
            lemma_read_address_at(pre + seq![1u8], a, rest);
        },
    }
}

/// The feature flags on the wire, in declaration order.
pub open spec fn spec_encode_features(f: FeatureFlags) -> Seq<u8> {
    spec_encode_bool(f.permanent_delegate) + spec_encode_bool(f.transfer_hook)
        + spec_encode_bool(f.confidential) + spec_encode_bool(f.default_frozen)
}

/// Reading the four feature flags where they were written gives them
/// back.
pub proof fn lemma_read_features_at(pre: Seq<u8>, f: FeatureFlags, rest: Seq<u8>)
    ensures
        spec_read_features(pre + spec_encode_features(f) + rest, pre.len() as int) == Some(
            (f, pre.len() as int + 4),
        ),
{
    let s = pre + spec_encode_features(f) + rest;
    assert(s =~= pre + spec_encode_bool(f.permanent_delegate) + (spec_encode_bool(
        f.transfer_hook,
    ) + spec_encode_bool(f.confidential) + spec_encode_bool(f.default_frozen) + rest));
    lemma_read_bool_at(pre, f.permanent_delegate, spec_encode_bool(f.transfer_hook)
        + spec_encode_bool(f.confidential) + spec_encode_bool(f.default_frozen) + rest);
    assert(s =~= (pre + spec_encode_bool(f.permanent_delegate)) + spec_encode_bool(
        f.transfer_hook,
    ) + (spec_encode_bool(f.confidential) + spec_encode_bool(f.default_frozen) + rest));
    lemma_read_bool_at(pre + spec_encode_bool(f.permanent_delegate), f.transfer_hook,
        spec_encode_bool(f.confidential) + spec_encode_bool(f.default_frozen) + rest);
    assert(s =~= (pre + spec_encode_bool(f.permanent_delegate) + spec_encode_bool(
        f.transfer_hook,
    )) + spec_encode_bool(f.confidential) + (spec_encode_bool(f.default_frozen) + rest));
    lemma_read_bool_at(pre + spec_encode_bool(f.permanent_delegate) + spec_encode_bool(
        f.transfer_hook,
    ), f.confidential, spec_encode_bool(f.default_frozen) + rest);
    assert(s =~= (pre + spec_encode_bool(f.permanent_delegate) + spec_encode_bool(
        f.transfer_hook,
    ) + spec_encode_bool(f.confidential)) + spec_encode_bool(f.default_frozen) + rest);
    lemma_read_bool_at(pre + spec_encode_bool(f.permanent_delegate) + spec_encode_bool(
        f.transfer_hook,
    ) + spec_encode_bool(f.confidential), f.default_frozen, rest);
}

/// The coherence of the role record's layout: a stored record, however
/// padded, reads back as itself.  The record tag is eight bytes wide, as
/// the digest wrapper states.
#[verifier::rlimit(100)]
pub proof fn lemma_role_account_round_trip(a: RoleAccountV, pad: Seq<u8>)
    requires
        a.config.len() == 32,
        a.authority.len() == 32,
        spec_record_tag("RoleAccount").len() == 8,
    ensures
        spec_parse_role_account(spec_encode_role_account(a) + pad) == Some(a),
{
    let tag = spec_record_tag("RoleAccount");
    let quota = spec_encode_option_u64(a.mint_quota);
    let minted = spec_encode_u64(a.minted_current_window);
    let window = spec_encode_i64(a.window_start);
    let s = spec_encode_role_account(a) + pad;
    assert(s.take(8) =~= tag);

    assert(s =~= tag + a.config + (a.authority + seq![a.roles] + quota + minted + window + seq![
        a.bump,
    ] + pad));
    lemma_read_address_at(tag, a.config, a.authority + seq![a.roles] + quota + minted + window
        + seq![a.bump] + pad);

    assert(s =~= (tag + a.config) + a.authority + (seq![a.roles] + quota + minted + window
        + seq![a.bump] + pad));
    lemma_read_address_at(tag + a.config, a.authority, seq![a.roles] + quota + minted + window
        + seq![a.bump] + pad);

    assert(s =~= (tag + a.config + a.authority) + seq![a.roles] + (quota + minted + window
        + seq![a.bump] + pad));
    lemma_read_u8_at(tag + a.config + a.authority, a.roles, quota + minted + window + seq![
        a.bump,
    ] + pad);

    assert(s =~= (tag + a.config + a.authority + seq![a.roles]) + quota + (minted + window
        + seq![a.bump] + pad));
    lemma_read_option_u64_at(tag + a.config + a.authority + seq![a.roles], a.mint_quota, minted
        + window + seq![a.bump] + pad);

    assert(s =~= (tag + a.config + a.authority + seq![a.roles] + quota) + minted + (window
        + seq![a.bump] + pad));
    lemma_read_u64_at(tag + a.config + a.authority + seq![a.roles] + quota,
        a.minted_current_window, window + seq![a.bump] + pad);

    assert(s =~= (tag + a.config + a.authority + seq![a.roles] + quota + minted) + window + (
    seq![a.bump] + pad));
    lemma_read_i64_at(tag + a.config + a.authority + seq![a.roles] + quota + minted,
        a.window_start, seq![a.bump] + pad);

    assert(s =~= (tag + a.config + a.authority + seq![a.roles] + quota + minted + window)
        + seq![a.bump] + pad);
    lemma_read_u8_at(tag + a.config + a.authority + seq![a.roles] + quota + minted + window,
        a.bump, pad);
}

} // verus!
