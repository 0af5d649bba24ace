use vstd::prelude::*;

use vstd::string::StrSliceExecFns;
use vstd::string::StringExecFns;

use crate::addr::Address;
use crate::constants::{
    ROLE_BLACKLISTER, ROLE_BURNER, ROLE_FREEZER, ROLE_MINTER, ROLE_PAUSER, ROLE_SEIZER,
};

verus! {

// What a command-line front end needs besides the operations themselves:
// naming a cluster, linking to an explorer, and the preset feature sets.

/// A cluster: its endpoint and, for the known networks, the label an
/// explorer understands.
#[derive(Clone, Debug)]
pub struct ClusterInfo {
    pub url: String,
    pub label: Option<String>,
}

/// The model of a cluster.
pub ghost struct ClusterInfoV {
    pub url: Seq<char>,
    pub label: Option<Seq<char>>,
}

impl View for ClusterInfo {
    type V = ClusterInfoV;

    open spec fn view(&self) -> ClusterInfoV {
        ClusterInfoV {
            url: self.url@,
            label: match self.label {
                Some(ref label) => Some(label@),
                None => None,
            },
        }
    }
}

/// The lowercase form of a string.  It depends on the characters alone,
/// so it carries a name here; the cluster table below is stated over it.
pub uninterp spec fn lower_of(s: Seq<char>) -> Seq<char>;

/// Relies on str::to_lowercase: the lowercase mapping of the characters,
/// a function of the characters alone.
#[verifier::external_body]
fn lowercase(s: &str) -> (r: String)
    ensures
        r@ == lower_of(s@),
{
    s.to_lowercase()
}

/// `p` opens `s`.
pub open spec fn spec_starts_with(s: Seq<char>, p: Seq<char>) -> bool {
    p.len() <= s.len() && s.take(p.len() as int) == p
}

/// `p` occurs somewhere in `s`.
pub open spec fn spec_contains(s: Seq<char>, p: Seq<char>) -> bool {
    exists|i: int| 0 <= i <= s.len() - p.len() && #[trigger] s.subrange(i, i + p.len() as int) == p
}

/// Character-for-character equality of two strings.
fn eq_str(a: &str, b: &str) -> (r: bool)
    ensures
        r == (a@ == b@),
{
    let n = a.unicode_len();
    if n != b.unicode_len() {
        proof {
            assert(a@ != b@);
        }
        return false;
    }
    let mut i: usize = 0;
    while i < n
        invariant
            i <= n,
            n == a@.len(),
            n == b@.len(),
            forall|j: int| 0 <= j < i ==> a@[j] == b@[j],
        decreases n - i,
    {
        if a.get_char(i) != b.get_char(i) {
            return false;
        }
        i = i + 1;
    }
    proof {
        assert(a@ =~= b@);
    }
    true
}

/// Does `p` open `s`?
fn starts_with(s: &str, p: &str) -> (r: bool)
    ensures
        r == spec_starts_with(s@, p@),
{
    let n = s.unicode_len();
    let m = p.unicode_len();
    if m > n {
        return false;
    }
    let mut i: usize = 0;
    while i < m
        invariant
            i <= m,
            m <= n,
            n == s@.len(),
            m == p@.len(),
            forall|j: int| 0 <= j < i ==> s@[j] == p@[j],
        decreases m - i,
    {
        if s.get_char(i) != p.get_char(i) {
            proof {
                assert(s@.take(p@.len() as int)[i as int] != p@[i as int]);
            }
            return false;
        }
        i = i + 1;
    }
    proof {
        assert(s@.take(p@.len() as int) =~= p@);
    }
    true
}

/// Does `p` occur in `s`?
fn contains_str(s: &str, p: &str) -> (r: bool)
    ensures
        r == spec_contains(s@, p@),
{
    let n = s.unicode_len();
    let m = p.unicode_len();
    if m > n {
        proof {
            assert(!spec_contains(s@, p@));
        }
        return false;
    }
    let mut start: usize = 0;
    while start <= n - m
        invariant
            0 <= start <= n - m + 1,
            m <= n,
            n == s@.len(),
            m == p@.len(),
            forall|k: int|
                0 <= k < start ==> #[trigger] s@.subrange(k, k + p@.len() as int) != p@,
        decreases n + 1 - start,
    {
        let mut i: usize = 0;
        let mut matched: bool = true;
        while i < m
            invariant
                i <= m,
                start + m <= n,
                n == s@.len(),
                m == p@.len(),
                matched == (forall|j: int|
                    0 <= j < i ==> s@[start + j] == p@[j]),
            decreases m - i,
        {
            if s.get_char(start + i) != p.get_char(i) {
                matched = false;
            }
            i = i + 1;
        }
        if matched {
            proof {
                assert(s@.subrange(start as int, start + p@.len() as int) =~= p@);
            }
            return true;
        }
        proof {
            assert(s@.subrange(start as int, start + p@.len() as int) != p@);
        }
        start = start + 1;
    }
    proof {
        assert(forall|k: int|
            0 <= k <= s@.len() - p@.len() ==> #[trigger] s@.subrange(k, k + p@.len() as int)
                != p@);
    }
    false
}

/// The cluster that a name or endpoint denotes: the four known network
/// names (matched in lowercase), or any address that names its scheme,
/// labelled by whichever known network its lowercase form mentions.
pub open spec fn spec_resolve_cluster(input: Seq<char>, lowered: Seq<char>) -> Option<
    ClusterInfoV,
> {
    if lowered == "devnet"@ {
        Some(
            ClusterInfoV { url: "https://api.devnet.solana.com"@, label: Some("devnet"@) },
        )
    } else if lowered == "testnet"@ {
        Some(
            ClusterInfoV { url: "https://api.testnet.solana.com"@, label: Some("testnet"@) },
        )
    } else if lowered == "mainnet"@ || lowered == "mainnet-beta"@ {
        Some(
            ClusterInfoV {
                url: "https://api.mainnet-beta.solana.com"@,
                label: Some("mainnet-beta"@),
            },
        )
    } else if lowered == "localnet"@ {
        Some(ClusterInfoV { url: "http://127.0.0.1:8899"@, label: Some("localnet"@) })
    } else if spec_starts_with(input, "http://"@) || spec_starts_with(input, "https://"@) {
        Some(
            ClusterInfoV {
                url: input,
                label: if spec_contains(lowered, "devnet"@) {
                    Some("devnet"@)
                } else if spec_contains(lowered, "testnet"@) {
                    Some("testnet"@)
                } else if spec_contains(lowered, "mainnet"@) {
                    Some("mainnet-beta"@)
                } else {
                    None
                },
            },
        )
    } else {
        None
    }
}

/// Resolve a cluster name or endpoint; an unknown name resolves to
/// nothing.
pub fn resolve_cluster(input: &str) -> (r: Option<ClusterInfo>)
    ensures
        match r {
            Some(info) => spec_resolve_cluster(input@, lower_of(input@)) == Some(info@),
            None => spec_resolve_cluster(input@, lower_of(input@)) is None,
        },
{
    let lowered = lowercase(input);
    if eq_str(lowered.as_str(), "devnet") {
        return Some(
            ClusterInfo {
                url: String::from_str("https://api.devnet.solana.com"),
                label: Some(String::from_str("devnet")),
            },
        );
    }
    if eq_str(lowered.as_str(), "testnet") {
        return Some(
            ClusterInfo {
                url: String::from_str("https://api.testnet.solana.com"),
                label: Some(String::from_str("testnet")),
            },
        );
    }
    if eq_str(lowered.as_str(), "mainnet") || eq_str(lowered.as_str(), "mainnet-beta") {
        return Some(
            ClusterInfo {
                url: String::from_str("https://api.mainnet-beta.solana.com"),
                label: Some(String::from_str("mainnet-beta")),
            },
        );
    }
    if eq_str(lowered.as_str(), "localnet") {
        return Some(
            ClusterInfo {
                url: String::from_str("http://127.0.0.1:8899"),
                label: Some(String::from_str("localnet")),
            },
        );
    }
    if starts_with(input, "http://") || starts_with(input, "https://") {
        let label: Option<String> = if contains_str(lowered.as_str(), "devnet") {
            Some(String::from_str("devnet"))
        } else if contains_str(lowered.as_str(), "testnet") {
            Some(String::from_str("testnet"))
        } else if contains_str(lowered.as_str(), "mainnet") {
            Some(String::from_str("mainnet-beta"))
        } else {
            None
        };
        return Some(ClusterInfo { url: String::from_str(input), label });
    }
    None
}

/// The explorer page of a submitted operation, for the known networks.
pub fn explorer_url(signature: &str, cluster: &ClusterInfo) -> (r: Option<String>)
    ensures
        match cluster.label {
            Some(ref label) => r matches Some(url) && url@ == "https://explorer.solana.com/tx/"@
                + signature@ + "?cluster="@ + label@,
            None => r is None,
        },
{
    match &cluster.label {
        Some(label) => {
            let mut url = String::from_str("https://explorer.solana.com/tx/");
            url.append(signature);
            url.append("?cluster=");
            url.append(label.as_str());
            Some(url)
        },
        None => None,
    }
}

/// How surely a submitted operation must have settled before it counts.
#[derive(Clone, Copy, Debug, PartialEq, Eq, Structural)]
pub enum Commitment {
    Processed,
    Confirmed,
    Finalized,
}

/// The commitment that a configured word denotes; anything but the two
/// explicit levels, absent ones included, falls back to confirmed.
pub open spec fn spec_parse_commitment(value: Option<Seq<char>>) -> Commitment {
    match value {
        Some(word) => if word == "processed"@ {
            Commitment::Processed
        } else if word == "finalized"@ {
            Commitment::Finalized
        } else {
            Commitment::Confirmed
        },
        None => Commitment::Confirmed,
    }
}

pub fn parse_commitment(value: Option<&str>) -> (r: Commitment)
    ensures
        r == spec_parse_commitment(
            match value {
                Some(word) => Some(word@),
                None => None,
            },
        ),
{
    match value {
        Some(word) => {
            if eq_str(word, "processed") {
                Commitment::Processed
            } else if eq_str(word, "finalized") {
                Commitment::Finalized
            } else {
                Commitment::Confirmed
            }
        },
        None => Commitment::Confirmed,
    }
}

/// The optional feature choices of a configuration file; an absent choice
/// means its default.
#[derive(Clone, Copy, Debug)]
pub struct ExtensionsConfig {
    pub permanent_delegate: Option<bool>,
    pub transfer_hook: Option<bool>,
    pub default_account_frozen: Option<bool>,
    pub confidential_transfer: Option<bool>,
}

impl Default for ExtensionsConfig {
    /// Every feature explicitly off.
    fn default() -> (r: ExtensionsConfig)
        ensures
            r == (ExtensionsConfig {
                permanent_delegate: Some(false),
                transfer_hook: Some(false),
                default_account_frozen: Some(false),
                confidential_transfer: Some(false),
            }),
    {
        ExtensionsConfig {
            permanent_delegate: Some(false),
            transfer_hook: Some(false),
            default_account_frozen: Some(false),
            confidential_transfer: Some(false),
        }
    }
}

impl ExtensionsConfig {
    /// The two presets: the compliance preset turns on the permanent
    /// delegate together with the transfer hook; the plain preset turns
    /// both off.  Neither freezes accounts by default, and neither admits
    /// confidential transfers.
    pub fn from_preset(enable_transfer_hook: bool) -> (r: ExtensionsConfig)
        ensures
            r == (ExtensionsConfig {
                permanent_delegate: Some(enable_transfer_hook),
                transfer_hook: Some(enable_transfer_hook),
                default_account_frozen: Some(false),
                confidential_transfer: Some(false),
            }),
    {
        ExtensionsConfig {
            permanent_delegate: Some(enable_transfer_hook),
            transfer_hook: Some(enable_transfer_hook),
            default_account_frozen: Some(false),
            confidential_transfer: Some(false),
        }
    }
}


/// One configured minter: the holder and its quota.
#[derive(Clone, Copy, Debug)]
pub struct MinterConfig {
    pub pubkey: Address,
    pub quota: u64,
}

/// The role lists of a configuration file, with every holder already
/// resolved to an address.
#[derive(Clone, Debug)]
pub struct RolesConfig {
    pub minters: Vec<MinterConfig>,
    pub freezers: Vec<Address>,
    pub pausers: Vec<Address>,
    pub blacklisters: Vec<Address>,
    pub seizers: Vec<Address>,
    pub burners: Vec<Address>,
}

/// What one holder is to be granted.
#[derive(Clone, Copy, Debug)]
pub struct RoleAssignment {
    pub roles: u8,
    pub mint_quota: Option<u64>,
}

pub open spec fn spec_addr_in(list: Seq<Address>, a: Address) -> bool {
    exists|i: int| 0 <= i < list.len() && #[trigger] list[i] == a
}

pub open spec fn spec_minter_in(list: Seq<MinterConfig>, a: Address) -> bool {
    exists|i: int| 0 <= i < list.len() && (#[trigger] list[i]).pubkey == a
}

/// The quota of the last configured minter entry for this holder.
pub open spec fn spec_last_quota(list: Seq<MinterConfig>, a: Address) -> Option<u64>
    decreases list.len(),
{
    if list.len() == 0 {
        None
    } else if list.last().pubkey == a {
        Some(list.last().quota)
    } else {
        spec_last_quota(list.drop_last(), a)
    }
}

/// The union of the role bits that the lists grant this holder.
pub open spec fn spec_roles_of(config: RolesConfig, a: Address) -> u8 {
    (if spec_minter_in(config.minters@, a) {
        ROLE_MINTER
    } else {
        0
    }) | (if spec_addr_in(config.freezers@, a) {
        ROLE_FREEZER
    } else {
        0
    }) | (if spec_addr_in(config.pausers@, a) {
        ROLE_PAUSER
    } else {
        0
    }) | (if spec_addr_in(config.blacklisters@, a) {
        ROLE_BLACKLISTER
    } else {
        0
    }) | (if spec_addr_in(config.seizers@, a) {
        ROLE_SEIZER
    } else {
        0
    }) | (if spec_addr_in(config.burners@, a) {
        ROLE_BURNER
    } else {
        0
    })
}

/// The holder appears in at least one list.
pub open spec fn spec_assigned(config: RolesConfig, a: Address) -> bool {
    ||| spec_minter_in(config.minters@, a)
    ||| spec_addr_in(config.freezers@, a)
    ||| spec_addr_in(config.pausers@, a)
    ||| spec_addr_in(config.blacklisters@, a)
    ||| spec_addr_in(config.seizers@, a)
    ||| spec_addr_in(config.burners@, a)
}

pub open spec fn spec_keys_unique(list: Seq<Address>) -> bool {
    forall|i: int, j: int| 0 <= i < j < list.len() ==> list[i] != list[j]
}

/// Linear membership test.
fn contains_addr(list: &Vec<Address>, a: &Address) -> (b: bool)
    ensures
        b == spec_addr_in(list@, *a),
{
    let mut i: usize = 0;
    while i < list.len()
        invariant
            i <= list@.len(),
            forall|j: int| 0 <= j < i ==> list@[j] != *a,
        decreases list@.len() - i,
    {
        if list[i] == *a {
            return true;
        }
        i = i + 1;
    }
    false
}

/// Record one more holder, once.
fn push_unique(keys: &mut Vec<Address>, a: Address)
    ensures
        forall|x: Address|
            #[trigger] spec_addr_in(final(keys)@, x) <==> spec_addr_in(old(keys)@, x) || x == a,
        spec_keys_unique(old(keys)@) ==> spec_keys_unique(final(keys)@),
{
    if !contains_addr(keys, &a) {
        let ghost before = keys@;
        keys.push(a);
        proof {
            assert forall|x: Address| #[trigger]
                spec_addr_in(keys@, x) <==> spec_addr_in(before, x) || x == a by {
                if spec_addr_in(before, x) {
                    let i = choose|i: int| 0 <= i < before.len() && before[i] == x;
                    assert(keys@[i] == x);
                }
                if x == a {
                    assert(keys@[keys@.len() - 1] == x);
                }
                if spec_addr_in(keys@, x) {
                    let i = choose|i: int| 0 <= i < keys@.len() && keys@[i] == x;
                    if i < before.len() {
                        assert(before[i] == x);
                    }
                }
            }
        }
    } else {
        proof {
            assert forall|x: Address| #[trigger]
                spec_addr_in(keys@, x) <==> spec_addr_in(old(keys)@, x) || x == a by {}
        }
    }
}

/// The quota of the last minter entry for this holder, if any.
fn last_quota(list: &Vec<MinterConfig>, a: &Address) -> (r: Option<u64>)
    ensures
        r == spec_last_quota(list@, *a),
{
    let mut i: usize = list.len();
    proof {
        assert(list@.take(list@.len() as int) =~= list@);
    }
    while i > 0
        invariant
            i <= list@.len(),
            spec_last_quota(list@, *a) == spec_last_quota(list@.take(i as int), *a),
        decreases i,
    {
        i = i - 1;
        proof {
            assert(list@.take(i + 1).drop_last() =~= list@.take(i as int));
            assert(list@.take(i + 1).last() == list@[i as int]);
        }
        if list[i].pubkey == *a {
            return Some(list[i].quota);
        }
    }
    proof {
        assert(list@.take(0) =~= Seq::<MinterConfig>::empty());
    }
    None
}

/// Linear membership test among the configured minters.
fn minter_contains(list: &Vec<MinterConfig>, a: &Address) -> (b: bool)
    ensures
        b == spec_minter_in(list@, *a),
{
    let mut i: usize = 0;
    while i < list.len()
        invariant
            i <= list@.len(),
            forall|j: int| 0 <= j < i ==> (#[trigger] list@[j]).pubkey != *a,
        decreases list@.len() - i,
    {
        if list[i].pubkey == *a {
            return true;
        }
        i = i + 1;
    }
    false
}

/// Turn the configured role lists into one assignment per holder: the
/// union of the granted bits, and — for minters — the quota of the
/// holder's last minter entry.  Whatever order grants arrive in, each
/// holder ends with one consistent record and no grant is lost.
pub fn build_role_assignments(config: &RolesConfig) -> (r: Vec<(Address, RoleAssignment)>)
    ensures
        spec_keys_unique(Seq::new(r@.len(), |i: int| r@[i].0)),
        forall|i: int| 0 <= i < r@.len() ==> spec_assigned(*config, (#[trigger] r@[i]).0),
        forall|i: int|
            0 <= i < r@.len() ==> (#[trigger] r@[i]).1.roles == spec_roles_of(*config, r@[i].0),
        forall|i: int|
            0 <= i < r@.len() ==> (#[trigger] r@[i]).1.mint_quota == spec_last_quota(
                config.minters@,
                r@[i].0,
            ),
        forall|a: Address|
            #[trigger] spec_assigned(*config, a) ==> exists|i: int|
                0 <= i < r@.len() && (#[trigger] r@[i]).0 == a,
{
    let mut keys: Vec<Address> = Vec::new();
    let mut i: usize = 0;
    while i < config.minters.len()
        invariant
            i <= config.minters@.len(),
            spec_keys_unique(keys@),
            forall|x: Address|
                #[trigger] spec_addr_in(keys@, x) <==> spec_minter_in(
                    config.minters@.take(i as int),
                    x,
                ),
        decreases config.minters@.len() - i,
    {
        push_unique(&mut keys, config.minters[i].pubkey);
        proof {
            lemma_minter_take_step(config.minters@, i as int);
        }
        i = i + 1;
    }
    proof {
        assert(config.minters@.take(config.minters@.len() as int) =~= config.minters@);
    }
    let mut j: usize = 0;
    while j < config.freezers.len()
        invariant
            j <= config.freezers@.len(),
            spec_keys_unique(keys@),
            forall|x: Address|
                #[trigger] spec_addr_in(keys@, x) <==> spec_minter_in(config.minters@, x)
                    || spec_addr_in(config.freezers@.take(j as int), x),
        decreases config.freezers@.len() - j,
    {
        push_unique(&mut keys, config.freezers[j]);
        proof {
            lemma_addr_take_step(config.freezers@, j as int);
        }
        j = j + 1;
    }
    proof {
        assert(config.freezers@.take(config.freezers@.len() as int) =~= config.freezers@);
    }
    let mut j: usize = 0;
    while j < config.pausers.len()
        invariant
            j <= config.pausers@.len(),
            spec_keys_unique(keys@),
            forall|x: Address|
                #[trigger] spec_addr_in(keys@, x) <==> spec_minter_in(config.minters@, x)
                    || spec_addr_in(config.freezers@, x) || spec_addr_in(
                    config.pausers@.take(j as int),
                    x,
                ),
        decreases config.pausers@.len() - j,
    {
        push_unique(&mut keys, config.pausers[j]);
        proof {
            lemma_addr_take_step(config.pausers@, j as int);
        }
        j = j + 1;
    }
    proof {
        assert(config.pausers@.take(config.pausers@.len() as int) =~= config.pausers@);
    }
    let mut j: usize = 0;
    while j < config.blacklisters.len()
        invariant
            j <= config.blacklisters@.len(),
            spec_keys_unique(keys@),
            forall|x: Address|
                #[trigger] spec_addr_in(keys@, x) <==> spec_minter_in(config.minters@, x)
                    || spec_addr_in(config.freezers@, x) || spec_addr_in(config.pausers@, x)
                    || spec_addr_in(config.blacklisters@.take(j as int), x),
        decreases config.blacklisters@.len() - j,
    {
        push_unique(&mut keys, config.blacklisters[j]);
        proof {
            lemma_addr_take_step(config.blacklisters@, j as int);
        }
        j = j + 1;
    }
    proof {
        assert(config.blacklisters@.take(config.blacklisters@.len() as int)
            =~= config.blacklisters@);
    }
    let mut j: usize = 0;
    while j < config.seizers.len()
        invariant
            j <= config.seizers@.len(),
            spec_keys_unique(keys@),
            forall|x: Address|
                #[trigger] spec_addr_in(keys@, x) <==> spec_minter_in(config.minters@, x)
                    || spec_addr_in(config.freezers@, x) || spec_addr_in(config.pausers@, x)
                    || spec_addr_in(config.blacklisters@, x) || spec_addr_in(
                    config.seizers@.take(j as int),
                    x,
                ),
        decreases config.seizers@.len() - j,
    {
        push_unique(&mut keys, config.seizers[j]);
        proof {
            lemma_addr_take_step(config.seizers@, j as int);
        }
        j = j + 1;
    }
    proof {
        assert(config.seizers@.take(config.seizers@.len() as int) =~= config.seizers@);
    }
    let mut j: usize = 0;
    while j < config.burners.len()
        invariant
            j <= config.burners@.len(),
            spec_keys_unique(keys@),
            forall|x: Address|
                #[trigger] spec_addr_in(keys@, x) <==> spec_minter_in(config.minters@, x)
                    || spec_addr_in(config.freezers@, x) || spec_addr_in(config.pausers@, x)
                    || spec_addr_in(config.blacklisters@, x) || spec_addr_in(
                    config.seizers@,
                    x,
                ) || spec_addr_in(config.burners@.take(j as int), x),
        decreases config.burners@.len() - j,
    {
        push_unique(&mut keys, config.burners[j]);
        proof {
            lemma_addr_take_step(config.burners@, j as int);
        }
        j = j + 1;
    }
    proof {
        assert(config.burners@.take(config.burners@.len() as int) =~= config.burners@);
    }
    // Every listed holder is now in `keys` exactly once; compute each
    // holder's assignment from the lists directly.
    let mut out: Vec<(Address, RoleAssignment)> = Vec::new();
    let mut k: usize = 0;
    while k < keys.len()
        invariant
            k <= keys@.len(),
            out@.len() == k,
            spec_keys_unique(keys@),
            forall|x: Address|
                #[trigger] spec_addr_in(keys@, x) <==> spec_assigned(*config, x),
            forall|i: int| 0 <= i < k ==> (#[trigger] out@[i]).0 == keys@[i],
            forall|i: int|
                0 <= i < k ==> (#[trigger] out@[i]).1.roles == spec_roles_of(*config, out@[i].0),
            forall|i: int|
                0 <= i < k ==> (#[trigger] out@[i]).1.mint_quota == spec_last_quota(
                    config.minters@,
                    out@[i].0,
                ),
        decreases keys@.len() - k,
    {
        let a = keys[k];
        let is_minter = minter_contains(&config.minters, &a);
        let roles: u8 = (if is_minter {
            ROLE_MINTER
        } else {
            0
        }) | (if contains_addr(&config.freezers, &a) {
            ROLE_FREEZER
        } else {
            0
        }) | (if contains_addr(&config.pausers, &a) {
            ROLE_PAUSER
        } else {
            0
        }) | (if contains_addr(&config.blacklisters, &a) {
            ROLE_BLACKLISTER
        } else {
            0
        }) | (if contains_addr(&config.seizers, &a) {
            ROLE_SEIZER
        } else {
            0
        }) | (if contains_addr(&config.burners, &a) {
            ROLE_BURNER
        } else {
            0
        });
        let mint_quota = last_quota(&config.minters, &a);
        out.push((a, RoleAssignment { roles, mint_quota }));
        k = k + 1;
    }
    proof {
        assert(spec_keys_unique(Seq::new(out@.len(), |i: int| out@[i].0))) by {
            assert(forall|i: int|
                0 <= i < out@.len() ==> Seq::new(out@.len(), |n: int| out@[n].0)[i] == keys@[i]);
        }
        assert forall|i: int| 0 <= i < out@.len() implies spec_assigned(
            *config,
            (#[trigger] out@[i]).0,
        ) by {
            assert(keys@[i] == out@[i].0);
            assert(spec_addr_in(keys@, out@[i].0));
        }
        assert forall|a: Address| #[trigger]
            spec_assigned(*config, a) implies exists|i: int|
            0 <= i < out@.len() && (#[trigger] out@[i]).0 == a by {
            assert(spec_addr_in(keys@, a));
            let i = choose|i: int| 0 <= i < keys@.len() && keys@[i] == a;
            assert(out@[i].0 == a);
        }
    }
    out
}

/// One more minter entry extends the covered prefix by its holder.
proof fn lemma_minter_take_step(list: Seq<MinterConfig>, i: int)
    requires
        0 <= i < list.len(),
    ensures
        forall|x: Address|
            #[trigger] spec_minter_in(list.take(i + 1), x) <==> spec_minter_in(list.take(i), x)
                || list[i].pubkey == x,
{
    assert forall|x: Address| #[trigger]
        spec_minter_in(list.take(i + 1), x) <==> spec_minter_in(list.take(i), x) || list[i].pubkey
        == x by {
        if spec_minter_in(list.take(i + 1), x) {
            let j = choose|j: int|
                0 <= j < list.take(i + 1).len() && (#[trigger] list.take(i + 1)[j]).pubkey == x;
            if j < i {
                assert(list.take(i)[j].pubkey == x);
            }
        }
        if spec_minter_in(list.take(i), x) {
            let j = choose|j: int|
                0 <= j < list.take(i).len() && (#[trigger] list.take(i)[j]).pubkey == x;
            assert(list.take(i + 1)[j].pubkey == x);
        }
        if list[i].pubkey == x {
            assert(list.take(i + 1)[i].pubkey == x);
        }
    }
}

/// One more list entry extends the covered prefix by its holder.
proof fn lemma_addr_take_step(list: Seq<Address>, i: int)
    requires
        0 <= i < list.len(),
    ensures
        forall|x: Address|
            #[trigger] spec_addr_in(list.take(i + 1), x) <==> spec_addr_in(list.take(i), x)
                || list[i] == x,
{
    assert forall|x: Address| #[trigger]
        spec_addr_in(list.take(i + 1), x) <==> spec_addr_in(list.take(i), x) || list[i] == x by {
        if spec_addr_in(list.take(i + 1), x) {
            let j = choose|j: int|
                0 <= j < list.take(i + 1).len() && #[trigger] list.take(i + 1)[j] == x;
            if j < i {
                assert(list.take(i)[j] == x);
            }
        }
        if spec_addr_in(list.take(i), x) {
            let j = choose|j: int| 0 <= j < list.take(i).len() && #[trigger] list.take(i)[j] == x;
            assert(list.take(i + 1)[j] == x);
        }
        if list[i] == x {
            assert(list.take(i + 1)[i] == x);
        }
    }
}

} // verus!
