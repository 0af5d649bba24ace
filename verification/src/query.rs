use vstd::prelude::*;

use vstd::seq_lib::group_to_multiset_ensures;

use crate::addr::Address;
use crate::constants::ROLE_MINTER;
use crate::state::{BlacklistEntry, RoleAccount};

verus! {

broadcast use group_to_multiset_ensures;

// Read-side queries over fetched policy records: who holds how much, who
// holds which role, how many wallets are barred.

/// One holder's balance of the asset, as read from the ledger.
#[derive(Clone, Copy, Debug)]
pub struct HolderBalance {
    pub owner: Address,
    pub token_account: Address,
    pub amount: u64,
}

/// The holders that clear the threshold, in their arriving order.
pub open spec fn spec_retained(holders: Seq<HolderBalance>, min_balance: Option<u64>) -> Seq<
    HolderBalance,
>
    decreases holders.len(),
{
    if holders.len() == 0 {
        Seq::empty()
    } else {
        let rest = spec_retained(holders.drop_last(), min_balance);
        if spec_clears(holders.last(), min_balance) {
            rest.push(holders.last())
        } else {
            rest
        }
    }
}

/// The holder clears the threshold, when there is one.
pub open spec fn spec_clears(holder: HolderBalance, min_balance: Option<u64>) -> bool {
    match min_balance {
        Some(min) => holder.amount >= min,
        None => true,
    }
}

/// Everything retained clears the threshold.
proof fn lemma_retained_clears(holders: Seq<HolderBalance>, min_balance: Option<u64>)
    ensures
        forall|i: int|
            0 <= i < spec_retained(holders, min_balance).len() ==> spec_clears(
                #[trigger] spec_retained(holders, min_balance)[i],
                min_balance,
            ),
    decreases holders.len(),
{
    if holders.len() > 0 {
        lemma_retained_clears(holders.drop_last(), min_balance);
        let rest = spec_retained(holders.drop_last(), min_balance);
        let whole = spec_retained(holders, min_balance);
        assert forall|i: int| 0 <= i < whole.len() implies spec_clears(
            whole[i],
            min_balance,
        ) by {
            if spec_clears(holders.last(), min_balance) {
                assert(whole =~= rest.push(holders.last()));
                if i < rest.len() {
                    assert(whole[i] == rest[i]);
                }
            } else {
                assert(whole =~= rest);
            }
        }
    }
}

/// Drop the holders under the threshold.
fn retain_min_balance(holders: Vec<HolderBalance>, min_balance: Option<u64>) -> (r: Vec<
    HolderBalance,
>)
    ensures
        r@ == spec_retained(holders@, min_balance),
{
    let mut r: Vec<HolderBalance> = Vec::new();
    let mut i: usize = 0;
    while i < holders.len()
        invariant
            i <= holders@.len(),
            r@ == spec_retained(holders@.take(i as int), min_balance),
        decreases holders@.len() - i,
    {
        let holder = holders[i];
        proof {
            assert(holders@.take(i + 1).drop_last() =~= holders@.take(i as int));
            assert(holders@.take(i + 1).last() == holders@[i as int]);
        }
        let keep = match min_balance {
            Some(min) => holder.amount >= min,
            None => true,
        };
        if keep {
            r.push(holder);
        }
        i = i + 1;
    }
    proof {
        assert(holders@.take(holders@.len() as int) =~= holders@);
    }
    r
}

/// Reorder the holders so the largest balances come first; nothing is
/// added, dropped or duplicated.
fn sort_holders_desc(holders: Vec<HolderBalance>) -> (r: Vec<HolderBalance>)
    ensures
        r@.to_multiset() == holders@.to_multiset(),
        forall|i: int, j: int| 0 <= i < j < r@.len() ==> r@[i].amount >= r@[j].amount,
        forall|i: int|
            0 <= i < r@.len() ==> holders@.to_multiset().count(#[trigger] r@[i]) > 0,
{
    let mut rest = holders;
    let mut out: Vec<HolderBalance> = Vec::new();
    while rest.len() > 0
        invariant
            out@.to_multiset().add(rest@.to_multiset()) =~= holders@.to_multiset(),
            forall|i: int, j: int| 0 <= i < j < out@.len() ==> out@[i].amount >= out@[j].amount,
            forall|i: int, j: int|
                0 <= i < out@.len() && 0 <= j < rest@.len() ==> (#[trigger] out@[i]).amount >= (
                #[trigger] rest@[j]).amount,
            forall|i: int|
                0 <= i < out@.len() ==> holders@.to_multiset().count(#[trigger] out@[i]) > 0,
        decreases rest@.len(),
    {
        let mut best: usize = 0;
        let mut k: usize = 1;
        while k < rest.len()
            invariant
                best < k <= rest@.len() || (k <= rest@.len() && best == 0),
                best < rest@.len(),
                rest@.len() > 0,
                forall|j: int| 0 <= j < k ==> rest@[best as int].amount >= rest@[j].amount,
            decreases rest@.len() - k,
        {
            if rest[k].amount > rest[best].amount {
                best = k;
            }
            k = k + 1;
        }
        let ghost old_rest = rest@;
        let ghost old_out = out@;
        let item = rest.remove(best);
        out.push(item);
        proof {
            assert(rest@.to_multiset() =~= old_rest.to_multiset().remove(item));
            assert(out@.to_multiset() =~= old_out.to_multiset().insert(item));
            assert(old_rest.to_multiset().count(item) > 0);
            assert(out@.to_multiset().add(rest@.to_multiset()) =~= holders@.to_multiset());
            assert(holders@.to_multiset().count(item) > 0);
            assert forall|j: int| 0 <= j < rest@.len() implies item.amount >= (
            #[trigger] rest@[j]).amount by {
                if j < best {
                    assert(rest@[j] == old_rest[j]);
                } else {
                    assert(rest@[j] == old_rest[j + 1]);
                }
            }
        }
    }
    out
}

/// The asset's holders at or above an optional minimum balance, largest
/// balances first: the retained set is exactly a reordering of the
/// arriving holders that clear the threshold.
pub fn rank_holders(holders: Vec<HolderBalance>, min_balance: Option<u64>) -> (r: Vec<
    HolderBalance,
>)
    ensures
        r@.to_multiset() == spec_retained(holders@, min_balance).to_multiset(),
        forall|i: int, j: int| 0 <= i < j < r@.len() ==> r@[i].amount >= r@[j].amount,
        forall|i: int| 0 <= i < r@.len() ==> spec_clears(#[trigger] r@[i], min_balance),
{
    let retained = retain_min_balance(holders, min_balance);
    let ghost retained_view = retained@;
    let r = sort_holders_desc(retained);
    proof {
        lemma_retained_clears(holders@, min_balance);
        assert forall|i: int| 0 <= i < r@.len() implies spec_clears(
            #[trigger] r@[i],
            min_balance,
        ) by {
            assert(retained_view.to_multiset().count(r@[i]) > 0);
            assert(retained_view.contains(r@[i]));
            let w = choose|w: int| 0 <= w < retained_view.len() && retained_view[w] == r@[i];
            assert(spec_clears(retained_view[w], min_balance));
        }
    }
    r
}

/// How many of the records hold at least one of the roles in `mask`.
pub open spec fn spec_count_role(entries: Seq<RoleAccount>, mask: u8) -> nat
    decreases entries.len(),
{
    if entries.len() == 0 {
        0
    } else {
        spec_count_role(entries.drop_last(), mask) + (if entries.last().roles & mask != 0 {
            1nat
        } else {
            0nat
        })
    }
}

/// Count the records that hold at least one of the roles in `mask`.
pub fn count_role(entries: &Vec<RoleAccount>, mask: u8) -> (n: usize)
    ensures
        n == spec_count_role(entries@, mask),
{
    let mut n: usize = 0;
    let mut i: usize = 0;
    while i < entries.len()
        invariant
            i <= entries@.len(),
            n == spec_count_role(entries@.take(i as int), mask),
            n <= i,
        decreases entries@.len() - i,
    {
        proof {
            assert(entries@.take(i + 1).drop_last() =~= entries@.take(i as int));
            assert(entries@.take(i + 1).last() == entries@[i as int]);
        }
        if entries[i].roles & mask != 0 {
            n = n + 1;
        }
        i = i + 1;
    }
    proof {
        assert(entries@.take(entries@.len() as int) =~= entries@);
    }
    n
}

/// How many of the entries are active.
pub open spec fn spec_count_active(entries: Seq<BlacklistEntry>) -> nat
    decreases entries.len(),
{
    if entries.len() == 0 {
        0
    } else {
        spec_count_active(entries.drop_last()) + (if entries.last().is_active {
            1nat
        } else {
            0nat
        })
    }
}

/// Count the actively blacklisted wallets among the entries.
pub fn count_active_blacklist(entries: &Vec<BlacklistEntry>) -> (n: usize)
    ensures
        n == spec_count_active(entries@),
{
    let mut n: usize = 0;
    let mut i: usize = 0;
    while i < entries.len()
        invariant
            i <= entries@.len(),
            n == spec_count_active(entries@.take(i as int)),
            n <= i,
        decreases entries@.len() - i,
    {
        proof {
            assert(entries@.take(i + 1).drop_last() =~= entries@.take(i as int));
            assert(entries@.take(i + 1).last() == entries@[i as int]);
        }
        if entries[i].is_active {
            n = n + 1;
        }
        i = i + 1;
    }
    proof {
        assert(entries@.take(entries@.len() as int) =~= entries@);
    }
    n
}

/// The minters among the records, in order: each holder with the minter
/// bit, with its quota.
pub open spec fn spec_minters(entries: Seq<RoleAccount>) -> Seq<(Address, Option<u64>)>
    decreases entries.len(),
{
    if entries.len() == 0 {
        Seq::empty()
    } else {
        let rest = spec_minters(entries.drop_last());
        if entries.last().roles & ROLE_MINTER != 0 {
            rest.push((entries.last().authority, entries.last().mint_quota))
        } else {
            rest
        }
    }
}

/// List the minters among the records, each with its quota.
pub fn minter_list(entries: &Vec<RoleAccount>) -> (r: Vec<(Address, Option<u64>)>)
    ensures
        r@ == spec_minters(entries@),
{
    let mut r: Vec<(Address, Option<u64>)> = Vec::new();
    let mut i: usize = 0;
    while i < entries.len()
        invariant
            i <= entries@.len(),
            r@ == spec_minters(entries@.take(i as int)),
        decreases entries@.len() - i,
    {
        proof {
            assert(entries@.take(i + 1).drop_last() =~= entries@.take(i as int));
            assert(entries@.take(i + 1).last() == entries@[i as int]);
        }
        if entries[i].roles & ROLE_MINTER != 0 {
            r.push((entries[i].authority, entries[i].mint_quota));
        }
        i = i + 1;
    }
    proof {
        assert(entries@.take(entries@.len() as int) =~= entries@);
    }
    r
}

} // verus!
