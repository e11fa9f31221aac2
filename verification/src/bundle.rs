//! Bundles of coins, compared without regard to order.

use vstd::prelude::*;
use vstd::multiset::Multiset;
use crate::state::{coins_view, Coin};

verus! {

/// The coins of a list as a multiset of pairs of denomination and amount.
pub open spec fn bundle_of(coins: Seq<Coin>) -> Multiset<(Seq<char>, nat)> {
    coins_view(coins).to_multiset()
}

proof fn lemma_bundle_step(coins: Seq<Coin>, i: int)
    requires
        0 <= i < coins.len(),
    ensures
        bundle_of(coins.take(i + 1)) == bundle_of(coins.take(i)).insert(coins[i]@),
{
    broadcast use vstd::seq_lib::group_to_multiset_ensures;
    assert(coins_view(coins.take(i + 1)) =~= coins_view(coins.take(i)).push(coins[i]@));
}

/// How often a coin of this denomination and amount occurs in the list.
fn count_of(coins: &Vec<Coin>, coin: &Coin) -> (n: usize)
    ensures
        n == bundle_of(coins@).count(coin@),
{
    let mut n: usize = 0;
    let mut i: usize = 0;
    proof {
        broadcast use vstd::seq_lib::group_to_multiset_ensures;
        assert(coins_view(coins@.take(0)) =~= Seq::empty());
    }
    while i < coins.len()
        invariant
            i <= coins.len(),
            n <= i,
            n == bundle_of(coins@.take(i as int)).count(coin@),
        decreases coins.len() - i,
    {
        proof {
            lemma_bundle_step(coins@, i as int);
        }
        if coins[i].same_as(coin) {
            n += 1;
        }
        i += 1;
    }
    assert(coins@.take(coins.len() as int) =~= coins@);
    n
}

/// Whether every coin of `left` occurs as often in `right` as in `left`.
fn counts_agree(left: &Vec<Coin>, right: &Vec<Coin>) -> (agree: bool)
    ensures
        agree == (forall|k: int|
            0 <= k < left.len() ==> bundle_of(left@).count(#[trigger] left@[k]@) == bundle_of(
                right@,
            ).count(left@[k]@)),
{
    let mut i: usize = 0;
    while i < left.len()
        invariant
            i <= left.len(),
            forall|k: int|
                0 <= k < i ==> bundle_of(left@).count(#[trigger] left@[k]@) == bundle_of(
                    right@,
                ).count(left@[k]@),
        decreases left.len() - i,
    {
        if count_of(left, &left[i]) != count_of(right, &left[i]) {
            return false;
        }
        i += 1;
    }
    true
}

/// A value that the multiset of a list holds is the value of one of its coins.
proof fn lemma_counted_coin_occurs(coins: Seq<Coin>, v: (Seq<char>, nat))
    requires
        bundle_of(coins).count(v) > 0,
    ensures
        exists|k: int| 0 <= k < coins.len() && #[trigger] coins[k]@ == v,
{
    broadcast use vstd::seq_lib::group_to_multiset_ensures;
    let s = coins_view(coins);
    assert(s.contains(v));
    let k = choose|k: int| 0 <= k < s.len() && s[k] == v;
    assert(coins[k]@ == v);
}

/// Whether two lists hold the same coins, each as often, in any order.
pub fn same_bundle(left: &Vec<Coin>, right: &Vec<Coin>) -> (same: bool)
    ensures
        same == (bundle_of(left@) == bundle_of(right@)),
{
    let same = counts_agree(left, right) && counts_agree(right, left);
    proof {
        if same {
            assert forall|v: (Seq<char>, nat)|
                bundle_of(left@).count(v) == bundle_of(right@).count(v) by {
                if bundle_of(left@).count(v) > 0 {
                    lemma_counted_coin_occurs(left@, v);
                } else if bundle_of(right@).count(v) > 0 {
                    lemma_counted_coin_occurs(right@, v);
                }
            }
            assert(bundle_of(left@) =~= bundle_of(right@));
        }
    }
    same
}

} // verus!
