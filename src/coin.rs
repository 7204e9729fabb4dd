use vstd::prelude::*;
use vstd::seq_lib::{group_to_multiset_ensures, to_multiset_build, to_multiset_contains, to_multiset_remove};

verus! {

/// An amount of one asset denomination.
#[derive(Debug, PartialEq, Eq)]
pub struct Coin {
    pub denom: String,
    pub amount: u128,
}

/// The mathematical value of a [`Coin`].
pub struct CoinView {
    pub denom: Seq<char>,
    pub amount: u128,
}

impl View for Coin {
    type V = CoinView;

    open spec fn view(&self) -> CoinView {
        CoinView { denom: self.denom@, amount: self.amount }
    }
}

/// The value of a list of coins, in order.
pub open spec fn coins_view(v: Seq<Coin>) -> Seq<CoinView> {
    v.map_values(|c: Coin| c@)
}

impl Clone for Coin {
    fn clone(&self) -> (r: Self)
        ensures
            r == *self,
    {
        Coin { denom: self.denom.clone(), amount: self.amount }
    }
}

impl Coin {
    pub fn new(amount: u128, denom: &str) -> (r: Coin)
        ensures
            r@ == (CoinView { denom: denom@, amount }),
    {
        Coin { denom: denom.to_owned(), amount }
    }
}

/// Copies a list of coins.
pub fn copy_coins(v: &Vec<Coin>) -> (r: Vec<Coin>)
    ensures
        r@ == v@,
{
    let r = v.clone();
    assert(r@ =~= v@);
    r
}

/// A prefix of a list holds each coin at most as often as the whole list.
proof fn lemma_prefix_count_le(s: Seq<CoinView>, k: int, x: CoinView)
    requires
        0 <= k <= s.len(),
    ensures
        s.take(k).to_multiset().count(x) <= s.to_multiset().count(x),
    decreases s.len() - k,
{
    broadcast use group_to_multiset_ensures;

    if k < s.len() {
        assert(s.take(k + 1) =~= s.take(k).push(s[k]));
        assert(s.take(k).push(s[k]).to_multiset() =~= s.take(k).to_multiset().insert(s[k]));
        lemma_prefix_count_le(s, k + 1, x);
    } else {
        assert(s.take(k) =~= s);
    }
}

/// Whether two lists hold the same coins, each as often, in any order.
pub fn same_funds(a: &Vec<Coin>, b: &Vec<Coin>) -> (r: bool)
    ensures
        r == (coins_view(a@).to_multiset() == coins_view(b@).to_multiset()),
{
    broadcast use group_to_multiset_ensures;

    // The coins of `b` that no coin of `a` has claimed yet.
    let mut rest = copy_coins(b);
    let mut i: usize = 0;
    assert(coins_view(a@.take(0)) =~= Seq::<CoinView>::empty());
    assert(coins_view(b@).to_multiset() =~= coins_view(a@.take(0)).to_multiset().add(
        coins_view(rest@).to_multiset(),
    ));
    while i < a.len()
        invariant
            i <= a@.len(),
            coins_view(b@).to_multiset() == coins_view(a@.take(i as int)).to_multiset().add(
                coins_view(rest@).to_multiset(),
            ),
        decreases a@.len() - i,
    {
        let ghost x = a@[i as int]@;
        let mut j: usize = 0;
        while j < rest.len()
            invariant
                j <= rest@.len(),
                i < a@.len(),
                x == a@[i as int]@,
                forall|k: int| 0 <= k < j ==> rest@[k]@ != x,
                coins_view(b@).to_multiset() == coins_view(a@.take(i as int)).to_multiset().add(
                    coins_view(rest@).to_multiset(),
                ),
            ensures
                j <= rest@.len(),
                j < rest@.len() ==> rest@[j as int]@ == x,
                forall|k: int| 0 <= k < j ==> rest@[k]@ != x,
                coins_view(b@).to_multiset() == coins_view(a@.take(i as int)).to_multiset().add(
                    coins_view(rest@).to_multiset(),
                ),
            decreases rest@.len() - j,
        {
            if rest[j].amount == a[i].amount && rest[j].denom == a[i].denom {
                break;
            }
            j = j + 1;
        }
        assert(coins_view(a@.take(i as int + 1)) =~= coins_view(a@.take(i as int)).push(x));
        if j == rest.len() {
            proof {
                let rv = coins_view(rest@);
                assert forall|k: int| 0 <= k < rv.len() implies rv[k] != x by {
                    assert(rest@[k]@ != x);
                }
                assert(!rv.contains(x));
                to_multiset_contains(rv, x);
                let mt = coins_view(a@.take(i as int)).to_multiset();
                assert(coins_view(b@).to_multiset().count(x) == mt.count(x));
                to_multiset_build(coins_view(a@.take(i as int)), x);
                assert(coins_view(a@.take(i as int + 1)).to_multiset().count(x) == mt.count(x) + 1);
                lemma_prefix_count_le(coins_view(a@), i as int + 1, x);
                assert(coins_view(a@).take(i as int + 1) =~= coins_view(a@.take(i as int + 1)));
                assert(coins_view(a@).to_multiset().count(x) > coins_view(
                    b@,
                ).to_multiset().count(x));
            }
            return false;
        }
        let ghost before = coins_view(rest@);
        assert(before[j as int] == x);
        rest.remove(j);
        assert(coins_view(rest@) =~= before.remove(j as int));
        proof {
            to_multiset_remove(before, j as int);
            to_multiset_build(coins_view(a@.take(i as int)), x);
            assert(before.contains(x));
            to_multiset_contains(before, x);
        }
        assert(coins_view(b@).to_multiset() =~= coins_view(a@.take(i as int + 1)).to_multiset().add(
            coins_view(rest@).to_multiset(),
        ));
        i = i + 1;
    }
    assert(a@.take(a@.len() as int) =~= a@);
    assert(coins_view(a@.take(a@.len() as int)) =~= coins_view(a@));
    if rest.len() == 0 {
        assert(coins_view(rest@) =~= Seq::<CoinView>::empty());
        assert(coins_view(b@).to_multiset() =~= coins_view(a@).to_multiset());
        true
    } else {
        proof {
            let y = coins_view(rest@)[0];
            assert(coins_view(rest@).contains(y));
            assert(coins_view(rest@).to_multiset().count(y) > 0);
            assert(coins_view(a@.take(a@.len() as int)) =~= coins_view(a@));
            assert(coins_view(b@).to_multiset().count(y) > coins_view(a@).to_multiset().count(y));
        }
        false
    }
}

} // verus!
