use vstd::prelude::*;

use crate::alerts::{find_coin, first_coin};
use crate::types::{Coin, Holding, PRICE_ONE};

verus! {

/// The first holding recorded for asset `id`.
pub open spec fn holding_of(hs: Seq<Holding>, id: Seq<char>) -> Option<Holding>
    decreases hs.len(),
{
    if hs.len() == 0 {
        None
    } else if hs[0].coin_id@ == id {
        Some(hs[0])
    } else {
        holding_of(hs.drop_first(), id)
    }
}

/// Quantity held of `id`; zero when nothing is recorded.
pub open spec fn amount_of(hs: Seq<Holding>, id: Seq<char>) -> u64 {
    match holding_of(hs, id) {
        Some(h) => h.amount,
        None => 0,
    }
}

/// Recorded buy-in price of `id`, if any.
pub open spec fn buy_price_of(hs: Seq<Holding>, id: Seq<char>) -> Option<u64> {
    match holding_of(hs, id) {
        Some(h) => h.buy_price,
        None => None,
    }
}

proof fn lemma_holding_of_prefix(hs: Seq<Holding>, id: Seq<char>, k: int)
    requires
        0 <= k <= hs.len(),
        forall|t: int| 0 <= t < k ==> (#[trigger] hs[t]).coin_id@ != id,
    ensures
        holding_of(hs, id) == holding_of(hs.subrange(k, hs.len() as int), id),
    decreases k,
{
    if k > 0 {
        assert(hs.drop_first().subrange(k - 1, hs.drop_first().len() as int) =~= hs.subrange(k, hs.len() as int));
        assert forall|t: int| 0 <= t < k - 1 implies (#[trigger] hs.drop_first()[t]).coin_id@ != id by {
            assert(hs.drop_first()[t] == hs[t + 1]);
        }
        lemma_holding_of_prefix(hs.drop_first(), id, k - 1);
    } else {
        assert(hs.subrange(0, hs.len() as int) =~= hs);
    }
}

proof fn lemma_holding_of_remove(hs: Seq<Holding>, id: Seq<char>, k: int)
    requires
        0 <= k < hs.len(),
        hs[k].coin_id@ != id,
    ensures
        holding_of(hs.remove(k), id) == holding_of(hs, id),
    decreases k,
{
    if k == 0 {
        assert(hs.remove(0) =~= hs.drop_first());
    } else {
        assert(hs.remove(k)[0] == hs[0]);
        assert(hs.remove(k).drop_first() =~= hs.drop_first().remove(k - 1));
        lemma_holding_of_remove(hs.drop_first(), id, k - 1);
    }
}

proof fn lemma_holding_of_update(hs: Seq<Holding>, id: Seq<char>, k: int, h: Holding)
    requires
        0 <= k < hs.len(),
        h.coin_id@ == hs[k].coin_id@,
        forall|t: int| 0 <= t < k ==> (#[trigger] hs[t]).coin_id@ != hs[k].coin_id@,
    ensures
        id != h.coin_id@ ==> holding_of(hs.update(k, h), id) == holding_of(hs, id),
        holding_of(hs.update(k, h), h.coin_id@) == Some(h),
    decreases k,
{
    if k == 0 {
        assert(hs.update(0, h).drop_first() =~= hs.drop_first());
    } else {
        assert(hs.update(k, h)[0] == hs[0]);
        assert(hs.update(k, h).drop_first() =~= hs.drop_first().update(k - 1, h));
        assert forall|t: int| 0 <= t < k - 1 implies (#[trigger] hs.drop_first()[t]).coin_id@ != hs.drop_first()[k - 1].coin_id@ by {
            assert(hs.drop_first()[t] == hs[t + 1]);
        }
        lemma_holding_of_update(hs.drop_first(), id, k - 1, h);
    }
}

proof fn lemma_holding_of_push(hs: Seq<Holding>, id: Seq<char>, h: Holding)
    ensures
        holding_of(hs.push(h), id) == if holding_of(hs, id).is_some() {
            holding_of(hs, id)
        } else if h.coin_id@ == id {
            Some(h)
        } else {
            None
        },
    decreases hs.len(),
{
    if hs.len() == 0 {
        assert(hs.push(h).drop_first() =~= hs);
    } else {
        assert(hs.push(h)[0] == hs[0]);
        assert(hs.push(h).drop_first() =~= hs.drop_first().push(h));
        lemma_holding_of_push(hs.drop_first(), id, h);
    }
}

/// Position of the first holding of `id`.
fn find_holding(holdings: &Vec<Holding>, id: &String) -> (r: Option<usize>)
    ensures
        r.is_none() ==> holding_of(holdings@, id@).is_none(),
        r.is_some() ==> {
            let k = r.unwrap() as int;
            &&& k < holdings@.len()
            &&& holding_of(holdings@, id@) == Some(holdings@[k])
            &&& holdings@[k].coin_id@ == id@
            &&& forall|t: int| 0 <= t < k ==> (#[trigger] holdings@[t]).coin_id@ != id@
        },
{
    let mut k: usize = 0;
    while k < holdings.len()
        invariant
            k <= holdings@.len(),
            forall|t: int| 0 <= t < k ==> (#[trigger] holdings@[t]).coin_id@ != id@,
        decreases holdings@.len() - k,
    {
        if holdings[k].coin_id == *id {
            proof {
                lemma_holding_of_prefix(holdings@, id@, k as int);
            }
            return Some(k);
        }
        k = k + 1;
    }
    proof {
        lemma_holding_of_prefix(holdings@, id@, k as int);
    }
    None
}

/// Quantity held of `coin_id`, zero when none.
pub fn holding_for(holdings: &Vec<Holding>, coin_id: &String) -> (r: u64)
    ensures
        r == amount_of(holdings@, coin_id@),
{
    match find_holding(holdings, coin_id) {
        Some(k) => holdings[k].amount,
        None => 0,
    }
}

/// Recorded buy-in price of `coin_id`, if any.
pub fn buy_price_for(holdings: &Vec<Holding>, coin_id: &String) -> (r: Option<u64>)
    ensures
        r == buy_price_of(holdings@, coin_id@),
{
    match find_holding(holdings, coin_id) {
        Some(k) => holdings[k].buy_price,
        None => None,
    }
}

/// The buy-in price to record with a quantity edit: the current price when
/// a position is opened (nothing held before, a positive quantity now),
/// otherwise none, so that a price already recorded stays.
pub fn auto_buy_price(existing: u64, amount: u64, current_price: u64) -> (r: Option<u64>)
    ensures
        r == if existing == 0 && amount > 0 {
            Some(current_price)
        } else {
            None
        },
{
    if existing == 0 && amount > 0 {
        Some(current_price)
    } else {
        None
    }
}

/// Records `amount` of `coin_id` the way the store does: a zero quantity
/// deletes the asset's holdings; otherwise the holding is inserted or
/// updated, and a `buy_price` of `None` keeps the one already recorded.
pub fn set_holding(holdings: &mut Vec<Holding>, coin_id: &String, amount: u64, buy_price: Option<u64>)
    ensures
        amount == 0 ==> holding_of(final(holdings)@, coin_id@).is_none(),
        amount > 0 ==> amount_of(final(holdings)@, coin_id@) == amount,
        amount > 0 ==> buy_price_of(final(holdings)@, coin_id@) == match buy_price {
            Some(p) => Some(p),
            None => buy_price_of(old(holdings)@, coin_id@),
        },
        forall|id: Seq<char>|
            id != coin_id@ ==> #[trigger] holding_of(final(holdings)@, id) == holding_of(old(holdings)@, id),
{
    if amount == 0 {
        let mut k: usize = 0;
        while k < holdings.len()
            invariant
                k <= holdings@.len(),
                forall|t: int| 0 <= t < k ==> (#[trigger] holdings@[t]).coin_id@ != coin_id@,
                forall|id: Seq<char>|
                    id != coin_id@ ==> #[trigger] holding_of(holdings@, id) == holding_of(old(holdings)@, id),
            decreases holdings@.len() - k,
        {
            if holdings[k].coin_id == *coin_id {
                let ghost prev = holdings@;
                holdings.remove(k);
                proof {
                    assert forall|id: Seq<char>| id != coin_id@ implies #[trigger] holding_of(holdings@, id) == holding_of(old(holdings)@, id) by {
                        lemma_holding_of_remove(prev, id, k as int);
                    }
                    assert forall|t: int| 0 <= t < k implies (#[trigger] holdings@[t]).coin_id@ != coin_id@ by {
                        assert(holdings@[t] == prev[t]);
                    }
                }
            } else {
                k = k + 1;
            }
        }
        proof {
            lemma_holding_of_prefix(holdings@, coin_id@, k as int);
            assert(holdings@.subrange(k as int, holdings@.len() as int).len() == 0);
        }
    } else {
        match find_holding(holdings, coin_id) {
            Some(k) => {
                let kept = match buy_price {
                    Some(p) => Some(p),
                    None => holdings[k].buy_price,
                };
                let h = Holding { coin_id: holdings[k].coin_id.clone(), amount, buy_price: kept };
                let ghost prev = holdings@;
                holdings.set(k, h);
                proof {
                    assert(holdings@ == prev.update(k as int, h));
                    lemma_holding_of_update(prev, coin_id@, k as int, h);
                    assert forall|id: Seq<char>| id != coin_id@ implies #[trigger] holding_of(holdings@, id) == holding_of(old(holdings)@, id) by {
                        lemma_holding_of_update(prev, id, k as int, h);
                    }
                }
            },
            None => {
                let h = Holding { coin_id: coin_id.clone(), amount, buy_price };
                let ghost prev = holdings@;
                holdings.push(h);
                proof {
                    lemma_holding_of_push(prev, coin_id@, h);
                    assert forall|id: Seq<char>| id != coin_id@ implies #[trigger] holding_of(holdings@, id) == holding_of(old(holdings)@, id) by {
                        lemma_holding_of_push(prev, id, h);
                    }
                }
            },
        }
    }
}

/// A quantity edit for one asset at its current price: records the new
/// quantity, with the current price as buy-in price when the position is
/// opened. Returns the buy-in price handed to the store.
pub fn edit_holding(holdings: &mut Vec<Holding>, coin_id: &String, amount: u64, current_price: u64) -> (r: Option<u64>)
    ensures
        r == (if amount_of(old(holdings)@, coin_id@) == 0 && amount > 0 {
            Some(current_price)
        } else {
            None
        }),
        amount == 0 ==> holding_of(final(holdings)@, coin_id@).is_none(),
        amount > 0 ==> amount_of(final(holdings)@, coin_id@) == amount,
        amount > 0 && amount_of(old(holdings)@, coin_id@) == 0 ==> buy_price_of(final(holdings)@, coin_id@)
            == Some(current_price),
        amount > 0 && amount_of(old(holdings)@, coin_id@) > 0 ==> buy_price_of(final(holdings)@, coin_id@)
            == buy_price_of(old(holdings)@, coin_id@),
        forall|id: Seq<char>|
            id != coin_id@ ==> #[trigger] holding_of(final(holdings)@, id) == holding_of(old(holdings)@, id),
{
    let existing = holding_for(holdings, coin_id);
    let buy = auto_buy_price(existing, amount, current_price);
    set_holding(holdings, coin_id, amount, buy);
    buy
}

/// Market value of the holdings of assets in the snapshot: the sum over
/// holdings of `price * amount / PRICE_ONE` (fixed-point), saturating.
pub open spec fn value_of(h: Holding, coins: Seq<Coin>) -> int {
    match first_coin(coins, h.coin_id@) {
        Some(c) => (coins[c].current_price as int) * (h.amount as int) / (PRICE_ONE as int),
        None => 0,
    }
}

pub open spec fn portfolio_value(hs: Seq<Holding>, coins: Seq<Coin>, n: nat) -> int
    decreases n,
{
    if n == 0 {
        0
    } else {
        portfolio_value(hs, coins, (n - 1) as nat) + value_of(hs[n - 1], coins)
    }
}

proof fn lemma_portfolio_value_monotone(hs: Seq<Holding>, coins: Seq<Coin>, n: nat)
    ensures
        portfolio_value(hs, coins, n) >= 0,
    decreases n,
{
    if n > 0 {
        lemma_portfolio_value_monotone(hs, coins, (n - 1) as nat);
        let h = hs[n - 1];
        match first_coin(coins, h.coin_id@) {
            Some(c) => {
                assert((coins[c].current_price as int) * (h.amount as int) >= 0) by (nonlinear_arith)
                    requires
                        coins[c].current_price >= 0,
                        h.amount >= 0,
                ;
            },
            None => {},
        }
    }
}

/// Total market value of the holdings (fixed-point), capped at `u128::MAX`.
pub fn total_portfolio_value(holdings: &Vec<Holding>, coins: &Vec<Coin>) -> (r: u128)
    ensures
        r == if portfolio_value(holdings@, coins@, holdings@.len()) > u128::MAX {
            u128::MAX as int
        } else {
            portfolio_value(holdings@, coins@, holdings@.len())
        },
{
    let mut total: u128 = 0;
    let mut saturated = false;
    let mut k: usize = 0;
    while k < holdings.len()
        invariant
            k <= holdings@.len(),
            saturated ==> total == u128::MAX && portfolio_value(holdings@, coins@, k as nat) > u128::MAX,
            !saturated ==> total == portfolio_value(holdings@, coins@, k as nat),
        decreases holdings@.len() - k,
    {
        let h = &holdings[k];
        let v: u128 = match find_coin(coins, &h.coin_id) {
            Some(c) => {
                let p = coins[c].current_price as u128;
                let a = h.amount as u128;
                assert(p * a <= 0xffff_ffff_ffff_ffffu128 * 0xffff_ffff_ffff_ffffu128) by (nonlinear_arith)
                    requires
                        p <= 0xffff_ffff_ffff_ffffu128,
                        a <= 0xffff_ffff_ffff_ffffu128,
                ;
                p * a / (PRICE_ONE as u128)
            },
            None => 0,
        };
        proof {
            lemma_portfolio_value_monotone(holdings@, coins@, k as nat);
            match first_coin(coins@, h.coin_id@) {
                Some(c) => {
                    assert((coins@[c].current_price as int) * (h.amount as int) / (PRICE_ONE as int) >= 0) by (nonlinear_arith)
                        requires
                            coins@[c].current_price >= 0,
                            h.amount >= 0,
                    ;
                },
                None => {},
            }
        }
        if !saturated {
            if total > u128::MAX - v {
                total = u128::MAX;
                saturated = true;
            } else {
                total = total + v;
            }
        }
        k = k + 1;
    }
    total
}

} // verus!
