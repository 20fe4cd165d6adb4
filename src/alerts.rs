use vstd::prelude::*;

use crate::text::join;
use crate::types::{AlertDirection, Coin, NotificationMethod, PriceAlert};

verus! {

/// Position of the first asset with identifier `id` at or after `k`.
pub open spec fn first_coin_from(coins: Seq<Coin>, id: Seq<char>, k: int) -> Option<int>
    decreases coins.len() - k,
{
    if k < 0 || k >= coins.len() {
        None
    } else if coins[k].id@ == id {
        Some(k)
    } else {
        first_coin_from(coins, id, k + 1)
    }
}

pub open spec fn first_coin(coins: Seq<Coin>, id: Seq<char>) -> Option<int> {
    first_coin_from(coins, id, 0)
}

proof fn lemma_first_coin_from(coins: Seq<Coin>, id: Seq<char>, k: int)
    requires
        0 <= k,
    ensures
        first_coin_from(coins, id, k) is Some ==> {
            let c = first_coin_from(coins, id, k).unwrap();
            k <= c < coins.len() && coins[c].id@ == id
        },
    decreases coins.len() - k,
{
    if k < coins.len() && coins[k].id@ != id {
        lemma_first_coin_from(coins, id, k + 1);
    }
}

pub proof fn lemma_first_coin_found(coins: Seq<Coin>, id: Seq<char>, j: int, k: int)
    requires
        0 <= j <= k < coins.len(),
        coins[k].id@ == id,
    ensures
        first_coin_from(coins, id, j).is_some(),
    decreases k - j,
{
    if j < k && coins[j].id@ != id {
        lemma_first_coin_found(coins, id, j + 1, k);
    }
}

/// Finds the first asset with the given identifier.
pub fn find_coin(coins: &Vec<Coin>, id: &String) -> (r: Option<usize>)
    ensures
        r.is_some() == first_coin(coins@, id@).is_some(),
        r.is_some() ==> r.unwrap() as int == first_coin(coins@, id@).unwrap() && r.unwrap() < coins@.len(),
{
    let mut k: usize = 0;
    while k < coins.len()
        invariant
            k <= coins@.len(),
            first_coin(coins@, id@) == first_coin_from(coins@, id@, k as int),
        decreases coins@.len() - k,
    {
        if coins[k].id == *id {
            return Some(k);
        }
        k = k + 1;
    }
    None
}

/// The trigger condition: `Above` fires at or over the target, `Below` at
/// or under it.
pub open spec fn crosses(direction: AlertDirection, target: u64, price: u64) -> bool {
    match direction {
        AlertDirection::Above => price >= target,
        AlertDirection::Below => price <= target,
    }
}

pub fn alert_crosses(direction: AlertDirection, target: u64, price: u64) -> (r: bool)
    ensures
        r == crosses(direction, target, price),
{
    match direction {
        AlertDirection::Above => price >= target,
        AlertDirection::Below => price <= target,
    }
}

/// An armed alert fires when its asset is in the snapshot and the asset's
/// price crosses the target. A triggered alert never fires again.
pub open spec fn fires(alert: PriceAlert, coins: Seq<Coin>) -> bool {
    !alert.triggered && match first_coin(coins, alert.coin_id@) {
        Some(c) => crosses(alert.direction, alert.target_price, coins[c].current_price),
        None => false,
    }
}

/// The alert after one evaluation against `coins`.
pub open spec fn evaluated_alert(alert: PriceAlert, coins: Seq<Coin>) -> PriceAlert {
    PriceAlert { triggered: alert.triggered || fires(alert, coins), ..alert }
}

pub open spec fn evaluated(alerts: Seq<PriceAlert>, coins: Seq<Coin>) -> Seq<PriceAlert> {
    Seq::new(alerts.len(), |k: int| evaluated_alert(alerts[k], coins))
}

/// The (alert position, asset position) pairs that fire among the first
/// `n` alerts, in order.
pub open spec fn firings(alerts: Seq<PriceAlert>, coins: Seq<Coin>, n: nat) -> Seq<(usize, usize)>
    decreases n,
{
    if n == 0 {
        Seq::empty()
    } else {
        let prev = firings(alerts, coins, (n - 1) as nat);
        if fires(alerts[n - 1], coins) {
            prev.push(((n - 1) as usize, first_coin(coins, alerts[n - 1].coin_id@).unwrap() as usize))
        } else {
            prev
        }
    }
}

proof fn lemma_no_firings(alerts: Seq<PriceAlert>, coins: Seq<Coin>, n: nat)
    requires
        n <= alerts.len(),
        forall|k: int| 0 <= k < n ==> !fires(#[trigger] alerts[k], coins),
    ensures
        firings(alerts, coins, n) == Seq::<(usize, usize)>::empty(),
    decreases n,
{
    if n > 0 {
        lemma_no_firings(alerts, coins, (n - 1) as nat);
    }
}

/// Evaluating alerts is idempotent and one-way: a second evaluation against
/// the same snapshot fires nothing and changes nothing, and no triggered
/// alert is ever re-armed.
pub proof fn lemma_alert_evaluation_idempotent(alerts: Seq<PriceAlert>, coins: Seq<Coin>)
    ensures
        firings(evaluated(alerts, coins), coins, alerts.len()) == Seq::<(usize, usize)>::empty(),
        evaluated(evaluated(alerts, coins), coins) == evaluated(alerts, coins),
        forall|k: int|
            0 <= k < alerts.len() && #[trigger] alerts[k].triggered ==> evaluated(alerts, coins)[k].triggered,
{
    let once = evaluated(alerts, coins);
    assert forall|k: int| 0 <= k < once.len() implies !fires(#[trigger] once[k], coins) by {}
    lemma_no_firings(once, coins, alerts.len());
    assert(evaluated(once, coins) =~= once);
}

/// Marks every alert that fires against `coins` as triggered (the only
/// change made) and returns, in alert order, the position of each alert
/// that fired with the position of its asset.
pub fn check_alerts(alerts: &mut Vec<PriceAlert>, coins: &Vec<Coin>) -> (r: Vec<(usize, usize)>)
    ensures
        final(alerts)@ == evaluated(old(alerts)@, coins@),
        r@ == firings(old(alerts)@, coins@, old(alerts)@.len()),
        forall|t: int|
            0 <= t < r@.len() ==> (#[trigger] r@[t]).0 < old(alerts)@.len() && r@[t].1 < coins@.len(),
{
    let ghost before = alerts@;
    let mut fired: Vec<(usize, usize)> = Vec::new();
    let n = alerts.len();
    let mut k: usize = 0;
    while k < n
        invariant
            n == before.len(),
            alerts@.len() == n,
            k <= n,
            forall|t: int| 0 <= t < k ==> #[trigger] alerts@[t] == evaluated_alert(before[t], coins@),
            forall|t: int| k <= t < n ==> #[trigger] alerts@[t] == before[t],
            fired@ == firings(before, coins@, k as nat),
            forall|t: int| 0 <= t < fired@.len() ==> (#[trigger] fired@[t]).0 < n && fired@[t].1 < coins@.len(),
        decreases n - k,
    {
        if !alerts[k].triggered {
            match find_coin(coins, &alerts[k].coin_id) {
                Some(c) => {
                    if alert_crosses(alerts[k].direction, alerts[k].target_price, coins[c].current_price) {
                        let a = PriceAlert {
                            coin_id: alerts[k].coin_id.clone(),
                            target_price: alerts[k].target_price,
                            direction: alerts[k].direction,
                            triggered: true,
                        };
                        alerts.set(k, a);
                        fired.push((k, c));
                    }
                },
                None => {},
            }
        }
        k = k + 1;
    }
    proof {
        assert(alerts@ =~= evaluated(before, coins@));
    }
    fired
}

/// Which channels an alert notification goes to: `(desktop, topic push)`.
/// The topic channel needs a non-empty topic.
pub fn notification_channels(method: NotificationMethod, topic: &String) -> (r: (bool, bool))
    ensures
        r.0 == (method == NotificationMethod::Desktop || method == NotificationMethod::Both),
        r.1 == ((method == NotificationMethod::Ntfy || method == NotificationMethod::Both) && topic@.len() > 0),
{
    let has_topic = !topic.as_str().is_empty();
    match method {
        NotificationMethod::Off => (false, false),
        NotificationMethod::Desktop => (true, false),
        NotificationMethod::Ntfy => (false, has_topic),
        NotificationMethod::Both => (true, has_topic),
    }
}

/// The title of an alert notification: `bags: <asset name> alert`.
pub fn alert_title(coin_name: &str) -> (r: String)
    ensures
        r@ == "bags: "@ + coin_name@ + " alert"@,
{
    let head = join("bags: ", coin_name);
    join(head.as_str(), " alert")
}

} // verus!
