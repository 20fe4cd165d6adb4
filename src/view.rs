use vstd::prelude::*;

use crate::text::{chars_of, compare_chars, contains_chars, is_substring, lex_cmp, lemma_lex_cmp_antisym, lemma_lex_cmp_trans, lower_of, lowercase};
use crate::types::{Coin, Holding, SortColumn, SortDirection, Tab};

verus! {

// ---------------------------------------------------------------------------
// Tab scoping and filtering
// ---------------------------------------------------------------------------

/// Some holding of the asset `id` has a positive quantity.
pub open spec fn has_position(holdings: Seq<Holding>, id: Seq<char>) -> bool {
    exists|k: int| 0 <= k < holdings.len() && #[trigger] holdings[k].coin_id@ == id && holdings[k].amount > 0
}

/// The asset `id` is in the favourite set.
pub open spec fn is_favourite(favourites: Seq<String>, id: Seq<char>) -> bool {
    exists|k: int| 0 <= k < favourites.len() && #[trigger] favourites[k]@ == id
}

/// The asset belongs to the tab: every asset is on `Markets`; `Favourites`
/// holds favourites and owned assets; `Portfolio` owned assets only.
pub open spec fn in_tab(tab: Tab, coin: Coin, favourites: Seq<String>, holdings: Seq<Holding>) -> bool {
    match tab {
        Tab::Markets => true,
        Tab::Favourites => is_favourite(favourites, coin.id@) || has_position(holdings, coin.id@),
        Tab::Portfolio => has_position(holdings, coin.id@),
    }
}

/// An empty filter keeps every asset; otherwise the asset's name or symbol
/// must contain the filter text, compared in lower case.
pub open spec fn matches_filter(coin: Coin, filter: Seq<char>) -> bool {
    filter.len() == 0 || is_substring(lower_of(filter), lower_of(coin.name@)) || is_substring(
        lower_of(filter),
        lower_of(coin.symbol@),
    )
}

pub open spec fn shown(
    coins: Seq<Coin>,
    tab: Tab,
    favourites: Seq<String>,
    holdings: Seq<Holding>,
    filter: Seq<char>,
    k: int,
) -> bool {
    in_tab(tab, coins[k], favourites, holdings) && matches_filter(coins[k], filter)
}

/// Positions among the first `n` assets that the tab and the filter keep, in
/// provider order.
pub open spec fn shown_rows(
    coins: Seq<Coin>,
    tab: Tab,
    favourites: Seq<String>,
    holdings: Seq<Holding>,
    filter: Seq<char>,
    n: nat,
) -> Seq<usize>
    decreases n,
{
    if n == 0 {
        Seq::empty()
    } else {
        let prev = shown_rows(coins, tab, favourites, holdings, filter, (n - 1) as nat);
        if shown(coins, tab, favourites, holdings, filter, n - 1) {
            prev.push((n - 1) as usize)
        } else {
            prev
        }
    }
}

pub proof fn lemma_shown_rows(
    coins: Seq<Coin>,
    tab: Tab,
    favourites: Seq<String>,
    holdings: Seq<Holding>,
    filter: Seq<char>,
    n: nat,
)
    requires
        n <= usize::MAX,
    ensures
        forall|p: int|
            0 <= p < shown_rows(coins, tab, favourites, holdings, filter, n).len() ==> {
                let x = #[trigger] shown_rows(coins, tab, favourites, holdings, filter, n)[p];
                x < n && shown(coins, tab, favourites, holdings, filter, x as int)
            },
        forall|p: int, q: int|
            0 <= p < q < shown_rows(coins, tab, favourites, holdings, filter, n).len() ==> #[trigger] shown_rows(
                coins,
                tab,
                favourites,
                holdings,
                filter,
                n,
            )[p] < #[trigger] shown_rows(coins, tab, favourites, holdings, filter, n)[q],
        forall|x: usize|
            x < n && shown(coins, tab, favourites, holdings, filter, x as int) ==> #[trigger] shown_rows(
                coins,
                tab,
                favourites,
                holdings,
                filter,
                n,
            ).contains(x),
    decreases n,
{
    if n > 0 {
        lemma_shown_rows(coins, tab, favourites, holdings, filter, (n - 1) as nat);
        let prev = shown_rows(coins, tab, favourites, holdings, filter, (n - 1) as nat);
        let cur = shown_rows(coins, tab, favourites, holdings, filter, n);
        assert forall|x: usize|
            x < n && shown(coins, tab, favourites, holdings, filter, x as int) implies #[trigger] cur.contains(x) by {
            if x < n - 1 {
                assert(prev.contains(x));
                let p = choose|p: int| 0 <= p < prev.len() && prev[p] == x;
                assert(cur[p] == x);
            } else {
                assert(cur[cur.len() - 1] == x);
            }
        }
    }
}

// ---------------------------------------------------------------------------
// Sort order
// ---------------------------------------------------------------------------

pub open spec fn int_cmp(a: int, b: int) -> int {
    if a < b {
        -1
    } else if a > b {
        1
    } else {
        0
    }
}

/// Order on optional numbers: a missing value comes before any present one.
pub open spec fn opt_cmp(a: Option<int>, b: Option<int>) -> int {
    match (a, b) {
        (None, None) => 0,
        (None, Some(_)) => -1,
        (Some(_), None) => 1,
        (Some(x), Some(y)) => int_cmp(x, y),
    }
}

pub open spec fn opt_u32(o: Option<u32>) -> Option<int> {
    match o {
        Some(x) => Some(x as int),
        None => None,
    }
}

pub open spec fn opt_i64(o: Option<i64>) -> Option<int> {
    match o {
        Some(x) => Some(x as int),
        None => None,
    }
}

/// Natural (ascending) order of two assets on a column: negative, zero or
/// positive. Names compare case-insensitively.
pub open spec fn key_cmp(col: SortColumn, a: Coin, b: Coin) -> int {
    match col {
        SortColumn::Rank => opt_cmp(opt_u32(a.market_cap_rank), opt_u32(b.market_cap_rank)),
        SortColumn::Name => lex_cmp(lower_of(a.name@), lower_of(b.name@)),
        SortColumn::Price => int_cmp(a.current_price as int, b.current_price as int),
        SortColumn::Change1h => opt_cmp(
            opt_i64(a.price_change_percentage_1h_in_currency),
            opt_i64(b.price_change_percentage_1h_in_currency),
        ),
        SortColumn::Change24h => opt_cmp(
            opt_i64(a.price_change_percentage_24h_in_currency),
            opt_i64(b.price_change_percentage_24h_in_currency),
        ),
        SortColumn::Change7d => opt_cmp(
            opt_i64(a.price_change_percentage_7d_in_currency),
            opt_i64(b.price_change_percentage_7d_in_currency),
        ),
        SortColumn::Volume => int_cmp(a.total_volume as int, b.total_volume as int),
        SortColumn::MarketCap => int_cmp(a.market_cap as int, b.market_cap as int),
    }
}

/// The column order, reversed for a descending sort.
pub open spec fn dir_cmp(col: SortColumn, dir: SortDirection, a: Coin, b: Coin) -> int {
    if dir == SortDirection::Asc {
        key_cmp(col, a, b)
    } else {
        -key_cmp(col, a, b)
    }
}

/// Row `i` strictly precedes row `j` in the sorted view: its key comes first,
/// or the keys are equal and it came first in the provider's order.
pub open spec fn ordered_before(coins: Seq<Coin>, col: SortColumn, dir: SortDirection, i: usize, j: usize) -> bool {
    let c = dir_cmp(col, dir, coins[i as int], coins[j as int]);
    c < 0 || (c == 0 && i < j)
}

/// Every row strictly precedes each row after it: by key, and among equal
/// keys by provider order (the sort is stable).
pub open spec fn sorted_rows(coins: Seq<Coin>, col: SortColumn, dir: SortDirection, s: Seq<usize>) -> bool {
    forall|p: int, q: int| 0 <= p < q < s.len() ==> ordered_before(coins, col, dir, #[trigger] s[p], #[trigger] s[q])
}

pub proof fn lemma_key_cmp(col: SortColumn, a: Coin, b: Coin, c: Coin)
    ensures
        key_cmp(col, a, b) == -key_cmp(col, b, a),
        key_cmp(col, a, a) == 0,
        key_cmp(col, a, b) <= 0 && key_cmp(col, b, c) <= 0 ==> key_cmp(col, a, c) <= 0,
        key_cmp(col, a, b) < 0 && key_cmp(col, b, c) <= 0 ==> key_cmp(col, a, c) < 0,
        key_cmp(col, a, b) <= 0 && key_cmp(col, b, c) < 0 ==> key_cmp(col, a, c) < 0,
{
    lemma_lex_cmp_antisym(lower_of(a.name@), lower_of(b.name@));
    lemma_lex_cmp_antisym(lower_of(a.name@), lower_of(a.name@));
    lemma_lex_cmp_trans(lower_of(a.name@), lower_of(b.name@), lower_of(c.name@));
}

/// `ordered_before` is a strict total order on distinct rows.
pub proof fn lemma_ordered_before(coins: Seq<Coin>, col: SortColumn, dir: SortDirection, x: usize, y: usize, z: usize)
    requires
        x < coins.len(),
        y < coins.len(),
        z < coins.len(),
    ensures
        !ordered_before(coins, col, dir, x, x),
        ordered_before(coins, col, dir, x, y) ==> !ordered_before(coins, col, dir, y, x),
        ordered_before(coins, col, dir, x, y) && ordered_before(coins, col, dir, y, z) ==> ordered_before(
            coins,
            col,
            dir,
            x,
            z,
        ),
        x != y ==> ordered_before(coins, col, dir, x, y) || ordered_before(coins, col, dir, y, x),
        !ordered_before(coins, col, dir, y, x) && !ordered_before(coins, col, dir, z, y) ==> !ordered_before(
            coins,
            col,
            dir,
            z,
            x,
        ),
{
    let a = coins[x as int];
    let b = coins[y as int];
    let c = coins[z as int];
    lemma_key_cmp(col, a, b, c);
    lemma_key_cmp(col, c, b, a);
    lemma_key_cmp(col, b, a, c);
    lemma_key_cmp(col, a, c, b);
    lemma_key_cmp(col, b, c, a);
    lemma_key_cmp(col, c, a, b);
}

/// `r` is `base` sorted: the same rows, in the order of `sorted_rows`.
pub open spec fn is_sorted_view(coins: Seq<Coin>, col: SortColumn, dir: SortDirection, base: Seq<usize>, r: Seq<usize>) -> bool {
    &&& r.len() == base.len()
    &&& forall|x: usize| #[trigger] r.contains(x) <==> base.contains(x)
    &&& sorted_rows(coins, col, dir, r)
}

/// The rows of `base` in sorted order (unique, see `lemma_sorted_unique`).
pub open spec fn sorted_view(coins: Seq<Coin>, col: SortColumn, dir: SortDirection, base: Seq<usize>) -> Seq<usize> {
    choose|r: Seq<usize>| is_sorted_view(coins, col, dir, base, r)
}

/// The displayed rows: the tab- and filter-selected rows in provider order,
/// sorted when a sort column is set.
pub open spec fn view_rows(
    coins: Seq<Coin>,
    tab: Tab,
    favourites: Seq<String>,
    holdings: Seq<Holding>,
    filter: Seq<char>,
    sort_column: Option<SortColumn>,
    sort_direction: SortDirection,
) -> Seq<usize> {
    let base = shown_rows(coins, tab, favourites, holdings, filter, coins.len());
    match sort_column {
        None => base,
        Some(col) => sorted_view(coins, col, sort_direction, base),
    }
}

/// Two strictly sorted sequences of the same rows are equal.
pub proof fn lemma_sorted_unique(coins: Seq<Coin>, col: SortColumn, dir: SortDirection, r1: Seq<usize>, r2: Seq<usize>)
    requires
        forall|k: int| 0 <= k < r1.len() ==> #[trigger] r1[k] < coins.len(),
        forall|k: int| 0 <= k < r2.len() ==> #[trigger] r2[k] < coins.len(),
        sorted_rows(coins, col, dir, r1),
        sorted_rows(coins, col, dir, r2),
        forall|x: usize| #[trigger] r1.contains(x) <==> r2.contains(x),
    ensures
        r1 == r2,
    decreases r1.len(),
{
    if r1.len() == 0 {
        if r2.len() > 0 {
            assert(r2.contains(r2[0]));
            assert(r1.contains(r2[0]) == r2.contains(r2[0]));
        }
        assert(r1 =~= r2);
    } else {
        assert(r1.contains(r1[0]));
        assert(r2.len() > 0);
        let a = r1[0];
        let b = r2[0];
        assert(r2.contains(b));
        assert(r1.contains(b) == r2.contains(b));
        assert(r2.contains(a) == r1.contains(a));
        if a != b {
            let i = choose|i: int| 0 <= i < r1.len() && r1[i] == b;
            let j = choose|j: int| 0 <= j < r2.len() && r2[j] == a;
            assert(i != 0 && j != 0);
            assert(ordered_before(coins, col, dir, r1[0], r1[i]));
            assert(ordered_before(coins, col, dir, r2[0], r2[j]));
            lemma_ordered_before(coins, col, dir, a, b, a);
        }
        let t1 = r1.drop_first();
        let t2 = r2.drop_first();
        assert forall|x: usize| #[trigger] t1.contains(x) <==> t2.contains(x) by {
            if t1.contains(x) {
                let i = choose|i: int| 0 <= i < t1.len() && t1[i] == x;
                assert(r1[i + 1] == x);
                assert(ordered_before(coins, col, dir, r1[0], r1[i + 1]));
                lemma_ordered_before(coins, col, dir, a, a, a);
                assert(r1.contains(x));
                assert(r2.contains(x) == r1.contains(x));
                let j = choose|j: int| 0 <= j < r2.len() && r2[j] == x;
                assert(j != 0);
                assert(t2[j - 1] == x);
            }
            if t2.contains(x) {
                let j = choose|j: int| 0 <= j < t2.len() && t2[j] == x;
                assert(r2[j + 1] == x);
                assert(ordered_before(coins, col, dir, r2[0], r2[j + 1]));
                lemma_ordered_before(coins, col, dir, b, b, b);
                assert(r2.contains(x));
                assert(r1.contains(x) == r2.contains(x));
                let i = choose|i: int| 0 <= i < r1.len() && r1[i] == x;
                assert(i != 0);
                assert(t1[i - 1] == x);
            }
        }
        assert forall|k: int| 0 <= k < t1.len() implies #[trigger] t1[k] < coins.len() by {
            assert(t1[k] == r1[k + 1]);
        }
        assert forall|k: int| 0 <= k < t2.len() implies #[trigger] t2[k] < coins.len() by {
            assert(t2[k] == r2[k + 1]);
        }
        assert forall|p: int, q: int| 0 <= p < q < t1.len() implies ordered_before(coins, col, dir, #[trigger] t1[p], #[trigger] t1[q]) by {
            assert(t1[p] == r1[p + 1] && t1[q] == r1[q + 1]);
        }
        assert forall|p: int, q: int| 0 <= p < q < t2.len() implies ordered_before(coins, col, dir, #[trigger] t2[p], #[trigger] t2[q]) by {
            assert(t2[p] == r2[p + 1] && t2[q] == r2[q + 1]);
        }
        lemma_sorted_unique(coins, col, dir, t1, t2);
        assert(r1 =~= seq![a] + t1);
        assert(r2 =~= seq![b] + t2);
    }
}

pub open spec fn lower_names_of(coins: Seq<Coin>, names: Seq<Vec<char>>) -> bool {
    names.len() == coins.len() && forall|k: int| 0 <= k < coins.len() ==> #[trigger] names[k]@ == lower_of(coins[k].name@)
}

fn cmp_u64(a: u64, b: u64) -> (r: i8)
    ensures
        r as int == int_cmp(a as int, b as int),
{
    if a < b {
        -1
    } else if a > b {
        1
    } else {
        0
    }
}

fn cmp_opt_u32(a: Option<u32>, b: Option<u32>) -> (r: i8)
    ensures
        r as int == opt_cmp(opt_u32(a), opt_u32(b)),
{
    match (a, b) {
        (None, None) => 0,
        (None, Some(_)) => -1,
        (Some(_), None) => 1,
        (Some(x), Some(y)) => if x < y {
            -1
        } else if x > y {
            1
        } else {
            0
        },
    }
}

fn cmp_opt_i64(a: Option<i64>, b: Option<i64>) -> (r: i8)
    ensures
        r as int == opt_cmp(opt_i64(a), opt_i64(b)),
{
    match (a, b) {
        (None, None) => 0,
        (None, Some(_)) => -1,
        (Some(_), None) => 1,
        (Some(x), Some(y)) => if x < y {
            -1
        } else if x > y {
            1
        } else {
            0
        },
    }
}

fn row_before(
    coins: &Vec<Coin>,
    names: &Vec<Vec<char>>,
    col: SortColumn,
    dir: SortDirection,
    i: usize,
    j: usize,
) -> (r: bool)
    requires
        i < coins.len(),
        j < coins.len(),
        lower_names_of(coins@, names@),
    ensures
        r == ordered_before(coins@, col, dir, i, j),
{
    let a = &coins[i];
    let b = &coins[j];
    let c: i8 = match col {
        SortColumn::Rank => cmp_opt_u32(a.market_cap_rank, b.market_cap_rank),
        SortColumn::Name => compare_chars(&names[i], &names[j]),
        SortColumn::Price => cmp_u64(a.current_price, b.current_price),
        SortColumn::Change1h => cmp_opt_i64(
            a.price_change_percentage_1h_in_currency,
            b.price_change_percentage_1h_in_currency,
        ),
        SortColumn::Change24h => cmp_opt_i64(
            a.price_change_percentage_24h_in_currency,
            b.price_change_percentage_24h_in_currency,
        ),
        SortColumn::Change7d => cmp_opt_i64(
            a.price_change_percentage_7d_in_currency,
            b.price_change_percentage_7d_in_currency,
        ),
        SortColumn::Volume => cmp_u64(a.total_volume, b.total_volume),
        SortColumn::MarketCap => cmp_u64(a.market_cap, b.market_cap),
    };
    proof {
        lemma_lex_cmp_antisym(lower_of(a.name@), lower_of(b.name@));
    }
    let d: i8 = match dir {
        SortDirection::Asc => c,
        SortDirection::Desc => -c,
    };
    d < 0 || (d == 0 && i < j)
}

proof fn lemma_contains_split(s: Seq<usize>, m: int, x: usize)
    requires
        0 <= m <= s.len(),
    ensures
        s.contains(x) <==> s.subrange(0, m).contains(x) || s.subrange(m, s.len() as int).contains(x),
{
    if s.contains(x) {
        let p = choose|p: int| 0 <= p < s.len() && s[p] == x;
        if p < m {
            assert(s.subrange(0, m)[p] == x);
        } else {
            assert(s.subrange(m, s.len() as int)[p - m] == x);
        }
    }
    if s.subrange(0, m).contains(x) {
        let p = choose|p: int| 0 <= p < m && #[trigger] s.subrange(0, m)[p] == x;
        assert(s[p] == x);
    }
    if s.subrange(m, s.len() as int).contains(x) {
        let p = choose|p: int| 0 <= p < s.len() - m && #[trigger] s.subrange(m, s.len() as int)[p] == x;
        assert(s[p + m] == x);
    }
}

proof fn lemma_contains_push_prefix(s: Seq<usize>, i: int, x: usize)
    requires
        0 <= i < s.len(),
    ensures
        s.subrange(0, i + 1).contains(x) <==> s.subrange(0, i).contains(x) || x == s[i],
{
    assert(s.subrange(0, i + 1) =~= s.subrange(0, i).push(s[i]));
    if s.subrange(0, i).contains(x) {
        let p = choose|p: int| 0 <= p < i && #[trigger] s.subrange(0, i)[p] == x;
        assert(s.subrange(0, i + 1)[p] == x);
    }
    if x == s[i] {
        assert(s.subrange(0, i + 1)[i] == x);
    }
    if s.subrange(0, i + 1).contains(x) {
        let p = choose|p: int| 0 <= p < i + 1 && #[trigger] s.subrange(0, i + 1)[p] == x;
        if p < i {
            assert(s.subrange(0, i)[p] == x);
        }
    }
}

fn merge_rows(
    coins: &Vec<Coin>,
    names: &Vec<Vec<char>>,
    col: SortColumn,
    dir: SortDirection,
    a: Vec<usize>,
    b: Vec<usize>,
) -> (r: Vec<usize>)
    requires
        lower_names_of(coins@, names@),
        forall|k: int| 0 <= k < a@.len() ==> #[trigger] a@[k] < coins@.len(),
        forall|k: int| 0 <= k < b@.len() ==> #[trigger] b@[k] < coins@.len(),
        forall|x: usize| !(#[trigger] a@.contains(x) && b@.contains(x)),
        sorted_rows(coins@, col, dir, a@),
        sorted_rows(coins@, col, dir, b@),
        a@.len() + b@.len() <= usize::MAX,
    ensures
        r@.len() == a@.len() + b@.len(),
        forall|x: usize| #[trigger] r@.contains(x) <==> a@.contains(x) || b@.contains(x),
        forall|k: int| 0 <= k < r@.len() ==> #[trigger] r@[k] < coins@.len(),
        sorted_rows(coins@, col, dir, r@),
{
    let mut out: Vec<usize> = Vec::new();
    let mut i: usize = 0;
    let mut j: usize = 0;
    while i < a.len() || j < b.len()
        invariant
            lower_names_of(coins@, names@),
            forall|k: int| 0 <= k < a@.len() ==> #[trigger] a@[k] < coins@.len(),
            forall|k: int| 0 <= k < b@.len() ==> #[trigger] b@[k] < coins@.len(),
            forall|x: usize| !(#[trigger] a@.contains(x) && b@.contains(x)),
            sorted_rows(coins@, col, dir, a@),
            sorted_rows(coins@, col, dir, b@),
            i <= a@.len(),
            j <= b@.len(),
            out@.len() == i + j,
            a@.len() + b@.len() <= usize::MAX,
            forall|x: usize|
                #[trigger] out@.contains(x) <==> a@.subrange(0, i as int).contains(x) || b@.subrange(
                    0,
                    j as int,
                ).contains(x),
            forall|k: int| 0 <= k < out@.len() ==> #[trigger] out@[k] < coins@.len(),
            sorted_rows(coins@, col, dir, out@),
            forall|p: int, q: int|
                0 <= p < out@.len() && i <= q < a@.len() ==> ordered_before(
                    coins@,
                    col,
                    dir,
                    #[trigger] out@[p],
                    #[trigger] a@[q],
                ),
            forall|p: int, q: int|
                0 <= p < out@.len() && j <= q < b@.len() ==> ordered_before(
                    coins@,
                    col,
                    dir,
                    #[trigger] out@[p],
                    #[trigger] b@[q],
                ),
        decreases a@.len() + b@.len() - i - j,
    {
        let take_a = if j >= b.len() {
            true
        } else if i >= a.len() {
            false
        } else {
            !row_before(coins, names, col, dir, b[j], a[i])
        };
        let ghost old_out = out@;
        if take_a {
            let x = a[i];
            proof {
                assert(a@.contains(x));
                if j < b@.len() {
                    assert(b@.contains(b@[j as int]));
                    lemma_ordered_before(coins@, col, dir, x, b@[j as int], x);
                }
                assert forall|q: int| j <= q < b@.len() implies ordered_before(coins@, col, dir, x, #[trigger] b@[q]) by {
                    lemma_ordered_before(coins@, col, dir, x, b@[j as int], b@[q]);
                }
                assert forall|q: int| i < q < a@.len() implies ordered_before(coins@, col, dir, x, #[trigger] a@[q]) by {
                }
            }
            out.push(x);
            proof {
                assert forall|x2: usize| #[trigger] out@.contains(x2) <==> a@.subrange(0, i + 1).contains(x2) || b@.subrange(0, j as int).contains(x2) by {
                    lemma_contains_push_prefix(a@, i as int, x2);
                    if old_out.contains(x2) {
                        let p = choose|p: int| 0 <= p < old_out.len() && old_out[p] == x2;
                        assert(out@[p] == x2);
                    }
                    if out@.contains(x2) && x2 != x {
                        let p = choose|p: int| 0 <= p < out@.len() && out@[p] == x2;
                        assert(old_out[p] == x2);
                    }
                    assert(out@[out@.len() - 1] == x);
                }
                assert forall|p: int, q: int| 0 <= p < q < out@.len() implies ordered_before(coins@, col, dir, #[trigger] out@[p], #[trigger] out@[q]) by {
                    if q < out@.len() - 1 {
                        assert(old_out[p] == out@[p] && old_out[q] == out@[q]);
                    } else {
                        assert(old_out[p] == out@[p]);
                    }
                }
            }
            i = i + 1;
        } else {
            let x = b[j];
            proof {
                assert forall|q: int| i <= q < a@.len() implies ordered_before(coins@, col, dir, x, #[trigger] a@[q]) by {
                    lemma_ordered_before(coins@, col, dir, x, a@[i as int], a@[q]);
                }
                assert forall|q: int| j < q < b@.len() implies ordered_before(coins@, col, dir, x, #[trigger] b@[q]) by {
                }
            }
            out.push(x);
            proof {
                assert forall|x2: usize| #[trigger] out@.contains(x2) <==> a@.subrange(0, i as int).contains(x2) || b@.subrange(0, j + 1).contains(x2) by {
                    lemma_contains_push_prefix(b@, j as int, x2);
                    if old_out.contains(x2) {
                        let p = choose|p: int| 0 <= p < old_out.len() && old_out[p] == x2;
                        assert(out@[p] == x2);
                    }
                    if out@.contains(x2) && x2 != x {
                        let p = choose|p: int| 0 <= p < out@.len() && out@[p] == x2;
                        assert(old_out[p] == x2);
                    }
                    assert(out@[out@.len() - 1] == x);
                }
                assert forall|p: int, q: int| 0 <= p < q < out@.len() implies ordered_before(coins@, col, dir, #[trigger] out@[p], #[trigger] out@[q]) by {
                    if q < out@.len() - 1 {
                        assert(old_out[p] == out@[p] && old_out[q] == out@[q]);
                    } else {
                        assert(old_out[p] == out@[p]);
                    }
                }
            }
            j = j + 1;
        }
    }
    assert(a@.subrange(0, a@.len() as int) =~= a@);
    assert(b@.subrange(0, b@.len() as int) =~= b@);
    out
}

/// Stable merge sort of distinct row positions under `ordered_before`.
fn sort_rows(
    coins: &Vec<Coin>,
    names: &Vec<Vec<char>>,
    col: SortColumn,
    dir: SortDirection,
    v: Vec<usize>,
) -> (r: Vec<usize>)
    requires
        lower_names_of(coins@, names@),
        forall|k: int| 0 <= k < v@.len() ==> #[trigger] v@[k] < coins@.len(),
        forall|p: int, q: int| 0 <= p < q < v@.len() ==> #[trigger] v@[p] != #[trigger] v@[q],
    ensures
        r@.len() == v@.len(),
        forall|x: usize| #[trigger] r@.contains(x) <==> v@.contains(x),
        forall|k: int| 0 <= k < r@.len() ==> #[trigger] r@[k] < coins@.len(),
        sorted_rows(coins@, col, dir, r@),
    decreases v@.len(),
{
    if v.len() <= 1 {
        return v;
    }
    let ghost whole = v@;
    let mut left = v;
    let mid = left.len() / 2;
    let right = left.split_off(mid);
    proof {
        assert forall|x: usize| whole.contains(x) <==> left@.contains(x) || right@.contains(x) by {
            lemma_contains_split(whole, mid as int, x);
        }
        assert forall|p: int, q: int| 0 <= p < q < right@.len() implies #[trigger] right@[p] != #[trigger] right@[q] by {
            assert(right@[p] == whole[p + mid] && right@[q] == whole[q + mid]);
        }
    }
    let ls = sort_rows(coins, names, col, dir, left);
    let rs = sort_rows(coins, names, col, dir, right);
    proof {
        assert forall|x: usize| !(#[trigger] ls@.contains(x) && rs@.contains(x)) by {
            if ls@.contains(x) && rs@.contains(x) {
                let p = choose|p: int| 0 <= p < left@.len() && left@[p] == x;
                let q = choose|q: int| 0 <= q < right@.len() && right@[q] == x;
                assert(whole[p] == x && whole[q + mid] == x);
            }
        }
    }
    merge_rows(coins, names, col, dir, ls, rs)
}

// ---------------------------------------------------------------------------
// The view
// ---------------------------------------------------------------------------

/// The characters of `s` in lower case.
pub fn lower_chars(s: &String) -> (r: Vec<char>)
    ensures
        r@ == lower_of(s@),
{
    let l = lowercase(s.as_str());
    chars_of(l.as_str())
}

fn favourite_exec(favourites: &Vec<String>, id: &String) -> (r: bool)
    ensures
        r == is_favourite(favourites@, id@),
{
    let mut k: usize = 0;
    while k < favourites.len()
        invariant
            k <= favourites@.len(),
            forall|t: int| 0 <= t < k ==> #[trigger] favourites@[t]@ != id@,
        decreases favourites@.len() - k,
    {
        if favourites[k] == *id {
            return true;
        }
        k = k + 1;
    }
    false
}

fn position_exec(holdings: &Vec<Holding>, id: &String) -> (r: bool)
    ensures
        r == has_position(holdings@, id@),
{
    let mut k: usize = 0;
    while k < holdings.len()
        invariant
            k <= holdings@.len(),
            forall|t: int| 0 <= t < k ==> !(#[trigger] holdings@[t].coin_id@ == id@ && holdings@[t].amount > 0),
        decreases holdings@.len() - k,
    {
        if holdings[k].coin_id == *id && holdings[k].amount > 0 {
            return true;
        }
        k = k + 1;
    }
    false
}

/// The rows to display, as positions into `coins`: the assets that `tab`
/// scopes in and that `filter` matches, in provider order, then stably
/// sorted on `sort_column` (reversed when descending) if one is set.
pub fn visible_rows(
    coins: &Vec<Coin>,
    tab: Tab,
    favourites: &Vec<String>,
    holdings: &Vec<Holding>,
    filter: &String,
    sort_column: Option<SortColumn>,
    sort_direction: SortDirection,
) -> (r: Vec<usize>)
    ensures
        ({
            let base = shown_rows(coins@, tab, favourites@, holdings@, filter@, coins@.len());
            &&& sort_column.is_none() ==> r@ == base
            &&& sort_column.is_some() ==> {
                &&& r@.len() == base.len()
                &&& forall|x: usize| #[trigger] r@.contains(x) <==> base.contains(x)
                &&& sorted_rows(coins@, sort_column.unwrap(), sort_direction, r@)
            }
        }),
        r@ == view_rows(coins@, tab, favourites@, holdings@, filter@, sort_column, sort_direction),
        forall|k: int| 0 <= k < r@.len() ==> #[trigger] r@[k] < coins@.len(),
        forall|k: int|
            0 <= k < r@.len() ==> in_tab(tab, #[trigger] coins@[r@[k] as int], favourites@, holdings@)
                && matches_filter(coins@[r@[k] as int], filter@),
        sort_column.is_some() ==> forall|p: int, q: int|
            0 <= p < q < r@.len() ==> dir_cmp(
                sort_column.unwrap(),
                sort_direction,
                coins@[#[trigger] r@[p] as int],
                coins@[#[trigger] r@[q] as int],
            ) <= 0 && (key_cmp(sort_column.unwrap(), coins@[r@[p] as int], coins@[r@[q] as int]) == 0
                ==> r@[p] < r@[q]),
{
    let n = coins.len();
    let mut names: Vec<Vec<char>> = Vec::new();
    let mut k: usize = 0;
    while k < n
        invariant
            n == coins@.len(),
            k <= n,
            names@.len() == k,
            forall|t: int| 0 <= t < k ==> #[trigger] names@[t]@ == lower_of(coins@[t].name@),
        decreases n - k,
    {
        names.push(lower_chars(&coins[k].name));
        k = k + 1;
    }
    let filtering = !filter.as_str().is_empty();
    let query = lower_chars(filter);
    let mut rows: Vec<usize> = Vec::new();
    let mut k: usize = 0;
    while k < n
        invariant
            n == coins@.len(),
            k <= n,
            lower_names_of(coins@, names@),
            query@ == lower_of(filter@),
            filtering == (filter@.len() > 0),
            rows@ == shown_rows(coins@, tab, favourites@, holdings@, filter@, k as nat),
        decreases n - k,
    {
        let coin = &coins[k];
        let scoped = match tab {
            Tab::Markets => true,
            Tab::Favourites => favourite_exec(favourites, &coin.id) || position_exec(holdings, &coin.id),
            Tab::Portfolio => position_exec(holdings, &coin.id),
        };
        let keep = scoped && (!filtering || contains_chars(&names[k], &query) || contains_chars(
            &lower_chars(&coin.symbol),
            &query,
        ));
        if keep {
            rows.push(k);
        }
        k = k + 1;
    }
    proof {
        lemma_shown_rows(coins@, tab, favourites@, holdings@, filter@, n as nat);
    }
    let ghost base = rows@;
    let r = match sort_column {
        None => rows,
        Some(col) => sort_rows(coins, &names, col, sort_direction, rows),
    };
    proof {
        assert forall|k: int| 0 <= k < r@.len() implies in_tab(tab, #[trigger] coins@[r@[k] as int], favourites@, holdings@)
            && matches_filter(coins@[r@[k] as int], filter@) by {
            assert(r@.contains(r@[k]));
            let p = choose|p: int| 0 <= p < base.len() && base[p] == r@[k];
        }
        match sort_column {
            Some(col) => {
                assert(is_sorted_view(coins@, col, sort_direction, base, r@));
                let other = sorted_view(coins@, col, sort_direction, base);
                assert(is_sorted_view(coins@, col, sort_direction, base, other));
                assert forall|k: int| 0 <= k < other.len() implies #[trigger] other[k] < coins@.len() by {
                    assert(other.contains(other[k]));
                    let p = choose|p: int| 0 <= p < base.len() && base[p] == other[k];
                }
                lemma_sorted_unique(coins@, col, sort_direction, r@, other);
            },
            None => {},
        }
    }
    r
}

} // verus!
