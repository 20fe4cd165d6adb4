use bags::app::App;
use bags::types::{Coin, Config, Holding, SortColumn, SortDirection, Tab, PRICE_ONE};
use bags::view::visible_rows;

fn coin(id: &str, name: &str, symbol: &str, price: u64, cap: u64) -> Coin {
    Coin {
        id: id.to_string(),
        name: name.to_string(),
        symbol: symbol.to_string(),
        current_price: price * PRICE_ONE,
        market_cap: cap,
        total_volume: 0,
        price_change_percentage_1h_in_currency: None,
        price_change_percentage_24h_in_currency: None,
        price_change_percentage_7d_in_currency: None,
        market_cap_rank: None,
        high_24h: None,
        low_24h: None,
        circulating_supply: None,
        max_supply: None,
    }
}

fn btc_eth() -> Vec<Coin> {
    vec![
        coin("btc", "Bitcoin", "BTC", 50000, 900_000_000_000),
        coin("eth", "Ethereum", "ETH", 3000, 400_000_000_000),
    ]
}

fn rows(coins: &Vec<Coin>, filter: &str, sort: Option<SortColumn>, dir: SortDirection) -> Vec<usize> {
    visible_rows(coins, Tab::Markets, &Vec::new(), &Vec::new(), &filter.to_string(), sort, dir)
}

#[test]
fn provider_order_kept_without_sort() {
    let coins = btc_eth();
    assert_eq!(rows(&coins, "", None, SortDirection::Asc), vec![0, 1]);
}

#[test]
fn price_sort_both_directions() {
    let coins = btc_eth();
    assert_eq!(rows(&coins, "", Some(SortColumn::Price), SortDirection::Desc), vec![0, 1]);
    assert_eq!(rows(&coins, "", Some(SortColumn::Price), SortDirection::Asc), vec![1, 0]);
}

#[test]
fn filter_is_case_insensitive_on_name_or_symbol() {
    let coins = btc_eth();
    assert_eq!(rows(&coins, "ETH", None, SortDirection::Asc), vec![1]);
    assert_eq!(rows(&coins, "bItCo", None, SortDirection::Asc), vec![0]);
    assert_eq!(rows(&coins, "btc", None, SortDirection::Asc), vec![0]);
    assert_eq!(rows(&coins, "xyz", None, SortDirection::Asc), Vec::<usize>::new());
}

#[test]
fn filtered_rows_all_contain_the_filter() {
    let coins = vec![
        coin("a", "Alpha", "ALP", 1, 1),
        coin("b", "Beta", "BET", 2, 2),
        coin("c", "Alphabet", "ABC", 3, 3),
    ];
    let r = rows(&coins, "alp", Some(SortColumn::Price), SortDirection::Desc);
    assert_eq!(r, vec![2, 0]);
    for k in r {
        let n = coins[k].name.to_lowercase();
        let s = coins[k].symbol.to_lowercase();
        assert!(n.contains("alp") || s.contains("alp"));
    }
}

#[test]
fn sort_is_stable_for_equal_keys() {
    let coins = vec![
        coin("a", "A", "A", 10, 1),
        coin("b", "B", "B", 5, 2),
        coin("c", "C", "C", 10, 3),
        coin("d", "D", "D", 5, 4),
    ];
    assert_eq!(rows(&coins, "", Some(SortColumn::Price), SortDirection::Asc), vec![1, 3, 0, 2]);
    assert_eq!(rows(&coins, "", Some(SortColumn::Price), SortDirection::Desc), vec![0, 2, 1, 3]);
}

#[test]
fn name_sort_ignores_case() {
    let coins = vec![coin("x", "beta", "B", 1, 1), coin("y", "Alpha", "A", 1, 1), coin("z", "Gamma", "G", 1, 1)];
    assert_eq!(rows(&coins, "", Some(SortColumn::Name), SortDirection::Asc), vec![1, 0, 2]);
}

#[test]
fn rank_sort_puts_missing_rank_first() {
    let mut coins = btc_eth();
    coins.push(coin("x", "X", "X", 1, 1));
    coins[0].market_cap_rank = Some(1);
    coins[1].market_cap_rank = Some(2);
    assert_eq!(rows(&coins, "", Some(SortColumn::Rank), SortDirection::Asc), vec![2, 0, 1]);
}

#[test]
fn favourites_and_portfolio_tabs() {
    let coins = vec![coin("a", "A", "A", 1, 1), coin("b", "B", "B", 1, 1), coin("c", "C", "C", 1, 1)];
    let favs = vec!["a".to_string()];
    let holds = vec![
        Holding { coin_id: "c".to_string(), amount: 5, buy_price: None },
        Holding { coin_id: "b".to_string(), amount: 0, buy_price: None },
    ];
    let none = String::new();
    let fav = visible_rows(&coins, Tab::Favourites, &favs, &holds, &none, None, SortDirection::Asc);
    assert_eq!(fav, vec![0, 2]);
    let owned = visible_rows(&coins, Tab::Portfolio, &favs, &holds, &none, None, SortDirection::Asc);
    assert_eq!(owned, vec![2]);
}

#[test]
fn toggling_a_column_cycles_back_to_unsorted() {
    let mut app = App::new(Config::new(), false);
    app.toggle_sort(SortColumn::Price);
    assert_eq!(app.sort_column, Some(SortColumn::Price));
    assert_eq!(app.sort_direction, SortDirection::Asc);
    app.toggle_sort(SortColumn::Price);
    assert_eq!(app.sort_direction, SortDirection::Desc);
    app.toggle_sort(SortColumn::Price);
    assert_eq!(app.sort_column, None);
    app.toggle_sort(SortColumn::Price);
    assert_eq!(app.sort_column, Some(SortColumn::Price));
    assert_eq!(app.sort_direction, SortDirection::Asc);
    app.toggle_sort(SortColumn::Volume);
    assert_eq!(app.sort_column, Some(SortColumn::Volume));
    assert_eq!(app.sort_direction, SortDirection::Asc);
}

#[test]
fn selection_is_clamped_to_the_view() {
    let mut app = App::new(Config::new(), false);
    app.coins = btc_eth();
    app.selected = 7;
    app.clamp_selection();
    assert_eq!(app.selected, 1);
    app.filter_query = "zzz".to_string();
    app.clamp_selection();
    assert_eq!(app.selected, 0);
    assert!(app.selected_coin().is_none());
}

#[test]
fn scroll_follows_the_cursor() {
    let mut app = App::new(Config::new(), false);
    app.page_height = 5;
    app.selected = 12;
    app.scroll_offset = 0;
    app.adjust_scroll();
    assert_eq!(app.scroll_offset, 8);
    app.selected = 3;
    app.adjust_scroll();
    assert_eq!(app.scroll_offset, 3);
}
