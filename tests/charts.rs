use bags::app::App;
use bags::chart::{downsample, spark_heights, ChartCache};
use bags::input::{Command, Key};
use bags::types::{Coin, Config, InputMode, PriceHistory, PRICE_ONE};

#[test]
fn downsample_edge_cases() {
    assert_eq!(downsample(&vec![], 5), Vec::<u64>::new());
    assert_eq!(downsample(&vec![1, 2, 3], 0), Vec::<u64>::new());
    assert_eq!(downsample(&vec![4, 1, 9], 3), vec![4, 1, 9]);
    assert_eq!(downsample(&vec![4, 1, 9], 10), vec![4, 1, 9]);
}

#[test]
fn downsample_keeps_extremes() {
    let data = vec![1, 5, 2, 8, 3, 9, 4, 7];
    assert_eq!(downsample(&data, 4), vec![5, 8, 3, 7]);
}

#[test]
fn downsample_length_and_bounds() {
    let data: Vec<u64> = (0..1000u64).map(|i| (i * 7919) % 613 + 100).collect();
    for w in [1usize, 2, 3, 7, 80, 999, 1000, 1500] {
        let r = downsample(&data, w);
        assert_eq!(r.len(), w.min(data.len()));
        let lo = *data.iter().min().unwrap();
        let hi = *data.iter().max().unwrap();
        assert!(r.iter().all(|v| *v >= lo && *v <= hi));
    }
}

#[test]
fn flat_series_sits_mid_scale() {
    assert_eq!(spark_heights(&vec![7, 7, 7], 16), vec![8, 8, 8]);
    assert_eq!(spark_heights(&vec![0, 5, 10], 8), vec![0, 4, 8]);
    assert_eq!(spark_heights(&vec![], 8), Vec::<u64>::new());
}

#[test]
fn cache_insert_get_clear() {
    let mut c = ChartCache::new();
    let id = "btc".to_string();
    assert!(!c.contains(&id, 7));
    c.insert(id.clone(), 7, PriceHistory { prices: vec![1, 2] });
    assert!(c.contains(&id, 7));
    assert!(!c.contains(&id, 30));
    assert_eq!(c.get(&id, 7).unwrap().prices, vec![1, 2]);
    c.clear();
    assert_eq!(c.len(), 0);
    assert!(c.get(&id, 7).is_none());
}

fn btc_app() -> App {
    let mut app = App::new(Config::new(), false);
    app.unlock();
    app.coins = vec![Coin {
        id: "btc".to_string(),
        name: "Bitcoin".to_string(),
        symbol: "btc".to_string(),
        current_price: 50000 * PRICE_ONE,
        market_cap: 1,
        total_volume: 1,
        price_change_percentage_1h_in_currency: None,
        price_change_percentage_24h_in_currency: None,
        price_change_percentage_7d_in_currency: None,
        market_cap_rank: Some(1),
        high_24h: None,
        low_24h: None,
        circulating_supply: None,
        max_supply: None,
    }];
    app
}

#[test]
fn chart_fetched_once_then_served_from_cache() {
    let mut app = btc_app();
    let mut source_calls = 0;
    // Open the popup (1D), then step to 7D.
    if let Some(Command::FetchChart { coin_id, days }) = app.handle_key(Key::Enter) {
        app.chart_fetched(coin_id, days, Ok(vec![1]), 0);
    }
    let first = app.handle_key(Key::Right);
    match first {
        Some(Command::FetchChart { coin_id, days }) => {
            assert_eq!(coin_id, "btc");
            assert_eq!(days, 7);
            source_calls += 1;
            app.chart_fetched(coin_id, days, Ok(vec![10, 20, 30]), 0);
        }
        _ => panic!("expected a fetch"),
    }
    // Leave 7D and come back: no second fetch.
    assert!(app.handle_key(Key::Right).is_some());
    assert!(app.handle_key(Key::Left).is_none());
    assert_eq!(source_calls, 1);
    assert_eq!(app.chart_cache.get(&"btc".to_string(), 7).unwrap().prices, vec![10, 20, 30]);
}

#[test]
fn duplicate_chart_request_while_loading_is_ignored() {
    let mut app = btc_app();
    assert!(app.handle_key(Key::Enter).is_some());
    assert!(app.loading_chart);
    assert!(app.fetch_chart_if_needed().is_none());
}

#[test]
fn failed_chart_fetch_leaves_no_entry() {
    let mut app = btc_app();
    if let Some(Command::FetchChart { coin_id, days }) = app.handle_key(Key::Enter) {
        app.chart_fetched(coin_id, days, Err("timeout".to_string()), 5);
    }
    assert!(!app.loading_chart);
    assert_eq!(app.error.as_deref(), Some("Chart: timeout"));
    assert!(app.fetch_chart_if_needed().is_some());
}

#[test]
fn saving_settings_clears_the_cache() {
    let mut app = btc_app();
    app.chart_cache.insert("btc".to_string(), 1, PriceHistory { prices: vec![3] });
    app.handle_key(Key::Char('S'));
    assert_eq!(app.input_mode, InputMode::Settings);
    app.handle_key(Key::Right);
    match app.handle_key(Key::Char('s')) {
        Some(Command::SaveSettings { currency, currency_changed, .. }) => {
            assert_eq!(currency, "eur");
            assert!(currency_changed);
        }
        _ => panic!("expected settings to be saved"),
    }
    assert_eq!(app.config.currency, "eur");
    assert_eq!(app.chart_cache.len(), 0);
    assert!(app.loading);
}

#[test]
fn get_or_fetch_calls_the_source_once() {
    let mut cache = ChartCache::new();
    let btc = "btc".to_string();
    let mut calls = 0;
    let first = cache.get_or_fetch(&btc, 7, |id: &String, days: u32| {
        calls += 1;
        assert_eq!(id, "btc");
        assert_eq!(days, 7);
        Ok(vec![100, 200, 150])
    });
    assert_eq!(first, Ok(vec![100, 200, 150]));
    assert_eq!(calls, 1);
    let second = cache.get_or_fetch(&btc, 7, |_: &String, _: u32| {
        calls += 1;
        Ok(vec![1])
    });
    assert_eq!(second, Ok(vec![100, 200, 150]));
    assert_eq!(calls, 1);
    // A failure leaves the key absent, so the next visit retries.
    let failed = cache.get_or_fetch(&btc, 30, |_: &String, _: u32| Err("timeout".to_string()));
    assert_eq!(failed, Err("timeout".to_string()));
    assert!(!cache.contains(&btc, 30));
    // A currency change clears everything.
    cache.clear();
    let third = cache.get_or_fetch(&btc, 7, |_: &String, _: u32| {
        calls += 1;
        Ok(vec![9])
    });
    assert_eq!(third, Ok(vec![9]));
    assert_eq!(calls, 2);
}
