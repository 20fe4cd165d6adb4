use bags::app::{App, StoredSettings};
use bags::input::{Command, Key, Mouse};
use bags::types::{
    Coin, Config, GlobalMarketStats, InputMode, NotificationMethod, SearchResult, SettingsField, Tab, PRICE_ONE,
};

fn coin(id: &str, price: u64) -> Coin {
    Coin {
        id: id.to_string(),
        name: id.to_uppercase(),
        symbol: id.to_string(),
        current_price: price * PRICE_ONE,
        market_cap: 0,
        total_volume: 0,
        price_change_percentage_1h_in_currency: None,
        price_change_percentage_24h_in_currency: None,
        price_change_percentage_7d_in_currency: None,
        market_cap_rank: None,
        high_24h: None,
        low_24h: None,
        circulating_supply: None,
        max_supply: None,
    }
}

fn typed(app: &mut App, text: &str) {
    for c in text.chars() {
        app.handle_key(Key::Char(c));
    }
}

#[test]
fn new_store_password_flow() {
    let mut app = App::new(Config::new(), true);
    assert_eq!(app.input_mode, InputMode::Password);
    assert!(app.handle_key(Key::Enter).is_none());
    assert_eq!(app.password_error.as_deref(), Some("Password cannot be empty"));
    typed(&mut app, "pw");
    assert!(app.handle_key(Key::Enter).is_none());
    assert_eq!(app.input_mode, InputMode::PasswordConfirm);
    typed(&mut app, "px");
    assert!(app.handle_key(Key::Enter).is_none());
    assert_eq!(app.input_mode, InputMode::Password);
    assert_eq!(app.password_error.as_deref(), Some("Passwords do not match"));
    assert!(app.is_new_db);
    typed(&mut app, "pw");
    app.handle_key(Key::Enter);
    typed(&mut app, "pw");
    match app.handle_key(Key::Enter) {
        Some(Command::OpenStore { password, creating }) => {
            assert_eq!(password, "pw");
            assert!(creating);
            app.store_opened(true, Ok(StoredSettings {
                coingecko_api_key: None,
                cmc_api_key: None,
                notification_method: None,
                ntfy_topic: None,
                alerts: None,
            }));
        }
        _ => panic!("expected the store to be opened"),
    }
    assert!(app.unlocked);
    assert_eq!(app.input_mode, InputMode::Normal);
}

#[test]
fn wrong_password_keeps_existing_store_flag() {
    let mut app = App::new(Config::new(), false);
    typed(&mut app, "secret");
    match app.handle_key(Key::Enter) {
        Some(Command::OpenStore { password, creating }) => {
            assert_eq!(password, "secret");
            assert!(!creating);
        }
        _ => panic!("expected an open attempt"),
    }
    app.store_opened(false, Err("bad key".to_string()));
    assert_eq!(app.password_error.as_deref(), Some("Wrong password"));
    assert_eq!(app.input_mode, InputMode::Password);
    assert!(app.password_buf.is_empty());
    assert!(!app.is_new_db);
    assert!(!app.unlocked);
}

#[test]
fn existing_store_loads_settings() {
    let mut app = App::new(Config::new(), false);
    app.store_opened(false, Ok(StoredSettings {
        coingecko_api_key: Some("cg".to_string()),
        cmc_api_key: None,
        notification_method: Some("ntfy".to_string()),
        ntfy_topic: Some("t".to_string()),
        alerts: Some(Vec::new()),
    }));
    assert!(app.unlocked);
    assert_eq!(app.coingecko_api_key, "cg");
    assert_eq!(app.cmc_api_key, "");
    assert_eq!(app.notification_method, NotificationMethod::Ntfy);
    assert_eq!(app.settings_notification_idx, 2);
    assert_eq!(app.ntfy_topic, "t");
}

#[test]
fn ctrl_c_quits_anywhere() {
    let mut app = App::new(Config::new(), false);
    app.handle_key(Key::Ctrl('c'));
    assert!(app.quit);
}

#[test]
fn filter_mode_edits_and_resets() {
    let mut app = App::new(Config::new(), false);
    app.unlock();
    app.coins = vec![coin("btc", 1), coin("eth", 2)];
    app.handle_key(Key::Char('/'));
    assert_eq!(app.input_mode, InputMode::Filtering);
    typed(&mut app, "et");
    assert_eq!(app.filter_query, "et");
    app.handle_key(Key::Enter);
    assert_eq!(app.input_mode, InputMode::Normal);
    assert_eq!(app.visible_coins(), vec![1]);
    app.handle_key(Key::Esc);
    assert!(app.filter_query.is_empty());
    assert!(!app.quit);
    app.handle_key(Key::Esc);
    assert!(app.quit);
}

#[test]
fn navigation_keys_move_the_cursor() {
    let mut app = App::new(Config::new(), false);
    app.unlock();
    app.coins = (0..30).map(|i| coin(&format!("c{}", i), i)).collect();
    app.handle_key(Key::Char('j'));
    assert_eq!(app.selected, 1);
    app.handle_key(Key::Char('G'));
    assert_eq!(app.selected, 29);
    assert_eq!(app.scroll_offset, 10);
    app.handle_key(Key::Char('g'));
    assert_eq!(app.selected, 0);
    app.handle_key(Key::PageDown);
    assert_eq!(app.selected, 20);
    app.handle_key(Key::Ctrl('u'));
    assert_eq!(app.selected, 0);
    app.handle_key(Key::Tab);
    assert_eq!(app.tab, Tab::Favourites);
    app.handle_mouse(Mouse::ScrollDown, 3, 40);
    assert_eq!(app.selected, 0);
    app.handle_key(Key::Char('1'));
    app.handle_mouse(Mouse::ScrollDown, 3, 40);
    assert_eq!(app.selected, 3);
    app.handle_mouse(Mouse::LeftClick { row: 6, column: 0 }, 3, 40);
    assert_eq!(app.selected, 2);
    app.handle_mouse(Mouse::LeftClick { row: 0, column: 20 }, 3, 40);
    assert_eq!(app.tab, Tab::Favourites);
}

#[test]
fn sort_overlay_is_one_shot() {
    let mut app = App::new(Config::new(), false);
    app.unlock();
    app.coins = vec![coin("btc", 50000), coin("eth", 3000)];
    app.handle_key(Key::Char('s'));
    assert!(app.sort_picking);
    app.handle_key(Key::Char('p'));
    assert!(!app.sort_picking);
    assert_eq!(app.visible_coins(), vec![1, 0]);
    app.handle_key(Key::Char('s'));
    app.handle_key(Key::Char('z'));
    assert!(!app.sort_picking);
    assert_eq!(app.visible_coins(), vec![1, 0]);
    app.handle_key(Key::Char('s'));
    app.handle_key(Key::Esc);
    assert_eq!(app.sort_column, None);
    assert!(!app.quit);
}

#[test]
fn search_flow() {
    let mut app = App::new(Config::new(), false);
    app.unlock();
    app.coins = vec![coin("btc", 1)];
    app.handle_key(Key::Char('c'));
    assert_eq!(app.input_mode, InputMode::SearchCoin);
    assert!(app.handle_key(Key::Enter).is_none());
    typed(&mut app, "sol");
    match app.handle_key(Key::Enter) {
        Some(Command::Search { query }) => assert_eq!(query, "sol"),
        _ => panic!("expected a search"),
    }
    assert!(app.search_loading);
    app.search_finished(Ok(Vec::new()));
    assert_eq!(app.search_error.as_deref(), Some("No results found"));
    app.search_finished(Ok(vec![
        SearchResult { id: "solana".to_string(), name: "Solana".to_string(), symbol: "sol".to_string(), market_cap_rank: Some(5) },
        SearchResult { id: "btc".to_string(), name: "Bitcoin".to_string(), symbol: "btc".to_string(), market_cap_rank: Some(1) },
    ]));
    assert_eq!(app.input_mode, InputMode::SearchResults);
    app.handle_key(Key::Down);
    app.handle_key(Key::Down);
    assert_eq!(app.search_selected, 1);
    match app.handle_key(Key::Enter) {
        Some(Command::AddFromSearch { coin_id, fetch_market }) => {
            assert_eq!(coin_id, "btc");
            assert!(!fetch_market);
        }
        _ => panic!("expected an addition"),
    }
    assert_eq!(app.tab, Tab::Favourites);
    assert_eq!(app.input_mode, InputMode::Normal);
    app.search_finished(Err("offline".to_string()));
    assert_eq!(app.search_error.as_deref(), Some("Search: offline"));
}

#[test]
fn settings_navigation_and_editing() {
    let mut app = App::new(Config::new(), false);
    app.unlock();
    app.coingecko_api_key = "old".to_string();
    app.handle_key(Key::Char('S'));
    assert_eq!(app.settings_coingecko_key, "old");
    app.handle_key(Key::Down);
    assert_eq!(app.settings_field, SettingsField::Theme);
    app.handle_key(Key::Left);
    assert_eq!(app.active_theme_name(), "no-color");
    app.handle_key(Key::Down);
    app.handle_key(Key::Enter);
    assert!(app.settings_editing);
    app.handle_key(Key::Backspace);
    typed(&mut app, "X");
    app.handle_key(Key::Enter);
    assert!(!app.settings_editing);
    assert_eq!(app.settings_coingecko_key, "olX");
    app.handle_key(Key::Esc);
    assert_eq!(app.input_mode, InputMode::Normal);
    assert_eq!(app.active_theme_name(), "dark");
    assert_eq!(app.coingecko_api_key, "old");
}

#[test]
fn refresh_results_and_display() {
    let mut app = App::new(Config::new(), false);
    app.refresh_market_data(Ok(vec![coin("btc", 1)]), 1_000);
    assert!(!app.loading);
    assert_eq!(app.last_refresh, Some(1_000));
    assert!(!app.refresh_due(30_000));
    assert!(app.refresh_due(61_000));
    app.refresh_market_data(Err("x".repeat(200)), 2_000);
    assert_eq!(app.coins.len(), 1);
    let err = app.error.clone().unwrap();
    assert_eq!(err.chars().count(), 80);
    assert!(err.starts_with("API: xxx"));
    app.update_refresh_display(11_000);
    assert!(app.error.is_some());
    assert_eq!(app.last_refresh_display, "10s ago");
    app.update_refresh_display(12_000);
    assert!(app.error.is_none());
    app.update_refresh_display(43_000);
    assert_eq!(app.last_refresh_display, "42s ago");
    app.update_refresh_display(181_000);
    assert_eq!(app.last_refresh_display, "3m ago");
}

#[test]
fn global_stats_take_sentiment() {
    let mut app = App::new(Config::new(), false);
    app.refresh_global_stats(None, Some((50, "Neutral".to_string())));
    assert!(app.global_stats.is_none());
    let stats = GlobalMarketStats { total_market_cap_usd: 10, btc_dominance: 5, fear_greed_index: None, fear_greed_label: None };
    app.refresh_global_stats(Some(stats), Some((71, "Greed".to_string())));
    let g = app.global_stats.clone().unwrap();
    assert_eq!(g.fear_greed_index, Some(71));
    assert_eq!(g.fear_greed_label.as_deref(), Some("Greed"));
    assert_eq!(g.total_market_cap_usd, 10);
}

#[test]
fn settings_cycles_wrap() {
    let mut app = App::new(Config::new(), false);
    app.cycle_currency(false);
    assert_eq!(app.settings_currency_idx, 12);
    app.cycle_currency(true);
    assert_eq!(app.settings_currency_idx, 0);
    app.cycle_notification(false);
    assert_eq!(app.settings_notification_idx, 3);
    app.cycle_theme(true);
    assert_eq!(app.settings_theme_idx, 1);
    app.open_settings();
    assert_eq!(app.settings_theme_idx, 0);
    assert_eq!(app.input_mode, InputMode::Settings);
}

#[test]
fn portfolio_value_and_holding_lookup_on_app() {
    let mut app = App::new(Config::new(), false);
    app.coins = vec![coin("btc", 2)];
    app.refresh_db_state(Some(vec!["btc".to_string()]), None);
    assert_eq!(app.favourites.len(), 1);
    assert!(app.holdings.is_empty());
    assert_eq!(app.total_portfolio_value(), 0);
    app.add_coin(coin("eth", 1));
    assert_eq!(app.coins.len(), 2);
}

#[test]
fn esc_from_search_results_returns_to_browsing() {
    let mut app = App::new(Config::new(), false);
    app.unlock();
    app.handle_key(Key::Char('c'));
    typed(&mut app, "sol");
    app.handle_key(Key::Enter);
    app.search_finished(Ok(vec![SearchResult {
        id: "solana".to_string(),
        name: "Solana".to_string(),
        symbol: "sol".to_string(),
        market_cap_rank: None,
    }]));
    assert_eq!(app.input_mode, InputMode::SearchResults);
    app.handle_key(Key::Esc);
    assert_eq!(app.input_mode, InputMode::Normal);
    assert!(app.search_query.is_empty());
    assert!(app.search_results.is_empty());
    assert!(!app.quit);
}

#[test]
fn alert_notification_title() {
    assert_eq!(bags::alerts::alert_title("Bitcoin"), "bags: Bitcoin alert");
}
