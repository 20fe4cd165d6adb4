use bags::alerts::{alert_crosses, check_alerts, notification_channels};
use bags::app::App;
use bags::input::{Command, Key};
use bags::portfolio::{auto_buy_price, buy_price_for, edit_holding, holding_for, set_holding, total_portfolio_value};
use bags::types::{AlertDirection, Coin, Config, Holding, InputMode, NotificationMethod, PriceAlert, PRICE_ONE};

fn coin(id: &str, price: u64) -> Coin {
    Coin {
        id: id.to_string(),
        name: id.to_uppercase(),
        symbol: id.to_string(),
        current_price: price * PRICE_ONE,
        market_cap: 0,
        total_volume: 0,
        price_change_percentage_1h_in_currency: None,
        price_change_percentage_24h_in_currency: None,
        price_change_percentage_7d_in_currency: None,
        market_cap_rank: None,
        high_24h: None,
        low_24h: None,
        circulating_supply: None,
        max_supply: None,
    }
}

fn alert(id: &str, target: u64, direction: AlertDirection) -> PriceAlert {
    PriceAlert { coin_id: id.to_string(), target_price: target * PRICE_ONE, direction, triggered: false }
}

#[test]
fn above_alert_fires_and_below_does_not() {
    let coins = vec![coin("btc", 50000)];
    let mut alerts = vec![alert("btc", 48000, AlertDirection::Above), alert("btc", 48000, AlertDirection::Below)];
    let fired = check_alerts(&mut alerts, &coins);
    assert_eq!(fired, vec![(0, 0)]);
    assert!(alerts[0].triggered);
    assert!(!alerts[1].triggered);
    assert!(alert_crosses(AlertDirection::Above, 5, 5));
    assert!(alert_crosses(AlertDirection::Below, 5, 5));
    assert!(!alert_crosses(AlertDirection::Below, 5, 6));
}

#[test]
fn second_evaluation_fires_nothing() {
    let coins = vec![coin("eth", 10), coin("btc", 50000)];
    let mut alerts = vec![alert("btc", 40000, AlertDirection::Above), alert("eth", 20, AlertDirection::Below)];
    assert_eq!(check_alerts(&mut alerts, &coins), vec![(0, 1), (1, 0)]);
    assert!(check_alerts(&mut alerts, &coins).is_empty());
    assert!(alerts.iter().all(|a| a.triggered));
}

#[test]
fn alert_on_missing_asset_stays_armed() {
    let coins = vec![coin("eth", 10)];
    let mut alerts = vec![alert("btc", 1, AlertDirection::Above)];
    assert!(check_alerts(&mut alerts, &coins).is_empty());
    assert!(!alerts[0].triggered);
}

#[test]
fn app_alert_check_flashes_the_asset() {
    let mut app = App::new(Config::new(), false);
    app.coins = vec![coin("btc", 50000)];
    app.alerts = vec![alert("btc", 48000, AlertDirection::Above)];
    assert_eq!(app.check_alerts(1234), vec![(0, 0)]);
    assert_eq!(app.alert_flash, Some(("btc".to_string(), 1234)));
    app.update_refresh_display(2000);
    assert!(app.alert_flash.is_some());
    app.update_refresh_display(3234);
    assert!(app.alert_flash.is_none());
}

#[test]
fn notification_channels_follow_the_method() {
    let topic = "alerts".to_string();
    let empty = String::new();
    assert_eq!(notification_channels(NotificationMethod::Off, &topic), (false, false));
    assert_eq!(notification_channels(NotificationMethod::Desktop, &topic), (true, false));
    assert_eq!(notification_channels(NotificationMethod::Ntfy, &topic), (false, true));
    assert_eq!(notification_channels(NotificationMethod::Ntfy, &empty), (false, false));
    assert_eq!(notification_channels(NotificationMethod::Both, &topic), (true, true));
}

#[test]
fn opening_a_position_records_the_buy_price() {
    let mut holdings: Vec<Holding> = Vec::new();
    let id = "btc".to_string();
    let buy = edit_holding(&mut holdings, &id, 2 * PRICE_ONE, 50000 * PRICE_ONE);
    assert_eq!(buy, Some(50000 * PRICE_ONE));
    assert_eq!(holding_for(&holdings, &id), 2 * PRICE_ONE);
    assert_eq!(buy_price_for(&holdings, &id), Some(50000 * PRICE_ONE));
    // A later edit keeps the recorded price.
    let buy = edit_holding(&mut holdings, &id, 3 * PRICE_ONE, 60000 * PRICE_ONE);
    assert_eq!(buy, None);
    assert_eq!(holding_for(&holdings, &id), 3 * PRICE_ONE);
    assert_eq!(buy_price_for(&holdings, &id), Some(50000 * PRICE_ONE));
    // Zero deletes.
    edit_holding(&mut holdings, &id, 0, 1);
    assert_eq!(holding_for(&holdings, &id), 0);
    assert!(holdings.is_empty());
    assert_eq!(auto_buy_price(0, 0, 9), None);
}

#[test]
fn set_holding_touches_only_its_asset() {
    let mut holdings = vec![
        Holding { coin_id: "a".to_string(), amount: 1, buy_price: Some(4) },
        Holding { coin_id: "b".to_string(), amount: 2, buy_price: None },
    ];
    set_holding(&mut holdings, &"b".to_string(), 5, Some(9));
    assert_eq!(holding_for(&holdings, &"b".to_string()), 5);
    assert_eq!(buy_price_for(&holdings, &"b".to_string()), Some(9));
    assert_eq!(buy_price_for(&holdings, &"a".to_string()), Some(4));
    set_holding(&mut holdings, &"a".to_string(), 0, None);
    assert_eq!(holdings.len(), 1);
}

#[test]
fn portfolio_value_sums_known_assets() {
    let coins = vec![coin("btc", 50000), coin("eth", 3000)];
    let holdings = vec![
        Holding { coin_id: "btc".to_string(), amount: PRICE_ONE / 2, buy_price: None },
        Holding { coin_id: "eth".to_string(), amount: 2 * PRICE_ONE, buy_price: None },
        Holding { coin_id: "gone".to_string(), amount: PRICE_ONE, buy_price: None },
    ];
    assert_eq!(total_portfolio_value(&holdings, &coins), 31000 * PRICE_ONE as u128);
}

fn browsing_app() -> App {
    let mut app = App::new(Config::new(), false);
    app.unlock();
    app.coins = vec![coin("btc", 50000)];
    app
}

#[test]
fn quantity_buffer_rejects_letters() {
    let mut app = browsing_app();
    app.handle_key(Key::Char('a'));
    assert_eq!(app.input_mode, InputMode::EditingAmount);
    for c in ['1', 'x', '.', 'e', '5'] {
        app.handle_key(Key::Char(c));
    }
    assert_eq!(app.input_buf, "1.5");
    match app.handle_key(Key::Enter) {
        Some(Command::SaveHolding { coin_id, amount, buy_price }) => {
            assert_eq!(coin_id, "btc");
            assert_eq!(amount, 150_000_000);
            assert_eq!(buy_price, Some(50000 * PRICE_ONE));
        }
        _ => panic!("expected a holding update"),
    }
    assert_eq!(app.holding_for(&"btc".to_string()), 150_000_000);
}

#[test]
fn non_numeric_submission_leaves_holdings_unchanged() {
    let mut app = browsing_app();
    app.holdings = vec![Holding { coin_id: "btc".to_string(), amount: 7, buy_price: Some(1) }];
    app.handle_key(Key::Char('a'));
    app.input_buf = "abc".to_string();
    assert!(app.handle_key(Key::Enter).is_none());
    assert_eq!(app.input_mode, InputMode::Normal);
    assert_eq!(app.holding_for(&"btc".to_string()), 7);
    assert_eq!(app.buy_price_for(&"btc".to_string()), Some(1));
}

#[test]
fn alert_entry_submits_target() {
    let mut app = browsing_app();
    app.handle_key(Key::Char('A'));
    assert_eq!(app.input_mode, InputMode::EditingAlert);
    app.handle_key(Key::Tab);
    for c in "48000".chars() {
        app.handle_key(Key::Char(c));
    }
    match app.handle_key(Key::Enter) {
        Some(Command::AddAlert { coin_id, target_price, direction }) => {
            assert_eq!(coin_id, "btc");
            assert_eq!(target_price, 48000 * PRICE_ONE);
            assert_eq!(direction, AlertDirection::Below);
        }
        _ => panic!("expected an alert"),
    }
    assert!(app.alert_input_buf.is_empty());
}

#[test]
fn delete_key_removes_the_holding() {
    let mut app = browsing_app();
    app.holdings = vec![Holding { coin_id: "btc".to_string(), amount: 7, buy_price: Some(1) }];
    match app.handle_key(Key::Char('d')) {
        Some(Command::SaveHolding { amount, buy_price, .. }) => {
            assert_eq!(amount, 0);
            assert_eq!(buy_price, None);
        }
        _ => panic!("expected a delete"),
    }
    assert!(app.holdings.is_empty());
}

#[test]
fn buy_price_editor_is_prefilled() {
    let mut app = browsing_app();
    app.holdings = vec![Holding { coin_id: "btc".to_string(), amount: 7, buy_price: Some(125 * PRICE_ONE / 10) }];
    app.handle_key(Key::Char('b'));
    assert_eq!(app.input_mode, InputMode::EditingBuyPrice);
    assert_eq!(app.buy_price_buf, "12.5");
    app.handle_key(Key::Backspace);
    app.handle_key(Key::Char('7'));
    match app.handle_key(Key::Enter) {
        Some(Command::SetBuyPrice { price, .. }) => assert_eq!(price, 127 * PRICE_ONE / 10),
        _ => panic!("expected a buy price"),
    }
}
