use vstd::prelude::*;

use crate::alerts::find_coin;
use crate::app::App;
use crate::number::{accepts_numeric_char, format_fixed, is_digit, parse_fixed, parsed_fixed};
use crate::portfolio::{amount_of, edit_holding};
use crate::text::{join, pop_char, push_char, str_eq};
use crate::types::{
    currency_code, notification_method_from_str, notification_method_name, theme_name, AlertDirection, ChartView,
    InputMode, PriceHistory, SearchResult, SettingsField, SortColumn, SortDirection, Tab, CURRENCY_COUNT,
    NOTIFICATION_METHOD_COUNT, THEME_COUNT,
};
use crate::app::StoredSettings;

verus! {

/// What `App::password_key` guarantees, from state `o` to state `n`.
#[verifier::opaque]
pub open spec fn password_post(o: App, n: App, key: Key, r: Option<Command>) -> bool {
    &&& n == (App { quit: n.quit, password_error: n.password_error, password_first: n.password_first, password_buf: n.password_buf, input_mode: n.input_mode, ..o })
    &&& (key == Key::Esc ==> n.quit && r.is_none())
    &&& (key == Key::Enter && o.password_buf@.len() == 0 ==> r.is_none() && n.password_error.is_some() && n.input_mode == o.input_mode)
    &&& (key == Key::Enter && o.password_buf@.len() > 0 && o.is_new_db ==> r.is_none() && n.password_first@ == o.password_buf@ && n.password_buf@.len() == 0 && n.password_error.is_none() && n.input_mode == InputMode::PasswordConfirm)
    &&& (key == Key::Enter && o.password_buf@.len() > 0 && !o.is_new_db ==> n.input_mode == o.input_mode && n.password_buf == o.password_buf && match r { Some(Command::OpenStore { password, creating }) => password@ == o.password_buf@ && !creating, _ => false, })
    &&& (key != Key::Enter && key != Key::Esc ==> r.is_none() && n.password_buf@ == edited( o.password_buf@, key, false, ))
    &&& (n.is_new_db == o.is_new_db)
    &&& (n.unlocked == o.unlocked)
}

/// What `App::confirm_key` guarantees, from state `o` to state `n`.
#[verifier::opaque]
pub open spec fn confirm_post(o: App, n: App, key: Key, r: Option<Command>) -> bool {
    &&& n == (App { input_mode: n.input_mode, password_buf: n.password_buf, password_first: n.password_first, password_error: n.password_error, ..o })
    &&& (key == Key::Esc ==> r.is_none() && n.input_mode == InputMode::Password && n.password_buf@.len() == 0 && n.password_first@.len() == 0 && n.password_error.is_none())
    &&& (key == Key::Enter && o.password_buf@ == o.password_first@ ==> match r { Some(Command::OpenStore { password, creating }) => password@ == o.password_buf@ && creating, _ => false, })
    &&& (key == Key::Enter && o.password_buf@ != o.password_first@ ==> r.is_none() && n.input_mode == InputMode::Password && n.password_error.is_some() && n.password_buf@.len() == 0 && n.password_first@.len() == 0)
    &&& (key != Key::Enter && key != Key::Esc ==> r.is_none() && n.password_buf@ == edited( o.password_buf@, key, false, ))
    &&& (n.is_new_db == o.is_new_db)
    &&& (n.unlocked == o.unlocked)
}

/// What `App::filtering_key` guarantees, from state `o` to state `n`.
#[verifier::opaque]
pub open spec fn filtering_post(o: App, n: App, key: Key) -> bool {
    &&& n.coins == o.coins && n.alerts == o.alerts && n.favourites == o.favourites
    &&& n.holdings == o.holdings
    &&& (key == Key::Esc ==> n.filter_query@.len() == 0 && n.input_mode == InputMode::Normal)
    &&& (key == Key::Enter ==> n.filter_query == o.filter_query && n.input_mode == InputMode::Normal && n.selected == 0)
    &&& (key != Key::Esc && key != Key::Enter ==> n.filter_query@ == edited( o.filter_query@, key, false, ) && n.input_mode == o.input_mode)
    &&& (n.view_len() > 0 ==> n.selected < n.view_len())
    &&& (n.view_len() == 0 ==> n.selected == 0)
    &&& (n.coins == o.coins)
    &&& (n.holdings == o.holdings)
}

/// What `App::alert_key` guarantees, from state `o` to state `n`.
#[verifier::opaque]
pub open spec fn alert_post(o: App, n: App, key: Key, r: Option<Command>) -> bool {
    &&& n == (App { input_mode: n.input_mode, alert_input_buf: n.alert_input_buf, alert_direction: n.alert_direction, ..o })
    &&& (key == Key::Esc ==> r.is_none() && n.input_mode == InputMode::Normal && n.alert_input_buf@.len() == 0)
    &&& (key == Key::Tab ==> r.is_none() && n.alert_direction != o.alert_direction && n.input_mode == o.input_mode)
    &&& (key == Key::Enter ==> n.input_mode == InputMode::Normal && n.alert_input_buf@.len() == 0 && (r.is_some() <==> (parsed_fixed(o.alert_input_buf@).is_some() && o.selected < o.view_len())) && match r { Some(Command::AddAlert { coin_id, target_price, direction }) => Some(target_price) == parsed_fixed( o.alert_input_buf@, ) && direction == o.alert_direction && coin_id@ == o.coins@[o.view()[o.selected as int] as int].id@, Some(_) => false, None => true, })
    &&& (key != Key::Esc && key != Key::Enter && key != Key::Tab ==> r.is_none() && n.alert_input_buf@ == edited(o.alert_input_buf@, key, true) && n.input_mode == o.input_mode)
    &&& (n.alerts == o.alerts)
    &&& (n.holdings == o.holdings)
}

/// What `App::buy_price_key` guarantees, from state `o` to state `n`.
#[verifier::opaque]
pub open spec fn buy_price_post(o: App, n: App, key: Key, r: Option<Command>) -> bool {
    &&& n == (App { input_mode: n.input_mode, buy_price_buf: n.buy_price_buf, ..o })
    &&& (key == Key::Esc ==> r.is_none() && n.input_mode == InputMode::Normal && n.buy_price_buf@.len() == 0)
    &&& (key == Key::Enter ==> n.input_mode == InputMode::Normal && n.buy_price_buf@.len() == 0 && (r.is_some() <==> (parsed_fixed(o.buy_price_buf@).is_some() && o.selected < o.view_len())) && match r { Some(Command::SetBuyPrice { coin_id, price }) => Some(price) == parsed_fixed( o.buy_price_buf@, ) && coin_id@ == o.coins@[o.view()[o.selected as int] as int].id@, Some(_) => false, None => true, })
    &&& (key != Key::Esc && key != Key::Enter ==> r.is_none() && n.buy_price_buf@ == edited( o.buy_price_buf@, key, true, ) && n.input_mode == o.input_mode)
    &&& (n.holdings == o.holdings)
}

/// What `App::amount_key` guarantees, from state `o` to state `n`.
#[verifier::opaque]
pub open spec fn amount_post(o: App, n: App, key: Key, r: Option<Command>) -> bool {
    &&& n.coins == o.coins && n.alerts == o.alerts && n.favourites == o.favourites
    &&& (key == Key::Esc ==> r.is_none() && n.input_mode == InputMode::Normal && n.input_buf@.len() == 0 && n.holdings == o.holdings)
    &&& (key == Key::Enter ==> n.input_mode == InputMode::Normal && n.input_buf@.len() == 0)
    &&& (key == Key::Enter ==> (n.view_len() == 0 && n.selected == 0 || n.selected < n.view_len()))
    &&& (key == Key::Enter && (parsed_fixed(o.input_buf@).is_none() || o.selected >= o.view_len()) ==> r.is_none() && n.holdings == o.holdings)
    &&& (key == Key::Enter && parsed_fixed(o.input_buf@).is_some() && o.selected < o.view_len() ==> match r { Some(Command::SaveHolding { coin_id, amount, buy_price }) => { let q = parsed_fixed(o.input_buf@).unwrap(); &&& coin_id@ == o.coins@[o.view()[o.selected as int] as int].id@ &&& amount == q &&& (q > 0 ==> amount_of(n.holdings@, coin_id@) == q) &&& buy_price == if amount_of(o.holdings@, coin_id@) == 0 && q > 0 { Some(o.coins@[o.view()[o.selected as int] as int].current_price) } else { None } &&& (q > 0 && amount_of(o.holdings@, coin_id@) == 0) ==> crate::portfolio::buy_price_of( n.holdings@, coin_id@, ) == Some(o.coins@[o.view()[o.selected as int] as int].current_price) &&& q == 0 ==> crate::portfolio::holding_of(n.holdings@, coin_id@).is_none() &&& (q > 0 && amount_of(o.holdings@, coin_id@) > 0) ==> crate::portfolio::buy_price_of( n.holdings@, coin_id@, ) == crate::portfolio::buy_price_of(o.holdings@, coin_id@) }, _ => false, })
    &&& (key != Key::Esc && key != Key::Enter ==> r.is_none() && n.input_buf@ == edited( o.input_buf@, key, true, ) && n.holdings == o.holdings)
}

/// What `App::handle_settings_key` guarantees, from state `o` to state `n`.
#[verifier::opaque]
pub open spec fn settings_post(o: App, n: App, key: Key, r: Option<Command>) -> bool {
    &&& (o.settings_editing && (key == Key::Esc || key == Key::Enter) ==> !n.settings_editing && r.is_none() && n.input_mode == o.input_mode)
    &&& (o.settings_editing && key != Key::Esc && key != Key::Enter ==> r.is_none() && n.settings_editing && (o.settings_field == SettingsField::CoingeckoApiKey ==> n.settings_coingecko_key@ == edited(o.settings_coingecko_key@, key, false)) && ( o.settings_field == SettingsField::CoinmarketcapApiKey ==> n.settings_cmc_key@ == edited(o.settings_cmc_key@, key, false)) && (o.settings_field == SettingsField::NtfyTopic ==> n.settings_ntfy_topic@ == edited( o.settings_ntfy_topic@, key, false, )))
    &&& (!o.settings_editing && (key == Key::Esc || key == Key::Char('q')) ==> r.is_none() && n.input_mode == InputMode::Normal && n.config == o.config)
    &&& (!o.settings_editing && (key == Key::Down || key == Key::Tab || key == Key::Char('j')) ==> n.settings_field.spec_position() == (o.settings_field.spec_position() + 1) % 6)
    &&& (!o.settings_editing && (key == Key::Up || key == Key::Char('k')) ==> n.settings_field.spec_position() == (o.settings_field.spec_position() + 5) % 6)
    &&& (!o.settings_editing && (key == Key::Enter || key == Key::Char('e')) ==> n.settings_editing == o.settings_field.spec_is_text_field())
    &&& (!o.settings_editing && key == Key::Char('s') ==> match r { Some(c) => saved(o, n, c), None => false, })
    &&& (!o.settings_editing && (key == Key::Esc || key == Key::Char('q')) ==> n == (App { input_mode: InputMode::Normal, ..o }))
    &&& (!o.settings_editing && (key == Key::Left || key == Key::Char('h') || key == Key::Right || key == Key::Char('l')) ==> { let fwd = key == Key::Right || key == Key::Char('l'); &&& r.is_none() &&& o.settings_field == SettingsField::Currency ==> n.settings_currency_idx == crate::app::cycled( o.settings_currency_idx as int % CURRENCY_COUNT as int, CURRENCY_COUNT as int, fwd, ) &&& o.settings_field == SettingsField::Theme ==> n.settings_theme_idx == crate::app::cycled( o.settings_theme_idx as int % THEME_COUNT as int, THEME_COUNT as int, fwd, ) &&& o.settings_field == SettingsField::Notifications ==> n.settings_notification_idx == crate::app::cycled( o.settings_notification_idx as int % NOTIFICATION_METHOD_COUNT as int, NOTIFICATION_METHOD_COUNT as int, fwd, ) })
    &&& (n.coins == o.coins)
    &&& (n.holdings == o.holdings)
}

/// What `App::search_key` guarantees, from state `o` to state `n`.
#[verifier::opaque]
pub open spec fn search_post(o: App, n: App, key: Key, r: Option<Command>) -> bool {
    &&& n == (App { input_mode: n.input_mode, search_query: n.search_query, search_error: n.search_error, search_loading: n.search_loading, ..o })
    &&& (key == Key::Esc ==> r.is_none() && n.input_mode == InputMode::Normal && n.search_query@.len() == 0 && n.search_error.is_none())
    &&& (key == Key::Enter && o.search_query@.len() > 0 ==> n.search_loading && n.search_error.is_none() && match r { Some(Command::Search { query }) => query@ == o.search_query@, _ => false, })
    &&& (key == Key::Enter && o.search_query@.len() == 0 ==> r.is_none())
    &&& (key != Key::Esc && key != Key::Enter ==> r.is_none() && n.search_query@ == edited( o.search_query@, key, false, ))
    &&& (key != Key::Esc ==> n.input_mode == o.input_mode)
}

/// What `App::search_results_key` guarantees, from state `o` to state `n`.
#[verifier::opaque]
pub open spec fn search_results_post(o: App, n: App, key: Key, r: Option<Command>) -> bool {
    &&& n.coins == o.coins && n.alerts == o.alerts && n.favourites == o.favourites
    &&& n.holdings == o.holdings
    &&& (key == Key::Esc ==> r.is_none() && n.input_mode == InputMode::Normal && n.search_results@.len() == 0 && n.search_query@.len() == 0 && n.search_error.is_none())
    &&& ((key == Key::Down || key == Key::Char('j')) ==> r.is_none() && n.search_selected == moved_down( o.search_selected as int, 1, o.search_results@.len() as int, ))
    &&& ((key == Key::Up || key == Key::Char('k')) ==> r.is_none() && n.search_selected == if o.search_selected >= 1 { o.search_selected - 1 } else { 0 })
    &&& (key == Key::Enter && o.search_selected < o.search_results@.len() ==> { let hit = o.search_results@[o.search_selected as int]; &&& n.input_mode == InputMode::Normal &&& n.tab == Tab::Favourites &&& n.selected == 0 &&& n.search_results@.len() == 0 &&& n.search_query@.len() == 0 &&& match r { Some(Command::AddFromSearch { coin_id, fetch_market }) => coin_id@ == hit.id@ && fetch_market == crate::alerts::first_coin(o.coins@, hit.id@).is_none(), _ => false, } })
    &&& (key == Key::Enter && o.search_selected >= o.search_results@.len() ==> r.is_none())
}

/// What `App::sort_pick_key` guarantees, from state `o` to state `n`.
#[verifier::opaque]
pub open spec fn sort_pick_post(o: App, n: App, key: Key) -> bool {
    &&& (!n.sort_picking)
    &&& (match key { Key::Char(c) => match sort_key_column(c) { Some(col) => (n.sort_column, n.sort_direction) == toggled( o.sort_column, o.sort_direction, col, ), None => n.sort_column == o.sort_column && n.sort_direction == o.sort_direction, }, Key::Esc => n.sort_column.is_none(), _ => n.sort_column == o.sort_column && n.sort_direction == o.sort_direction, })
    &&& (n.selected == 0)
    &&& (n.input_mode == o.input_mode)
    &&& (n.coins == o.coins)
}

/// What `App::popup_key` guarantees, from state `o` to state `n`.
#[verifier::opaque]
pub open spec fn popup_post(o: App, n: App, key: Key, r: Option<Command>) -> bool {
    &&& n == (App { popup_open: n.popup_open, chart_view: n.chart_view, loading_chart: n.loading_chart, chart_pending: n.chart_pending, ..o })
    &&& ((key == Key::Esc || key == Key::Char('q')) ==> !n.popup_open && r.is_none())
    &&& ((key == Key::Right || key == Key::Char('l')) ==> n.chart_view == match o.chart_view { ChartView::Day1 => ChartView::Day7, ChartView::Day7 => ChartView::Day30, ChartView::Day30 => ChartView::Day1, })
    &&& ((key == Key::Left || key == Key::Char('h')) ==> n.chart_view == match o.chart_view { ChartView::Day1 => ChartView::Day30, ChartView::Day7 => ChartView::Day1, ChartView::Day30 => ChartView::Day7, })
    &&& ((key == Key::Right || key == Key::Char('l') || key == Key::Left || key == Key::Char('h')) && o.selected < o.view_len() && o.chart_cache.cached( o.coins@[o.view()[o.selected as int] as int].id@, n.chart_view.spec_days(), ).is_none() && !(o.loading_chart && o.chart_pending.is_some() && o.chart_pending.unwrap().0@ == o.coins@[o.view()[o.selected as int] as int].id@ && o.chart_pending.unwrap().1 == n.chart_view.spec_days()) ==> r.is_some())
    &&& (match r { Some(Command::FetchChart { coin_id, days }) => days == n.chart_view.spec_days() && o.chart_cache.cached(coin_id@, days).is_none() && coin_id@ == o.coins@[o.view()[o.selected as int] as int].id@, Some(_) => false, None => true, })
    &&& (n.chart_cache == o.chart_cache)
    &&& (n.input_mode == o.input_mode)
}

/// What `App::normal_key` guarantees, from state `o` to state `n`.
#[verifier::opaque]
pub open spec fn normal_post(o: App, n: App, key: Key, r: Option<Command>) -> bool {
    &&& (key == Key::Char('q') ==> n.quit && r.is_none())
    &&& (key == Key::Esc && o.filter_query@.len() == 0 ==> n.quit && r.is_none())
    &&& (key == Key::Esc && o.filter_query@.len() > 0 ==> n.quit == o.quit && n.filter_query@.len() == 0 && n.selected == 0 && r.is_none())
    &&& (key == Key::Char('/') ==> n.input_mode == InputMode::Filtering && n.filter_query@.len() == 0 && r.is_none())
    &&& (key == Key::Char('s') ==> n.sort_picking && r.is_none())
    &&& (key == Key::Char('A') ==> r.is_none() && (o.selected < o.view_len() ==> n.input_mode == InputMode::EditingAlert && n.alert_input_buf@.len() == 0 && n.alert_direction == AlertDirection::Above) && (o.selected >= o.view_len() ==> n.input_mode == o.input_mode))
    &&& (key == Key::Tab ==> n.tab == o.tab.next_spec() && r.is_none())
    &&& (key == Key::Char('1') ==> n.tab == Tab::Markets && n.selected == 0 && r.is_none())
    &&& (key == Key::Char('2') ==> n.tab == Tab::Favourites && n.selected == 0 && r.is_none())
    &&& (key == Key::Char('3') ==> n.tab == Tab::Portfolio && n.selected == 0 && r.is_none())
    &&& ((key == Key::Down || key == Key::Char('j')) ==> n.selected == moved_down( o.selected as int, 1, o.view_len() as int, ) && r.is_none())
    &&& ((key == Key::Up || key == Key::Char('k')) ==> n.selected == if o.selected >= 1 { o.selected - 1 } else { 0 } && r.is_none())
    &&& ((key == Key::PageDown || key == Key::Ctrl('d')) ==> n.selected == moved_down( o.selected as int, o.page_height as int, o.view_len() as int, ) && r.is_none())
    &&& (key == Key::Char('g') ==> n.selected == 0 && r.is_none())
    &&& (key == Key::Char('G') && o.view_len() > 0 ==> n.selected == o.view_len() - 1)
    &&& (key == Key::Enter ==> (n.popup_open <==> (o.popup_open || o.selected < o.view_len())))
    &&& (key == Key::Enter && o.selected < o.view_len() ==> { &&& n.chart_view == ChartView::Day1 &&& (o.chart_cache.cached(o.coins@[o.view()[o.selected as int] as int].id@, 1).is_none() && !(o.loading_chart && o.chart_pending.is_some() && o.chart_pending.unwrap().0@ == o.coins@[o.view()[o.selected as int] as int].id@ && o.chart_pending.unwrap().1 == 1)) ==> r.is_some() &&& match r { Some(Command::FetchChart { coin_id, days }) => coin_id@ == o.coins@[o.view()[o.selected as int] as int].id@ && days == 1, Some(_) => false, None => true, } })
    &&& (key == Key::Enter && o.selected >= o.view_len() ==> r.is_none())
    &&& (key == Key::Char('f') ==> (r.is_some() <==> o.selected < o.view_len()) && match r { Some(Command::ToggleFavourite { coin_id }) => coin_id@ == o.coins@[o.view()[o.selected as int] as int].id@, Some(_) => false, None => true, })
    &&& (key == Key::Char('d') ==> (r.is_some() <==> o.selected < o.view_len()) && match r { Some(Command::SaveHolding { coin_id, amount, buy_price }) => amount == 0 && buy_price.is_none() && crate::portfolio::holding_of(n.holdings@, coin_id@).is_none() && coin_id@ == o.coins@[o.view()[o.selected as int] as int].id@, Some(_) => false, None => true, })
    &&& (key == Key::Char('r') ==> n.loading && match r { Some(Command::Refresh) => true, _ => false, })
    &&& (key == Key::Char('S') ==> n.input_mode == InputMode::Settings && r.is_none())
    &&& (key == Key::Char('a') ==> r.is_none() && (o.selected < o.view_len() ==> n.input_mode == InputMode::EditingAmount) && n.holdings == o.holdings)
    &&& (key == Key::Char('a') && o.selected < o.view_len() ==> n.input_buf@ == if amount_of( o.holdings@, o.coins@[o.view()[o.selected as int] as int].id@, ) > 0 { crate::number::fixed_text(amount_of(o.holdings@, o.coins@[o.view()[o.selected as int] as int].id@) as nat) } else { Seq::empty() })
    &&& (key == Key::Char('d') && o.selected < o.view_len() ==> (n.view_len() == 0 && n.selected == 0 || n.selected < n.view_len()))
    &&& (key == Key::Char('b') ==> r.is_none() && n.holdings == o.holdings)
    &&& (key == Key::Char('b') && o.selected < o.view_len() && amount_of( o.holdings@, o.coins@[o.view()[o.selected as int] as int].id@, ) > 0 ==> n.input_mode == InputMode::EditingBuyPrice && n.buy_price_buf@ == match crate::portfolio::buy_price_of( o.holdings@, o.coins@[o.view()[o.selected as int] as int].id@, ) { Some(p) => crate::number::fixed_text(p as nat), None => Seq::empty(), })
    &&& (key == Key::Char('c') ==> n.input_mode == InputMode::SearchCoin && n.search_query@.len() == 0 && n.search_results@.len() == 0 && r.is_none())
    &&& (key != Key::Char('d') ==> n.holdings == o.holdings)
}

/// A key press, as the terminal reports it.
#[derive(Debug, Clone, Copy, PartialEq, Eq, Structural)]
pub enum Key {
    Char(char),
    /// A character typed with Control held.
    Ctrl(char),
    Enter,
    Esc,
    Backspace,
    Tab,
    Up,
    Down,
    Left,
    Right,
    PageUp,
    PageDown,
    Other,
}

/// A mouse event on the main table.
#[derive(Debug, Clone, Copy, PartialEq, Eq, Structural)]
pub enum Mouse {
    LeftClick { row: u16, column: u16 },
    ScrollDown,
    ScrollUp,
}

/// Outside work the event loop must perform after a transition. Each
/// completion is handed back through the matching `App` method.
#[derive(Debug)]
pub enum Command {
    /// Open (or, when `creating`, create) the encrypted store; report with
    /// `store_opened`.
    OpenStore { password: String, creating: bool },
    /// Persist a new alert, then re-read the alerts (`refresh_alerts`).
    AddAlert { coin_id: String, target_price: u64, direction: AlertDirection },
    /// Persist a buy-in price, then re-read favourites and holdings.
    SetBuyPrice { coin_id: String, price: u64 },
    /// Persist a quantity (zero deletes), then re-read favourites and
    /// holdings.
    SaveHolding { coin_id: String, amount: u64, buy_price: Option<u64> },
    /// Flip favourite membership, re-read favourites and holdings, clamp.
    ToggleFavourite { coin_id: String },
    /// Make a search hit a favourite (unless it is one), fetch its market
    /// data when `fetch_market` (`add_coin`), re-read the store, clamp.
    AddFromSearch { coin_id: String, fetch_market: bool },
    /// Full manual refresh: snapshot, store, clamp, alerts, global figures.
    Refresh,
    /// Fetch a price series; report with `chart_fetched`.
    FetchChart { coin_id: String, days: u32 },
    /// Run a coin search; report with `search_finished`.
    Search { query: String },
    /// Persist the settings and the configuration, rebuild the market-data
    /// client, and refresh the snapshot when `currency_changed`.
    SaveSettings {
        coingecko_api_key: String,
        cmc_api_key: String,
        currency: String,
        notification_method: String,
        ntfy_topic: String,
        currency_changed: bool,
    },
}

/// A text buffer after an editing key: Backspace drops the last character;
/// a character is appended, in a numeric buffer only a digit or `.`.
pub open spec fn edited(buf: Seq<char>, key: Key, numeric: bool) -> Seq<char> {
    match key {
        Key::Backspace => if buf.len() > 0 {
            buf.drop_last()
        } else {
            buf
        },
        Key::Char(c) => if !numeric || is_digit(c) || c == '.' {
            buf.push(c)
        } else {
            buf
        },
        _ => buf,
    }
}

fn edit_buffer(buf: &mut String, key: Key, numeric: bool)
    ensures
        final(buf)@ == edited(old(buf)@, key, numeric),
{
    match key {
        Key::Backspace => {
            pop_char(buf);
        },
        Key::Char(c) => {
            if !numeric || accepts_numeric_char(c) {
                push_char(buf, c);
            }
        },
        _ => {},
    }
}

/// The sort state after picking `col`: a new column sorts ascending; the
/// current column goes ascending, descending, then unsorted.
pub open spec fn toggled(column: Option<SortColumn>, direction: SortDirection, col: SortColumn) -> (
    Option<SortColumn>,
    SortDirection,
) {
    if column == Some(col) {
        if direction == SortDirection::Asc {
            (Some(col), SortDirection::Desc)
        } else {
            (None, SortDirection::Asc)
        }
    } else {
        (Some(col), SortDirection::Asc)
    }
}

/// Picking the same column cycles: from an ascending sort, two picks give no
/// sort and a third restarts at ascending; from no sort, three picks return
/// to no sort.
pub proof fn lemma_toggle_cycle(direction: SortDirection, col: SortColumn)
    ensures
        ({
            let s1 = toggled(Some(col), SortDirection::Asc, col);
            let s2 = toggled(s1.0, s1.1, col);
            let s3 = toggled(s2.0, s2.1, col);
            &&& s2.0.is_none()
            &&& s3 == (Some(col), SortDirection::Asc)
        }),
        ({
            let t1 = toggled(None, direction, col);
            let t2 = toggled(t1.0, t1.1, col);
            let t3 = toggled(t2.0, t2.1, col);
            &&& t1 == (Some(col), SortDirection::Asc)
            &&& t2 == (Some(col), SortDirection::Desc)
            &&& t3.0.is_none()
        }),
{
}

/// The sort column a key picks in the sort overlay.
pub open spec fn sort_key_column(c: char) -> Option<SortColumn> {
    if c == 'r' || c == '#' {
        Some(SortColumn::Rank)
    } else if c == 'n' {
        Some(SortColumn::Name)
    } else if c == 'p' {
        Some(SortColumn::Price)
    } else if c == '1' {
        Some(SortColumn::Change1h)
    } else if c == '2' {
        Some(SortColumn::Change24h)
    } else if c == '7' {
        Some(SortColumn::Change7d)
    } else if c == 'v' {
        Some(SortColumn::Volume)
    } else if c == 'm' {
        Some(SortColumn::MarketCap)
    } else {
        None
    }
}

fn sort_column_for(c: char) -> (r: Option<SortColumn>)
    ensures
        r == sort_key_column(c),
{
    match c {
        'r' | '#' => Some(SortColumn::Rank),
        'n' => Some(SortColumn::Name),
        'p' => Some(SortColumn::Price),
        '1' => Some(SortColumn::Change1h),
        '2' => Some(SortColumn::Change24h),
        '7' => Some(SortColumn::Change7d),
        'v' => Some(SortColumn::Volume),
        'm' => Some(SortColumn::MarketCap),
        _ => None,
    }
}

impl App {
    /// Applies a pick of `col` to the sort state (see `toggled`).
    pub fn toggle_sort(&mut self, col: SortColumn)
        ensures
            (final(self).sort_column, final(self).sort_direction) == toggled(
                old(self).sort_column,
                old(self).sort_direction,
                col,
            ),
            *final(self) == (App {
                sort_column: final(self).sort_column,
                sort_direction: final(self).sort_direction,
                ..*old(self)
            }),
    {
        if self.sort_column == Some(col) {
            match self.sort_direction {
                SortDirection::Asc => self.sort_direction = SortDirection::Desc,
                SortDirection::Desc => {
                    self.sort_column = None;
                    self.sort_direction = SortDirection::Asc;
                },
            }
        } else {
            self.sort_column = Some(col);
            self.sort_direction = SortDirection::Asc;
        }
    }

    /// Decides whether the chart popup needs a fetch: none when the
    /// selected asset's series for the current range is cached, or is
    /// already being fetched; otherwise marks it loading and asks for it.
    pub fn fetch_chart_if_needed(&mut self) -> (r: Option<Command>)
        ensures
            match r {
                Some(Command::FetchChart { coin_id, days }) => {
                    &&& old(self).selected < old(self).view_len()
                    &&& coin_id@ == old(self).coins@[old(self).view()[old(self).selected as int] as int].id@
                    &&& days == old(self).chart_view.spec_days()
                    &&& old(self).chart_cache.cached(coin_id@, days).is_none()
                    &&& final(self).loading_chart
                    &&& final(self).chart_pending.is_some()
                    &&& final(self).chart_pending.unwrap().0@ == coin_id@
                    &&& final(self).chart_pending.unwrap().1 == days
                    &&& !(old(self).loading_chart && old(self).chart_pending.is_some()
                        && old(self).chart_pending.unwrap().0@ == coin_id@
                        && old(self).chart_pending.unwrap().1 == days)
                },
                Some(_) => false,
                None => final(self).loading_chart == old(self).loading_chart
                    && final(self).chart_pending == old(self).chart_pending,
            },
            old(self).selected < old(self).view_len() && old(self).chart_cache.cached(
                old(self).coins@[old(self).view()[old(self).selected as int] as int].id@,
                old(self).chart_view.spec_days(),
            ).is_none() && !(old(self).loading_chart && old(self).chart_pending.is_some()
                && old(self).chart_pending.unwrap().0@ == old(self).coins@[old(self).view()[old(self).selected as int] as int].id@
                && old(self).chart_pending.unwrap().1 == old(self).chart_view.spec_days()) ==> r.is_some(),
            *final(self) == (App {
                loading_chart: final(self).loading_chart,
                chart_pending: final(self).chart_pending,
                ..*old(self)
            }),
    {
        let coin_id = match self.selected_coin() {
            Some(c) => c.id.clone(),
            None => {
                return None;
            },
        };
        let days = self.chart_view.days();
        if self.chart_cache.contains(&coin_id, days) {
            return None;
        }
        let busy = match &self.chart_pending {
            Some(p) => self.loading_chart && p.1 == days && p.0 == coin_id,
            None => false,
        };
        if busy {
            return None;
        }
        self.loading_chart = true;
        self.chart_pending = Some((coin_id.clone(), days));
        Some(Command::FetchChart { coin_id, days })
    }

    /// Takes the outcome of a chart fetch for `(coin_id, days)`: a series is
    /// cached under the key it was requested for; a failure shows an error
    /// and caches nothing, so a later visit retries.
    #[verifier::rlimit(100)]
    pub fn chart_fetched(&mut self, coin_id: String, days: u32, result: Result<Vec<u64>, String>, now: u64)
        ensures
            match result {
                Ok(prices) => final(self).chart_cache.cached(coin_id@, days) == Some(prices@),
                Err(e) => final(self).chart_cache == old(self).chart_cache && final(self).error.is_some()
                    && final(self).error.unwrap()@ == crate::text::truncated(
                    "Chart: "@ + e@,
                    crate::app::ERROR_DISPLAY_CHARS as nat,
                ) && final(self).error_time == Some(now),
            },

            forall|id: Seq<char>, d: u32|
                !(id == coin_id@ && d == days) ==> #[trigger] final(self).chart_cache.cached(id, d) == old(self).chart_cache.cached(id, d),
            (old(self).chart_pending.is_some() && old(self).chart_pending.unwrap().0@ == coin_id@
                && old(self).chart_pending.unwrap().1 == days) ==> !final(self).loading_chart
                && final(self).chart_pending.is_none(),
            final(self).coins == old(self).coins,
            final(self).input_mode == old(self).input_mode,
    {
        let ours = match &self.chart_pending {
            Some(p) => p.1 == days && p.0 == coin_id,
            None => false,
        };
        match result {
            Ok(prices) => {
                let id = coin_id.clone();
                self.chart_cache.insert(id, days, PriceHistory { prices });
            },
            Err(e) => {
                self.set_error(join("Chart: ", e.as_str()), now);
            },
        }
        if ours {
            self.loading_chart = false;
            self.chart_pending = None;
        }
    }

    /// Takes the outcome of opening the store after a password entry.
    /// Opening an existing store also loads what it holds; a failure goes
    /// back to the password prompt with a message.
    pub fn store_opened(&mut self, creating: bool, result: Result<StoredSettings, String>)
        ensures
            result.is_ok() ==> final(self).unlocked && final(self).input_mode == InputMode::Normal
                && final(self).password_buf@.len() == 0 && final(self).password_first@.len() == 0,
            result.is_err() ==> !final(self).unlocked == !old(self).unlocked && final(self).password_error.is_some()
                && final(self).password_buf@.len() == 0,
            result.is_err() && creating ==> final(self).input_mode == InputMode::Password
                && final(self).password_first@.len() == 0,
            result.is_err() && !creating ==> final(self).input_mode == old(self).input_mode
                && final(self).password_error.unwrap()@ == "Wrong password"@,
            final(self).is_new_db == old(self).is_new_db,
            final(self).coins == old(self).coins,
            match result {
                Ok(stored) => !creating ==> {
                    &&& final(self).coingecko_api_key@ == match stored.coingecko_api_key {
                        Some(v) => v@,
                        None => Seq::empty(),
                    }
                    &&& final(self).cmc_api_key@ == match stored.cmc_api_key {
                        Some(v) => v@,
                        None => Seq::empty(),
                    }
                    &&& final(self).ntfy_topic@ == match stored.ntfy_topic {
                        Some(v) => v@,
                        None => Seq::empty(),
                    }
                    &&& final(self).notification_method == crate::types::spec_method_from(
                        match stored.notification_method {
                            Some(v) => v@,
                            None => Seq::empty(),
                        },
                    )
                    &&& final(self).settings_notification_idx == crate::types::spec_method_position(
                        final(self).notification_method,
                    )
                    &&& final(self).alerts@ == match stored.alerts {
                        Some(v) => v@,
                        None => Seq::empty(),
                    }
                },
                Err(_) => true,
            },
    {
        match result {
            Ok(stored) => {
                if !creating {
                    self.load_api_keys_from_db(stored);
                }
                self.unlock();
            },
            Err(e) => {
                if creating {
                    self.password_error = Some(join("DB error: ", e.as_str()));
                    self.password_first = String::new();
                    self.input_mode = InputMode::Password;
                } else {
                    self.password_error = Some(String::from_str("Wrong password"));
                }
                self.password_buf = String::new();
            },
        }
    }

    /// Takes the outcome of a coin search.
    pub fn search_finished(&mut self, result: Result<Vec<SearchResult>, String>)
        ensures
            !final(self).search_loading,
            match result {
                Ok(hits) => if hits@.len() == 0 {
                    final(self).search_error.is_some() && final(self).input_mode == old(self).input_mode
                } else {
                    final(self).search_results@ == hits@ && final(self).search_selected == 0
                        && final(self).input_mode == InputMode::SearchResults
                },
                Err(e) => final(self).search_error.is_some() && final(self).search_error.unwrap()@ == "Search: "@
                    + e@ && final(self).input_mode == old(self).input_mode,
            },
    {
        match result {
            Ok(hits) => {
                if hits.len() == 0 {
                    self.search_error = Some(String::from_str("No results found"));
                } else {
                    self.search_results = hits;
                    self.search_selected = 0;
                    self.input_mode = InputMode::SearchResults;
                }
            },
            Err(e) => {
                self.search_error = Some(join("Search: ", e.as_str()));
            },
        }
        self.search_loading = false;
    }
}


/// Index `i` moved down by `step` rows, stopping at the last of `len` rows.
pub open spec fn moved_down(i: int, step: int, len: int) -> int {
    if len == 0 {
        i
    } else if i + step >= len - 1 {
        len - 1
    } else {
        i + step
    }
}

fn move_down(i: usize, step: usize, len: usize) -> (r: usize)
    ensures
        r == moved_down(i as int, step as int, len as int),
{
    if len == 0 {
        i
    } else if i >= len - 1 || len - 1 - i <= step {
        len - 1
    } else {
        i + step
    }
}

fn move_up(i: usize, step: usize) -> (r: usize)
    ensures
        r == if i >= step {
            i - step
        } else {
            0
        },
{
    if i >= step {
        i - step
    } else {
        0
    }
}

impl App {
    /// Password prompt. Enter with an empty buffer complains; for a new
    /// store it asks for confirmation; otherwise it asks to open the store.
    pub fn password_key(&mut self, key: Key) -> (r: Option<Command>)
        ensures
            password_post(*old(self), *final(self), key, r),
    {
        proof {
            reveal(password_post);
        }
        match key {
            Key::Esc => {
                self.quit = true;
                None
            },
            Key::Enter => {
                if self.password_buf.as_str().is_empty() {
                    self.password_error = Some(String::from_str("Password cannot be empty"));
                    None
                } else if self.is_new_db {
                    self.password_first = self.password_buf.clone();
                    self.password_buf = String::new();
                    self.password_error = None;
                    self.input_mode = InputMode::PasswordConfirm;
                    None
                } else {
                    Some(Command::OpenStore { password: self.password_buf.clone(), creating: false })
                }
            },
            _ => {
                edit_buffer(&mut self.password_buf, key, false);
                None
            },
        }
    }

    /// Password confirmation for a new store: a match asks to create the
    /// store; a mismatch or Esc goes back to the first prompt.
    pub fn confirm_key(&mut self, key: Key) -> (r: Option<Command>)
        ensures
            confirm_post(*old(self), *final(self), key, r),
    {
        proof {
            reveal(confirm_post);
        }
        match key {
            Key::Esc => {
                self.input_mode = InputMode::Password;
                self.password_buf = String::new();
                self.password_first = String::new();
                self.password_error = None;
                None
            },
            Key::Enter => {
                if self.password_buf == self.password_first {
                    Some(Command::OpenStore { password: self.password_buf.clone(), creating: true })
                } else {
                    self.password_error = Some(String::from_str("Passwords do not match"));
                    self.password_buf = String::new();
                    self.password_first = String::new();
                    self.input_mode = InputMode::Password;
                    None
                }
            },
            _ => {
                edit_buffer(&mut self.password_buf, key, false);
                None
            },
        }
    }

    /// Filter entry: every edit restarts the cursor at the top; Enter keeps
    /// the filter, Esc drops it.
    pub fn filtering_key(&mut self, key: Key)
        ensures
            filtering_post(*old(self), *final(self), key),
    {
        proof {
            reveal(filtering_post);
        }
        match key {
            Key::Esc => {
                self.filter_query = String::new();
                self.input_mode = InputMode::Normal;
            },
            Key::Enter => {
                self.input_mode = InputMode::Normal;
                self.selected = 0;
            },
            Key::Backspace | Key::Char(_) => {
                edit_buffer(&mut self.filter_query, key, false);
                self.selected = 0;
            },
            _ => {},
        }
        self.clamp_selection();
    }

    /// Alert entry: Tab flips the direction; Enter submits a valid price for
    /// the selected asset; both Enter and Esc leave with an empty buffer.
    pub fn alert_key(&mut self, key: Key) -> (r: Option<Command>)
        ensures
            alert_post(*old(self), *final(self), key, r),
    {
        proof {
            reveal(alert_post);
        }
        match key {
            Key::Esc => {
                self.input_mode = InputMode::Normal;
                self.alert_input_buf = String::new();
                None
            },
            Key::Tab => {
                self.alert_direction = match self.alert_direction {
                    AlertDirection::Above => AlertDirection::Below,
                    AlertDirection::Below => AlertDirection::Above,
                };
                None
            },
            Key::Enter => {
                let mut cmd: Option<Command> = None;
                if let Some(price) = parse_fixed(&self.alert_input_buf) {
                    if let Some(coin) = self.selected_coin() {
                        cmd = Some(
                            Command::AddAlert {
                                coin_id: coin.id.clone(),
                                target_price: price,
                                direction: self.alert_direction,
                            },
                        );
                    }
                }
                self.input_mode = InputMode::Normal;
                self.alert_input_buf = String::new();
                cmd
            },
            _ => {
                edit_buffer(&mut self.alert_input_buf, key, true);
                None
            },
        }
    }

    /// Buy-in price entry: Enter submits a valid price for the selected
    /// asset; both Enter and Esc leave with an empty buffer.
    pub fn buy_price_key(&mut self, key: Key) -> (r: Option<Command>)
        ensures
            buy_price_post(*old(self), *final(self), key, r),
    {
        proof {
            reveal(buy_price_post);
        }
        match key {
            Key::Esc => {
                self.input_mode = InputMode::Normal;
                self.buy_price_buf = String::new();
                None
            },
            Key::Enter => {
                let mut cmd: Option<Command> = None;
                if let Some(price) = parse_fixed(&self.buy_price_buf) {
                    if let Some(coin) = self.selected_coin() {
                        cmd = Some(Command::SetBuyPrice { coin_id: coin.id.clone(), price });
                    }
                }
                self.input_mode = InputMode::Normal;
                self.buy_price_buf = String::new();
                cmd
            },
            _ => {
                edit_buffer(&mut self.buy_price_buf, key, true);
                None
            },
        }
    }

    /// Quantity entry: Enter with a valid quantity records it for the
    /// selected asset (see `edit_holding`: opening a position captures the
    /// current price as buy-in price) and asks to persist it. Text that is
    /// not a number changes no holding.
    #[verifier::rlimit(100)]
    pub fn amount_key(&mut self, key: Key) -> (r: Option<Command>)
        ensures
            amount_post(*old(self), *final(self), key, r),
    {
        proof {
            reveal(amount_post);
        }
        match key {
            Key::Esc => {
                self.input_mode = InputMode::Normal;
                self.input_buf = String::new();
                None
            },
            Key::Enter => {
                let mut cmd: Option<Command> = None;
                if let Some(amount) = parse_fixed(&self.input_buf) {
                    if let Some(k) = self.selected_index() {
                        let coin_id = self.coins[k].id.clone();
                        let price = self.coins[k].current_price;
                        let buy = edit_holding(&mut self.holdings, &coin_id, amount, price);
                        cmd = Some(Command::SaveHolding { coin_id, amount, buy_price: buy });
                    }
                }
                self.input_mode = InputMode::Normal;
                self.input_buf = String::new();
                self.clamp_selection();
                cmd
            },
            _ => {
                edit_buffer(&mut self.input_buf, key, true);
                None
            },
        }
    }
}


/// The state and command after the edited settings are saved: they become
/// current, the chart cache is emptied, and the command carries them.
pub open spec fn saved(o: App, n: App, c: Command) -> bool {
    &&& n.input_mode == InputMode::Normal
    &&& n.chart_cache.size() == 0
    &&& n.coingecko_api_key@ == o.settings_coingecko_key@
    &&& n.cmc_api_key@ == o.settings_cmc_key@
    &&& n.ntfy_topic@ == o.settings_ntfy_topic@
    &&& n.config.currency@ == crate::types::spec_currency(o.settings_currency_idx as int % CURRENCY_COUNT as int)
    &&& n.config.theme@ == crate::types::spec_theme(o.settings_theme_idx as int % THEME_COUNT as int)
    &&& n.notification_method == crate::types::spec_method_from(
        crate::types::spec_method_name(o.settings_notification_idx as int % NOTIFICATION_METHOD_COUNT as int),
    )
    &&& match c {
        Command::SaveSettings { currency, currency_changed, .. } => currency@ == n.config.currency@
            && currency_changed == (currency@ != o.config.currency@) && (currency_changed ==> n.loading),
        _ => false,
    }
    &&& n.coins == o.coins
    &&& n.holdings == o.holdings
}

impl App {
    /// Settings screen. While a text field is being edited, keys edit it and
    /// Enter or Esc stop editing. Otherwise keys move between fields, cycle
    /// the value of a cycle field, start editing a text field, leave (Esc or
    /// `q`), or save (`s`): the edited values become current, the chart cache
    /// is dropped (prices are in the old currency) and the caller persists.
    #[verifier::rlimit(60)]
    pub fn handle_settings_key(&mut self, key: Key) -> (r: Option<Command>)
        ensures
            settings_post(*old(self), *final(self), key, r),
    {
        proof {
            reveal(settings_post);
        }
        if self.settings_editing {
            match key {
                Key::Esc | Key::Enter => {
                    self.settings_editing = false;
                },
                _ => match self.settings_field {
                    SettingsField::CoingeckoApiKey => edit_buffer(&mut self.settings_coingecko_key, key, false),
                    SettingsField::CoinmarketcapApiKey => edit_buffer(&mut self.settings_cmc_key, key, false),
                    SettingsField::NtfyTopic => edit_buffer(&mut self.settings_ntfy_topic, key, false),
                    _ => {},
                },
            }
            return None;
        }
        match key {
            Key::Esc | Key::Char('q') => {
                self.input_mode = InputMode::Normal;
                None
            },
            Key::Char('j') | Key::Down | Key::Tab => {
                self.settings_field = self.settings_field.next();
                None
            },
            Key::Char('k') | Key::Up => {
                self.settings_field = self.settings_field.prev();
                None
            },
            Key::Enter | Key::Char('e') => {
                if self.settings_field.is_text_field() {
                    self.settings_editing = true;
                }
                None
            },
            Key::Char('h') | Key::Left => {
                match self.settings_field {
                    SettingsField::Currency => self.cycle_currency(false),
                    SettingsField::Theme => self.cycle_theme(false),
                    SettingsField::Notifications => self.cycle_notification(false),
                    _ => {},
                }
                None
            },
            Key::Char('l') | Key::Right => {
                match self.settings_field {
                    SettingsField::Currency => self.cycle_currency(true),
                    SettingsField::Theme => self.cycle_theme(true),
                    SettingsField::Notifications => self.cycle_notification(true),
                    _ => {},
                }
                None
            },
            Key::Char('s') => Some(self.save_settings()),
            _ => None,
        }
    }

    /// Makes the edited settings current (see `handle_settings_key`).
    #[verifier::rlimit(100)]
    pub fn save_settings(&mut self) -> (r: Command)
        ensures
            saved(*old(self), *final(self), r),
            final(self).input_mode == InputMode::Normal,
            final(self).chart_cache.size() == 0,
            final(self).coingecko_api_key@ == old(self).settings_coingecko_key@,
            final(self).cmc_api_key@ == old(self).settings_cmc_key@,
            final(self).ntfy_topic@ == old(self).settings_ntfy_topic@,
            final(self).config.currency@ == crate::types::spec_currency(
                old(self).settings_currency_idx as int % CURRENCY_COUNT as int,
            ),
            final(self).config.theme@ == crate::types::spec_theme(old(self).settings_theme_idx as int % THEME_COUNT as int),
            final(self).notification_method == crate::types::spec_method_from(
                crate::types::spec_method_name(old(self).settings_notification_idx as int % NOTIFICATION_METHOD_COUNT as int),
            ),
            match r {
                Command::SaveSettings { currency, currency_changed, .. } => currency@ == final(self).config.currency@
                    && currency_changed == (currency@ != old(self).config.currency@) && (currency_changed
                    ==> final(self).loading),
                _ => false,
            },
            final(self).coins == old(self).coins,
            final(self).holdings == old(self).holdings,
    {
        let new_currency = String::from_str(currency_code(self.settings_currency_idx % CURRENCY_COUNT));
        let new_theme = String::from_str(theme_name(self.settings_theme_idx % THEME_COUNT));
        let currency_changed = !str_eq(new_currency.as_str(), self.config.currency.as_str());
        let method = notification_method_name(self.settings_notification_idx % NOTIFICATION_METHOD_COUNT);
        let new_method = notification_method_from_str(method);
        let refresh_interval_secs = self.config.refresh_interval_secs;
        let config = crate::types::Config { refresh_interval_secs, currency: new_currency.clone(), theme: new_theme };
        self.coingecko_api_key = self.settings_coingecko_key.clone();
        self.cmc_api_key = self.settings_cmc_key.clone();
        self.config = config;
        self.notification_method = new_method;
        self.ntfy_topic = self.settings_ntfy_topic.clone();
        self.chart_cache.clear();
        if currency_changed {
            self.loading = true;
        }
        self.input_mode = InputMode::Normal;
        Command::SaveSettings {
            coingecko_api_key: self.coingecko_api_key.clone(),
            cmc_api_key: self.cmc_api_key.clone(),
            currency: new_currency,
            notification_method: String::from_str(method),
            ntfy_topic: self.ntfy_topic.clone(),
            currency_changed,
        }
    }

    /// Search query entry: Enter with a non-empty query starts a search.
    pub fn search_key(&mut self, key: Key) -> (r: Option<Command>)
        ensures
            search_post(*old(self), *final(self), key, r),
    {
        proof {
            reveal(search_post);
        }
        match key {
            Key::Esc => {
                self.input_mode = InputMode::Normal;
                self.search_query = String::new();
                self.search_error = None;
                None
            },
            Key::Enter => {
                if self.search_query.as_str().is_empty() {
                    None
                } else {
                    self.search_loading = true;
                    self.search_error = None;
                    Some(Command::Search { query: self.search_query.clone() })
                }
            },
            _ => {
                edit_buffer(&mut self.search_query, key, false);
                None
            },
        }
    }

    /// Search hits: move the cursor, go back (Esc), or add the hit under
    /// the cursor (Enter) and switch to the favourites tab.
    pub fn search_results_key(&mut self, key: Key) -> (r: Option<Command>)
        ensures
            search_results_post(*old(self), *final(self), key, r),
    {
        proof {
            reveal(search_results_post);
        }
        match key {
            Key::Esc => {
                self.input_mode = InputMode::Normal;
                self.search_results = Vec::new();
                self.search_query = String::new();
                self.search_error = None;
                None
            },
            Key::Char('j') | Key::Down => {
                self.search_selected = move_down(self.search_selected, 1, self.search_results.len());
                None
            },
            Key::Char('k') | Key::Up => {
                self.search_selected = move_up(self.search_selected, 1);
                None
            },
            Key::Enter => {
                if self.search_selected < self.search_results.len() {
                    let coin_id = self.search_results[self.search_selected].id.clone();
                    let fetch_market = find_coin(&self.coins, &coin_id).is_none();
                    self.input_mode = InputMode::Normal;
                    self.search_query = String::new();
                    self.search_results = Vec::new();
                    self.tab = Tab::Favourites;
                    self.selected = 0;
                    Some(Command::AddFromSearch { coin_id, fetch_market })
                } else {
                    None
                }
            },
            _ => None,
        }
    }

    /// The one-shot sort overlay: the key picks a column (see `toggled`),
    /// Esc drops the sort, anything else leaves it; the overlay closes and
    /// the cursor goes to the top.
    pub fn sort_pick_key(&mut self, key: Key)
        ensures
            sort_pick_post(*old(self), *final(self), key),
    {
        proof {
            reveal(sort_pick_post);
        }
        self.sort_picking = false;
        match key {
            Key::Char(c) => {
                if let Some(col) = sort_column_for(c) {
                    self.toggle_sort(col);
                }
            },
            Key::Esc => {
                self.sort_column = None;
            },
            _ => {},
        }
        self.selected = 0;
        self.clamp_selection();
    }

    /// The chart popup: close it, or step the range and look the new range
    /// up (see `fetch_chart_if_needed`).
    pub fn popup_key(&mut self, key: Key) -> (r: Option<Command>)
        ensures
            popup_post(*old(self), *final(self), key, r),
    {
        proof {
            reveal(popup_post);
        }
        match key {
            Key::Esc | Key::Char('q') => {
                self.popup_open = false;
                None
            },
            Key::Char('l') | Key::Right => {
                self.chart_view = self.chart_view.next();
                self.fetch_chart_if_needed()
            },
            Key::Char('h') | Key::Left => {
                self.chart_view = self.chart_view.prev();
                self.fetch_chart_if_needed()
            },
            _ => None,
        }
    }
}


/// Keys that move the cursor, switch tabs, filter, sort or quit.
pub open spec fn spec_is_browse_key(key: Key) -> bool {
    key == Key::Char('q') || key == Key::Esc || key == Key::Char('/') || key == Key::Char('s') || key == Key::Tab
        || key == Key::Char('1') || key == Key::Char('2') || key == Key::Char('3') || key == Key::Char('j')
        || key == Key::Down || key == Key::Char('k') || key == Key::Up || key == Key::PageDown || key == Key::Ctrl('d')
        || key == Key::PageUp || key == Key::Ctrl('u') || key == Key::Char('g') || key == Key::Char('G')
}

fn is_browse_key(key: Key) -> (r: bool)
    ensures
        r == spec_is_browse_key(key),
{
    match key {
        Key::Char(c) => c == 'q' || c == '/' || c == 's' || c == '1' || c == '2' || c == '3' || c == 'j' || c == 'k'
            || c == 'g' || c == 'G',
        Key::Ctrl(c) => c == 'd' || c == 'u',
        Key::Esc | Key::Tab | Key::Down | Key::Up | Key::PageDown | Key::PageUp => true,
        _ => false,
    }
}

/// The key a handler sees: Control chords count as their plain character,
/// except Ctrl-D and Ctrl-U while browsing the table.
pub open spec fn routed_key(o: App, key: Key) -> Key {
    match key {
        Key::Ctrl(c) => if o.input_mode == InputMode::Normal && !o.sort_picking && !o.popup_open && (c == 'd'
            || c == 'u') {
            key
        } else {
            Key::Char(c)
        },
        _ => key,
    }
}

impl App {
    /// Browsing the table: cursor movement, tab switching, and the keys that
    /// open each modal surface or ask for outside work.
    pub fn normal_key(&mut self, key: Key) -> (r: Option<Command>)
        ensures
            normal_post(*old(self), *final(self), key, r),
    {
        if is_browse_key(key) {
            self.browse_key(key)
        } else {
            self.row_key(key)
        }
    }

    /// The keys of `normal_key` that move around the table.
    #[verifier::rlimit(100)]
    fn browse_key(&mut self, key: Key) -> (r: Option<Command>)
        requires
            spec_is_browse_key(key),
        ensures
            normal_post(*old(self), *final(self), key, r),
    {
        proof {
            reveal(normal_post);
        }
        match key {
            Key::Char('q') => {
                self.quit = true;
                None
            },
            Key::Esc => {
                if !self.filter_query.as_str().is_empty() {
                    self.filter_query = String::new();
                    self.selected = 0;
                    self.clamp_selection();
                } else {
                    self.quit = true;
                }
                None
            },
            Key::Char('/') => {
                self.filter_query = String::new();
                self.input_mode = InputMode::Filtering;
                None
            },
            Key::Char('s') => {
                self.sort_picking = true;
                None
            },
            Key::Tab => {
                self.tab = self.tab.next();
                self.selected = 0;
                self.clamp_selection();
                None
            },
            Key::Char('1') => {
                self.tab = Tab::Markets;
                self.selected = 0;
                None
            },
            Key::Char('2') => {
                self.tab = Tab::Favourites;
                self.selected = 0;
                self.clamp_selection();
                None
            },
            Key::Char('3') => {
                self.tab = Tab::Portfolio;
                self.selected = 0;
                self.clamp_selection();
                None
            },
            Key::Char('j') | Key::Down => {
                let len = self.visible_coins().len();
                self.selected = move_down(self.selected, 1, len);
                self.adjust_scroll();
                None
            },
            Key::Char('k') | Key::Up => {
                self.selected = move_up(self.selected, 1);
                self.adjust_scroll();
                None
            },
            Key::PageDown | Key::Ctrl('d') => {
                let len = self.visible_coins().len();
                self.selected = move_down(self.selected, self.page_height, len);
                self.adjust_scroll();
                None
            },
            Key::PageUp | Key::Ctrl('u') => {
                self.selected = move_up(self.selected, self.page_height);
                self.adjust_scroll();
                None
            },
            Key::Char('g') => {
                self.selected = 0;
                self.adjust_scroll();
                None
            },
            Key::Char('G') => {
                let len = self.visible_coins().len();
                if len > 0 {
                    self.selected = len - 1;
                }
                self.adjust_scroll();
                None
            },
            _ => None,
        }
    }

    /// The keys of `normal_key` that act on the selected row.
    #[verifier::rlimit(100)]
    fn row_key(&mut self, key: Key) -> (r: Option<Command>)
        requires
            !spec_is_browse_key(key),
        ensures
            normal_post(*old(self), *final(self), key, r),
    {
        proof {
            reveal(normal_post);
        }
        match key {
            Key::Char('A') => {
                if self.selected_coin().is_some() {
                    self.alert_input_buf = String::new();
                    self.alert_direction = AlertDirection::Above;
                    self.input_mode = InputMode::EditingAlert;
                }
                None
            },
            Key::Char('b') => {
                let target = match self.selected_coin() {
                    Some(coin) => Some(coin.id.clone()),
                    None => None,
                };
                if let Some(coin_id) = target {
                    if self.holding_for(&coin_id) > 0 {
                        self.buy_price_buf = match self.buy_price_for(&coin_id) {
                            Some(p) => format_fixed(p),
                            None => String::new(),
                        };
                        self.input_mode = InputMode::EditingBuyPrice;
                    }
                }
                None
            },
            Key::Enter => {
                if self.selected_coin().is_some() {
                    self.popup_open = true;
                    self.chart_view = ChartView::Day1;
                    self.fetch_chart_if_needed()
                } else {
                    None
                }
            },
            Key::Char('f') => {
                match self.selected_coin() {
                    Some(coin) => Some(Command::ToggleFavourite { coin_id: coin.id.clone() }),
                    None => None,
                }
            },
            Key::Char('a') => {
                let target = match self.selected_coin() {
                    Some(coin) => Some(coin.id.clone()),
                    None => None,
                };
                if let Some(coin_id) = target {
                    let current = self.holding_for(&coin_id);
                    self.input_buf = if current > 0 {
                        format_fixed(current)
                    } else {
                        String::new()
                    };
                    self.input_mode = InputMode::EditingAmount;
                }
                None
            },
            Key::Char('d') => {
                let target = match self.selected_coin() {
                    Some(coin) => Some(coin.id.clone()),
                    None => None,
                };
                match target {
                    Some(coin_id) => {
                        edit_holding(&mut self.holdings, &coin_id, 0, 0);
                        self.clamp_selection();
                        Some(Command::SaveHolding { coin_id, amount: 0, buy_price: None })
                    },
                    None => None,
                }
            },
            Key::Char('r') => {
                self.loading = true;
                Some(Command::Refresh)
            },
            Key::Char('S') => {
                self.open_settings();
                None
            },
            Key::Char('c') => {
                self.search_query = String::new();
                self.search_results = Vec::new();
                self.search_error = None;
                self.search_selected = 0;
                self.input_mode = InputMode::SearchCoin;
                None
            },
            _ => None,
        }
    }

    /// Routes a key press to the handler of the active surface. Ctrl-C
    /// quits from anywhere; other Control chords count as their plain
    /// character, except Ctrl-D and Ctrl-U, which page the table.
    pub fn handle_key(&mut self, key: Key) -> (r: Option<Command>)
        ensures
            key == Key::Ctrl('c') ==> r.is_none() && *final(self) == (App { quit: true, ..*old(self) }),
            key != Key::Ctrl('c') ==> {
                let o = *old(self);
                let n = *final(self);
                let k = routed_key(o, key);
                &&& o.input_mode == InputMode::Password ==> password_post(o, n, k, r)
                &&& o.input_mode == InputMode::PasswordConfirm ==> confirm_post(o, n, k, r)
                &&& o.input_mode == InputMode::Filtering ==> filtering_post(o, n, k) && r.is_none()
                &&& o.input_mode == InputMode::EditingAlert ==> alert_post(o, n, k, r)
                &&& o.input_mode == InputMode::EditingBuyPrice ==> buy_price_post(o, n, k, r)
                &&& o.input_mode == InputMode::EditingAmount ==> amount_post(o, n, k, r)
                &&& o.input_mode == InputMode::Settings ==> settings_post(o, n, k, r)
                &&& o.input_mode == InputMode::SearchCoin ==> search_post(o, n, k, r)
                &&& o.input_mode == InputMode::SearchResults ==> search_results_post(o, n, k, r)
                &&& o.input_mode == InputMode::Normal && o.sort_picking ==> sort_pick_post(o, n, k) && r.is_none()
                &&& o.input_mode == InputMode::Normal && !o.sort_picking && o.popup_open ==> popup_post(o, n, k, r)
                &&& o.input_mode == InputMode::Normal && !o.sort_picking && !o.popup_open ==> normal_post(o, n, k, r)
            },
    {
        if key == Key::Ctrl('c') {
            self.quit = true;
            return None;
        }
        let browsing = self.input_mode == InputMode::Normal && !self.sort_picking && !self.popup_open;
        let k = match key {
            Key::Ctrl(c) => if browsing && (c == 'd' || c == 'u') {
                key
            } else {
                Key::Char(c)
            },
            _ => key,
        };
        assert(k == routed_key(*old(self), key));
        match self.input_mode {
            InputMode::Password => self.password_key(k),
            InputMode::PasswordConfirm => self.confirm_key(k),
            InputMode::Filtering => {
                self.filtering_key(k);
                None
            },
            InputMode::EditingAlert => self.alert_key(k),
            InputMode::EditingBuyPrice => self.buy_price_key(k),
            InputMode::EditingAmount => self.amount_key(k),
            InputMode::Settings => self.handle_settings_key(k),
            InputMode::SearchCoin => self.search_key(k),
            InputMode::SearchResults => self.search_results_key(k),
            InputMode::Normal => {
                if self.sort_picking {
                    self.sort_pick_key(k);
                    None
                } else if self.popup_open {
                    self.popup_key(k)
                } else {
                    self.normal_key(k)
                }
            },
        }
    }

    /// Mouse input while browsing: a click on a tab label switches tabs, a
    /// click on a table row selects it, the wheel moves the cursor by three.
    /// `top_bar_height` and `bottom_bar_y` describe the drawn layout.
    pub fn handle_mouse(&mut self, event: Mouse, top_bar_height: u16, bottom_bar_y: u16)
        ensures
            old(self).input_mode != InputMode::Normal || old(self).popup_open ==> final(self).selected == old(self).selected && final(self).tab == old(self).tab,
            old(self).input_mode == InputMode::Normal && !old(self).popup_open && event == Mouse::ScrollDown
                ==> final(self).selected == moved_down(old(self).selected as int, 3, old(self).view_len() as int),
            old(self).input_mode == InputMode::Normal && !old(self).popup_open && event == Mouse::ScrollUp
                ==> final(self).selected == if old(self).selected >= 3 {
                old(self).selected - 3
            } else {
                0
            },
            final(self).input_mode == old(self).input_mode,
            final(self).coins == old(self).coins,
            match event {
                Mouse::LeftClick { row, column } => old(self).input_mode == InputMode::Normal && !old(self).popup_open
                    && !old(self).sort_picking ==> {
                    &&& (row < top_bar_height && 10 <= column < 17) ==> final(self).tab == Tab::Markets
                    &&& (row < top_bar_height && 17 <= column < 32) ==> final(self).tab == Tab::Favourites
                    &&& (row < top_bar_height && 32 <= column < 46) ==> final(self).tab == Tab::Portfolio
                    &&& (row > top_bar_height && row < bottom_bar_y && old(self).scroll_offset + (row - top_bar_height
                        - 1) < old(self).view_len()) ==> final(self).selected == old(self).scroll_offset + (row
                        - top_bar_height - 1)
                },
                _ => true,
            },
    {
        if self.input_mode != InputMode::Normal || self.popup_open {
            return;
        }
        match event {
            Mouse::LeftClick { row, column } => {
                if self.sort_picking {
                    return;
                }
                if row < top_bar_height {
                    let tabs_start: u16 = 10;
                    if column >= tabs_start {
                        let rel = column - tabs_start;
                        if rel < 7 {
                            self.tab = Tab::Markets;
                            self.selected = 0;
                            self.clamp_selection();
                        } else if rel < 22 {
                            self.tab = Tab::Favourites;
                            self.selected = 0;
                            self.clamp_selection();
                        } else if rel < 36 {
                            self.tab = Tab::Portfolio;
                            self.selected = 0;
                            self.clamp_selection();
                        }
                    }
                } else if row > top_bar_height && row < bottom_bar_y {
                    let table_row = (row - top_bar_height - 1) as usize;
                    let len = self.visible_coins().len();
                    if table_row < len && self.scroll_offset < len - table_row {
                        self.selected = self.scroll_offset + table_row;
                        self.adjust_scroll();
                    }
                }
            },
            Mouse::ScrollDown => {
                let len = self.visible_coins().len();
                self.selected = move_down(self.selected, 3, len);
                self.adjust_scroll();
            },
            Mouse::ScrollUp => {
                self.selected = move_up(self.selected, 3);
                self.adjust_scroll();
            },
        }
    }
}

} // verus!
