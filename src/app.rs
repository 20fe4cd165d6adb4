use vstd::prelude::*;

use crate::alerts::check_alerts;
use crate::chart::ChartCache;
use crate::portfolio::{amount_of, buy_price_for, buy_price_of, holding_for, portfolio_value, total_portfolio_value};
use crate::text::{join, truncate_text, truncated};
use crate::number::{decimal, decimal_string};
use crate::types::{
    currency_index, notification_method_from_str, notification_method_index, spec_method_from, spec_method_position,
    spec_theme, theme_index, theme_name, AlertDirection, ChartView, Coin, Config, GlobalMarketStats, Holding,
    InputMode, NotificationMethod, PriceAlert, SearchResult, SettingsField, SortColumn, SortDirection, Tab,
    CURRENCY_COUNT, NOTIFICATION_METHOD_COUNT, THEME_COUNT,
};
use crate::view::{shown, shown_rows, view_rows, visible_rows};

verus! {

/// Longest error text kept for display.
pub const ERROR_DISPLAY_CHARS: usize = 80;

/// How long an error stays on screen, in milliseconds.
pub const ERROR_TTL_MS: u64 = 10_000;

/// How long the alert flash stays on screen, in milliseconds.
pub const FLASH_TTL_MS: u64 = 2_000;

/// What the encrypted store holds besides favourites and holdings; a field
/// that could not be read is `None`.
#[derive(Debug, Clone)]
pub struct StoredSettings {
    pub coingecko_api_key: Option<String>,
    pub cmc_api_key: Option<String>,
    pub notification_method: Option<String>,
    pub ntfy_topic: Option<String>,
    pub alerts: Option<Vec<PriceAlert>>,
}

/// The authoritative application state, owned by the event loop.
///
/// Times are milliseconds on a monotonic clock chosen by the caller.
#[derive(Debug)]
pub struct App {
    pub tab: Tab,
    pub coins: Vec<Coin>,
    pub selected: usize,
    pub scroll_offset: usize,
    pub page_height: usize,
    pub popup_open: bool,
    pub chart_view: ChartView,
    pub chart_cache: ChartCache,
    pub loading_chart: bool,
    pub chart_pending: Option<(String, u32)>,
    pub input_mode: InputMode,
    pub input_buf: String,
    pub favourites: Vec<String>,
    pub holdings: Vec<Holding>,
    pub last_refresh: Option<u64>,
    pub last_refresh_display: String,
    pub error: Option<String>,
    pub loading: bool,
    pub config: Config,
    pub quit: bool,
    pub password_buf: String,
    pub password_first: String,
    pub password_error: Option<String>,
    pub is_new_db: bool,
    pub unlocked: bool,
    pub settings_field: SettingsField,
    pub settings_coingecko_key: String,
    pub settings_cmc_key: String,
    pub settings_currency_idx: usize,
    pub settings_theme_idx: usize,
    pub settings_editing: bool,
    pub coingecko_api_key: String,
    pub cmc_api_key: String,
    pub search_query: String,
    pub search_results: Vec<SearchResult>,
    pub search_selected: usize,
    pub search_loading: bool,
    pub search_error: Option<String>,
    pub global_stats: Option<GlobalMarketStats>,
    pub alerts: Vec<PriceAlert>,
    pub alert_flash: Option<(String, u64)>,
    pub alert_input_buf: String,
    pub alert_direction: AlertDirection,
    pub sort_column: Option<SortColumn>,
    pub sort_direction: SortDirection,
    pub sort_picking: bool,
    pub filter_query: String,
    pub notification_method: NotificationMethod,
    pub ntfy_topic: String,
    pub settings_notification_idx: usize,
    pub settings_ntfy_topic: String,
    pub error_time: Option<u64>,
    pub buy_price_buf: String,
}

/// The string held by an optional value read from the store, or empty.
fn or_empty(s: &Option<String>) -> (r: String)
    ensures
        r@ == match s {
            Some(v) => v@,
            None => Seq::empty(),
        },
{
    match s {
        Some(v) => v.clone(),
        None => String::new(),
    }
}

/// The next position of a cycle of `len` entries, forwards or backwards.
pub open spec fn cycled(idx: int, len: int, forward: bool) -> int {
    if forward {
        (idx + 1) % len
    } else {
        (idx + len - 1) % len
    }
}

fn cycle_index(idx: usize, len: usize, forward: bool) -> (r: usize)
    requires
        0 < len < 100,
    ensures
        r == cycled(idx as int % len as int, len as int, forward),
        r < len,
{
    let i = idx % len;
    if forward {
        (i + 1) % len
    } else {
        (i + len - 1) % len
    }
}

impl App {
    /// The rows of the current view, as positions into `coins`.
    pub open spec fn view(&self) -> Seq<usize> {
        view_rows(
            self.coins@,
            self.tab,
            self.favourites@,
            self.holdings@,
            self.filter_query@,
            self.sort_column,
            self.sort_direction,
        )
    }

    /// Number of rows in the current view.
    pub open spec fn view_len(&self) -> nat {
        self.view().len()
    }

    /// Indices in range for the settings cycles.
    pub open spec fn settings_ok(&self) -> bool {
        &&& self.settings_currency_idx < CURRENCY_COUNT
        &&& self.settings_theme_idx < THEME_COUNT
        &&& self.settings_notification_idx < NOTIFICATION_METHOD_COUNT
    }

    /// A fresh, locked state; `is_new_db` says whether the store has yet to
    /// be created.
    pub fn new(config: Config, is_new_db: bool) -> (r: App)
        ensures
            r.tab == Tab::Markets,
            r.coins@.len() == 0,
            r.holdings@.len() == 0,
            r.favourites@.len() == 0,
            r.alerts@.len() == 0,
            r.selected == 0,
            r.scroll_offset == 0,
            r.page_height == 20,
            r.input_mode == InputMode::Password,
            r.is_new_db == is_new_db,
            !r.unlocked,
            r.loading,
            !r.quit,
            r.sort_column.is_none(),
            r.sort_direction == SortDirection::Asc,
            r.filter_query@.len() == 0,
            r.alert_direction == AlertDirection::Above,
            r.notification_method == NotificationMethod::Off,
            r.chart_view == ChartView::Day1,
            r.chart_cache.size() == 0,
            r.config == config,
            spec_theme(r.settings_theme_idx as int) == config.theme@ || r.settings_theme_idx == 0,
            r.settings_ok(),
    {
        let theme_idx = theme_index(config.theme.as_str());
        App {
            tab: Tab::Markets,
            coins: Vec::new(),
            selected: 0,
            scroll_offset: 0,
            page_height: 20,
            popup_open: false,
            chart_view: ChartView::Day1,
            chart_cache: ChartCache::new(),
            loading_chart: false,
            chart_pending: None,
            input_mode: InputMode::Password,
            input_buf: String::new(),
            favourites: Vec::new(),
            holdings: Vec::new(),
            last_refresh: None,
            last_refresh_display: String::new(),
            error: None,
            loading: true,
            config,
            quit: false,
            password_buf: String::new(),
            password_first: String::new(),
            password_error: None,
            is_new_db,
            unlocked: false,
            settings_field: SettingsField::Currency,
            settings_coingecko_key: String::new(),
            settings_cmc_key: String::new(),
            settings_currency_idx: 0,
            settings_theme_idx: theme_idx,
            settings_editing: false,
            coingecko_api_key: String::new(),
            cmc_api_key: String::new(),
            search_query: String::new(),
            search_results: Vec::new(),
            search_selected: 0,
            search_loading: false,
            search_error: None,
            global_stats: None,
            alerts: Vec::new(),
            alert_flash: None,
            alert_input_buf: String::new(),
            alert_direction: AlertDirection::Above,
            sort_column: None,
            sort_direction: SortDirection::Asc,
            sort_picking: false,
            filter_query: String::new(),
            notification_method: NotificationMethod::Off,
            ntfy_topic: String::new(),
            settings_notification_idx: 0,
            settings_ntfy_topic: String::new(),
            error_time: None,
            buy_price_buf: String::new(),
        }
    }

    /// Enters the unlocked state once the store is open.
    pub fn unlock(&mut self)
        ensures
            final(self).unlocked,
            final(self).input_mode == InputMode::Normal,
            final(self).password_buf@.len() == 0,
            final(self).password_first@.len() == 0,
            *final(self) == (App {
                unlocked: final(self).unlocked,
                input_mode: final(self).input_mode,
                password_buf: final(self).password_buf,
                password_first: final(self).password_first,
                ..*old(self)
            }),
    {
        self.unlocked = true;
        self.input_mode = InputMode::Normal;
        self.password_buf = String::new();
        self.password_first = String::new();
    }

    /// Takes the secret settings and the alerts read from the store; a value
    /// that could not be read counts as empty.
    pub fn load_api_keys_from_db(&mut self, stored: StoredSettings)
        ensures
            final(self).coingecko_api_key@ == match stored.coingecko_api_key {
                Some(v) => v@,
                None => Seq::empty(),
            },
            final(self).cmc_api_key@ == match stored.cmc_api_key {
                Some(v) => v@,
                None => Seq::empty(),
            },
            final(self).ntfy_topic@ == match stored.ntfy_topic {
                Some(v) => v@,
                None => Seq::empty(),
            },
            final(self).notification_method == spec_method_from(
                match stored.notification_method {
                    Some(v) => v@,
                    None => Seq::empty(),
                },
            ),
            final(self).settings_notification_idx == spec_method_position(final(self).notification_method),
            final(self).alerts@ == match stored.alerts {
                Some(v) => v@,
                None => Seq::empty(),
            },
            *final(self) == (App {
                coingecko_api_key: final(self).coingecko_api_key,
                cmc_api_key: final(self).cmc_api_key,
                notification_method: final(self).notification_method,
                ntfy_topic: final(self).ntfy_topic,
                settings_notification_idx: final(self).settings_notification_idx,
                alerts: final(self).alerts,
                ..*old(self)
            }),
    {
        self.coingecko_api_key = or_empty(&stored.coingecko_api_key);
        self.cmc_api_key = or_empty(&stored.cmc_api_key);
        let method = or_empty(&stored.notification_method);
        self.notification_method = notification_method_from_str(method.as_str());
        self.ntfy_topic = or_empty(&stored.ntfy_topic);
        self.settings_notification_idx = notification_method_index(self.notification_method);
        self.alerts = match stored.alerts {
            Some(v) => v,
            None => Vec::new(),
        };
    }

    /// The visible rows (positions into `coins`), see `visible_rows`.
    pub fn visible_coins(&self) -> (r: Vec<usize>)
        ensures
            r@ == self.view(),
            r@.len() == self.view_len(),
            forall|k: int| 0 <= k < r@.len() ==> #[trigger] r@[k] < self.coins@.len(),
            forall|k: int|
                0 <= k < r@.len() ==> shown(
                    self.coins@,
                    self.tab,
                    self.favourites@,
                    self.holdings@,
                    self.filter_query@,
                    #[trigger] r@[k] as int,
                ),
            self.sort_column.is_none() ==> r@ == shown_rows(
                self.coins@,
                self.tab,
                self.favourites@,
                self.holdings@,
                self.filter_query@,
                self.coins@.len(),
            ),
    {
        visible_rows(
            &self.coins,
            self.tab,
            &self.favourites,
            &self.holdings,
            &self.filter_query,
            self.sort_column,
            self.sort_direction,
        )
    }

    /// Position in `coins` of the row under the cursor, if any.
    pub fn selected_index(&self) -> (r: Option<usize>)
        ensures
            r.is_some() == (self.selected < self.view_len()),
            r.is_some() ==> r.unwrap() == self.view()[self.selected as int] && r.unwrap() < self.coins@.len(),
    {
        let visible = self.visible_coins();
        if self.selected < visible.len() {
            Some(visible[self.selected])
        } else {
            None
        }
    }

    /// The asset under the cursor, if the cursor is on a row.
    pub fn selected_coin(&self) -> (r: Option<&Coin>)
        ensures
            r.is_some() == (self.selected < self.view_len()),
            r.is_some() ==> self.view()[self.selected as int] < self.coins@.len() && *r.unwrap()
                == self.coins@[self.view()[self.selected as int] as int],
            r.is_some() ==> exists|k: int|
                0 <= k < self.coins@.len() && self.coins@[k] == *r.unwrap() && shown(
                    self.coins@,
                    self.tab,
                    self.favourites@,
                    self.holdings@,
                    self.filter_query@,
                    k,
                ),
    {
        let visible = self.visible_coins();
        if self.selected < visible.len() {
            let k = visible[self.selected];
            assert(shown(self.coins@, self.tab, self.favourites@, self.holdings@, self.filter_query@, k as int));
            Some(&self.coins[k])
        } else {
            None
        }
    }

    /// Keeps the cursor on a row of the current view, then scrolls it into
    /// sight.
    pub fn clamp_selection(&mut self)
        ensures
            final(self).selected == if old(self).view_len() == 0 {
                0
            } else if old(self).selected >= old(self).view_len() {
                (old(self).view_len() - 1) as usize
            } else {
                old(self).selected
            },
            old(self).view_len() > 0 ==> final(self).selected < old(self).view_len(),
            final(self).page_height > 0 ==> final(self).scroll_offset <= final(self).selected
                && final(self).selected < final(self).scroll_offset + final(self).page_height,
            *final(self) == (App { selected: final(self).selected, scroll_offset: final(self).scroll_offset, ..*old(self) }),
    {
        let len = self.visible_coins().len();
        if len == 0 {
            self.selected = 0;
        } else if self.selected >= len {
            self.selected = len - 1;
        }
        self.adjust_scroll();
    }

    /// Scrolls the least needed to bring the cursor into the page.
    pub fn adjust_scroll(&mut self)
        ensures
            final(self).scroll_offset == if old(self).page_height == 0 {
                old(self).scroll_offset
            } else if old(self).selected < old(self).scroll_offset {
                old(self).selected
            } else if old(self).selected - old(self).scroll_offset >= old(self).page_height {
                (old(self).selected - old(self).page_height + 1) as usize
            } else {
                old(self).scroll_offset
            },
            final(self).page_height > 0 ==> final(self).scroll_offset <= final(self).selected
                && final(self).selected < final(self).scroll_offset + final(self).page_height,
            *final(self) == (App { scroll_offset: final(self).scroll_offset, ..*old(self) }),
    {
        if self.page_height == 0 {
            return;
        }
        if self.selected < self.scroll_offset {
            self.scroll_offset = self.selected;
        } else if self.selected - self.scroll_offset >= self.page_height {
            self.scroll_offset = self.selected - self.page_height + 1;
        }
    }

    /// Market value of all holdings (fixed-point), capped at `u128::MAX`.
    pub fn total_portfolio_value(&self) -> (r: u128)
        ensures
            r == if portfolio_value(self.holdings@, self.coins@, self.holdings@.len()) > u128::MAX {
                u128::MAX as int
            } else {
                portfolio_value(self.holdings@, self.coins@, self.holdings@.len())
            },
    {
        total_portfolio_value(&self.holdings, &self.coins)
    }

    pub fn holding_for(&self, coin_id: &String) -> (r: u64)
        ensures
            r == amount_of(self.holdings@, coin_id@),
    {
        holding_for(&self.holdings, coin_id)
    }

    pub fn buy_price_for(&self, coin_id: &String) -> (r: Option<u64>)
        ensures
            r == buy_price_of(self.holdings@, coin_id@),
    {
        buy_price_for(&self.holdings, coin_id)
    }

    /// Whether a scheduled refresh is due at `now`: a snapshot was loaded
    /// and the refresh interval has elapsed since.
    pub fn refresh_due(&self, now: u64) -> (r: bool)
        ensures
            r == match self.last_refresh {
                Some(t) => now >= t && (now - t) as int >= self.config.refresh_interval_secs as int * 1000,
                None => false,
            },
    {
        match self.last_refresh {
            Some(t) => now >= t && ((now - t) / 1000) >= self.config.refresh_interval_secs,
            None => false,
        }
    }

    /// Renews the "last refreshed" text and expires the error (after ten
    /// seconds) and the alert flash (after two).
    pub fn update_refresh_display(&mut self, now: u64)
        ensures
            match old(self).last_refresh {
                Some(t) => {
                    let secs = if now >= t { (now - t) / 1000 } else { 0 };
                    final(self).last_refresh_display@ == if secs < 60 {
                        decimal(secs as nat) + "s ago"@
                    } else {
                        decimal((secs / 60) as nat) + "m ago"@
                    }
                },
                None => final(self).last_refresh_display == old(self).last_refresh_display,
            },
            match old(self).error_time {
                Some(t) => if now >= t && now - t >= ERROR_TTL_MS {
                    final(self).error.is_none() && final(self).error_time.is_none()
                } else {
                    final(self).error == old(self).error && final(self).error_time == old(self).error_time
                },
                None => final(self).error == old(self).error && final(self).error_time.is_none(),
            },
            match old(self).alert_flash {
                Some(f) => if now >= f.1 && now - f.1 >= FLASH_TTL_MS {
                    final(self).alert_flash.is_none()
                } else {
                    final(self).alert_flash == old(self).alert_flash
                },
                None => final(self).alert_flash.is_none(),
            },
            final(self).coins == old(self).coins,
            final(self).alerts == old(self).alerts,
            final(self).input_mode == old(self).input_mode,
    {
        if let Some(t) = self.last_refresh {
            let secs = if now >= t {
                (now - t) / 1000
            } else {
                0
            };
            if secs < 60 {
                self.last_refresh_display = join(decimal_string(secs).as_str(), "s ago");
            } else {
                self.last_refresh_display = join(decimal_string(secs / 60).as_str(), "m ago");
            }
        }
        if let Some(t) = self.error_time {
            if now >= t && now - t >= ERROR_TTL_MS {
                self.error = None;
                self.error_time = None;
            }
        }
        let expired = match &self.alert_flash {
            Some(f) => now >= f.1 && now - f.1 >= FLASH_TTL_MS,
            None => false,
        };
        if expired {
            self.alert_flash = None;
        }
    }

    /// Replaces favourites and holdings with what the store returned; a
    /// failed read counts as empty.
    pub fn refresh_db_state(&mut self, favourites: Option<Vec<String>>, holdings: Option<Vec<Holding>>)
        ensures
            final(self).favourites@ == match favourites {
                Some(v) => v@,
                None => Seq::empty(),
            },
            final(self).holdings@ == match holdings {
                Some(v) => v@,
                None => Seq::empty(),
            },
            final(self).coins == old(self).coins,
            final(self).selected == old(self).selected,
    {
        self.favourites = match favourites {
            Some(v) => v,
            None => Vec::new(),
        };
        self.holdings = match holdings {
            Some(v) => v,
            None => Vec::new(),
        };
    }

    /// Takes the outcome of a snapshot fetch: on success the asset list is
    /// swapped wholesale and the refresh time recorded; on failure the old
    /// snapshot stays and the error is shown.
    pub fn refresh_market_data(&mut self, result: Result<Vec<Coin>, String>, now: u64)
        ensures
            !final(self).loading,
            match result {
                Ok(coins) => final(self).coins@ == coins@,
                Err(e) => true,
            },
            result.is_ok() ==> final(self).last_refresh == Some(now) && final(self).error.is_none(),
            match result {
                Ok(coins) => true,
                Err(e) => final(self).coins == old(self).coins && final(self).last_refresh == old(self).last_refresh
                    && final(self).error.is_some() && final(self).error.unwrap()@ == truncated(
                    "API: "@ + e@,
                    ERROR_DISPLAY_CHARS as nat,
                ) && final(self).error_time == Some(now),
            },
            final(self).alerts == old(self).alerts,
            final(self).holdings == old(self).holdings,
            final(self).favourites == old(self).favourites,
    {
        match result {
            Ok(coins) => {
                self.coins = coins;
                self.last_refresh = Some(now);
                self.error = None;
                self.loading = false;
            },
            Err(e) => {
                self.set_error(join("API: ", e.as_str()), now);
                self.loading = false;
            },
        }
    }

    /// Moves through the currency cycle.
    pub fn cycle_currency(&mut self, forward: bool)
        ensures
            final(self).settings_currency_idx == cycled(
                old(self).settings_currency_idx as int % CURRENCY_COUNT as int,
                CURRENCY_COUNT as int,
                forward,
            ),
            *final(self) == (App { settings_currency_idx: final(self).settings_currency_idx, ..*old(self) }),
    {
        self.settings_currency_idx = cycle_index(self.settings_currency_idx, CURRENCY_COUNT, forward);
    }

    /// Moves through the theme cycle (the renderer previews the theme).
    pub fn cycle_theme(&mut self, forward: bool)
        ensures
            final(self).settings_theme_idx == cycled(
                old(self).settings_theme_idx as int % THEME_COUNT as int,
                THEME_COUNT as int,
                forward,
            ),
            *final(self) == (App { settings_theme_idx: final(self).settings_theme_idx, ..*old(self) }),
    {
        self.settings_theme_idx = cycle_index(self.settings_theme_idx, THEME_COUNT, forward);
    }

    /// Moves through the notification method cycle.
    pub fn cycle_notification(&mut self, forward: bool)
        ensures
            final(self).settings_notification_idx == cycled(
                old(self).settings_notification_idx as int % NOTIFICATION_METHOD_COUNT as int,
                NOTIFICATION_METHOD_COUNT as int,
                forward,
            ),
            *final(self) == (App { settings_notification_idx: final(self).settings_notification_idx, ..*old(self) }),
    {
        self.settings_notification_idx = cycle_index(self.settings_notification_idx, NOTIFICATION_METHOD_COUNT, forward);
    }

    /// The theme to draw with: the one being previewed while the settings
    /// are open, else the configured one.
    pub fn active_theme_name(&self) -> (r: String)
        ensures
            self.input_mode == InputMode::Settings ==> r@ == spec_theme(self.settings_theme_idx as int % THEME_COUNT as int),
            self.input_mode != InputMode::Settings ==> r@ == self.config.theme@,
    {
        if self.input_mode == InputMode::Settings {
            String::from_str(theme_name(self.settings_theme_idx % THEME_COUNT))
        } else {
            self.config.theme.clone()
        }
    }

    /// Shows an error (shortened for display) from `now` on.
    pub fn set_error(&mut self, msg: String, now: u64)
        ensures
            final(self).error.is_some(),
            final(self).error.unwrap()@ == truncated(msg@, ERROR_DISPLAY_CHARS as nat),
            final(self).error_time == Some(now),
            *final(self) == (App { error: final(self).error, error_time: final(self).error_time, ..*old(self) }),
    {
        self.error = Some(truncate_text(msg, ERROR_DISPLAY_CHARS));
        self.error_time = Some(now);
    }

    /// Evaluates the alerts against the snapshot (see `check_alerts`) and
    /// flashes the asset of the last alert that fired. Returns the (alert,
    /// asset) positions that fired; the caller notifies and persists each.
    pub fn check_alerts(&mut self, now: u64) -> (r: Vec<(usize, usize)>)
        ensures
            final(self).alerts@ == crate::alerts::evaluated(old(self).alerts@, old(self).coins@),
            r@ == crate::alerts::firings(old(self).alerts@, old(self).coins@, old(self).alerts@.len()),
            forall|t: int|
                0 <= t < r@.len() ==> (#[trigger] r@[t]).0 < final(self).alerts@.len() && r@[t].1
                    < final(self).coins@.len(),
            r@.len() == 0 ==> final(self).alert_flash == old(self).alert_flash,
            r@.len() > 0 ==> final(self).alert_flash.is_some() && final(self).alert_flash.unwrap().1 == now
                && final(self).alert_flash.unwrap().0@ == old(self).alerts@[r@.last().0 as int].coin_id@,
            *final(self) == (App { alerts: final(self).alerts, alert_flash: final(self).alert_flash, ..*old(self) }),
    {
        let fired = check_alerts(&mut self.alerts, &self.coins);
        if fired.len() > 0 {
            let last = fired[fired.len() - 1];
            self.alert_flash = Some((self.alerts[last.0].coin_id.clone(), now));
        }
        fired
    }

    /// Replaces the alerts with what the store returned (empty on failure).
    pub fn refresh_alerts(&mut self, alerts: Option<Vec<PriceAlert>>)
        ensures
            final(self).alerts@ == match alerts {
                Some(v) => v@,
                None => Seq::empty(),
            },
            final(self).coins == old(self).coins,
    {
        self.alerts = match alerts {
            Some(v) => v,
            None => Vec::new(),
        };
    }

    /// Takes the best-effort market-wide figures: a failed fetch keeps the
    /// previous figures; a sentiment reading, when present, is attached.
    pub fn refresh_global_stats(&mut self, stats: Option<GlobalMarketStats>, sentiment: Option<(u32, String)>)
        ensures
            stats.is_none() ==> final(self).global_stats == old(self).global_stats,
            stats.is_some() ==> final(self).global_stats.is_some() && {
                let g = final(self).global_stats.unwrap();
                let s = stats.unwrap();
                &&& g.total_market_cap_usd == s.total_market_cap_usd
                &&& g.btc_dominance == s.btc_dominance
                &&& g.fear_greed_index == match sentiment {
                    Some(p) => Some(p.0),
                    None => s.fear_greed_index,
                }
                &&& g.fear_greed_label == match sentiment {
                    Some(p) => Some(p.1),
                    None => s.fear_greed_label,
                }
            },
    {
        match stats {
            Some(mut s) => {
                match sentiment {
                    Some((index, label)) => {
                        s.fear_greed_index = Some(index);
                        s.fear_greed_label = Some(label);
                    },
                    None => {},
                }
                self.global_stats = Some(s);
            },
            None => {},
        }
    }

    /// Opens the settings with the current values loaded into the editor.
    pub fn open_settings(&mut self)
        ensures
            final(self).input_mode == InputMode::Settings,
            final(self).settings_field == SettingsField::Currency,
            !final(self).settings_editing,
            final(self).settings_coingecko_key@ == old(self).coingecko_api_key@,
            final(self).settings_cmc_key@ == old(self).cmc_api_key@,
            final(self).settings_ntfy_topic@ == old(self).ntfy_topic@,
            final(self).settings_notification_idx == spec_method_position(old(self).notification_method),
            crate::types::spec_currency(final(self).settings_currency_idx as int) == old(self).config.currency@
                || final(self).settings_currency_idx == 0,
            spec_theme(final(self).settings_theme_idx as int) == old(self).config.theme@
                || final(self).settings_theme_idx == 0,
            final(self).settings_ok(),
            *final(self) == (App {
                settings_coingecko_key: final(self).settings_coingecko_key,
                settings_cmc_key: final(self).settings_cmc_key,
                settings_currency_idx: final(self).settings_currency_idx,
                settings_theme_idx: final(self).settings_theme_idx,
                settings_notification_idx: final(self).settings_notification_idx,
                settings_ntfy_topic: final(self).settings_ntfy_topic,
                settings_field: final(self).settings_field,
                settings_editing: final(self).settings_editing,
                input_mode: final(self).input_mode,
                ..*old(self)
            }),
    {
        self.settings_coingecko_key = self.coingecko_api_key.clone();
        self.settings_cmc_key = self.cmc_api_key.clone();
        self.settings_currency_idx = currency_index(self.config.currency.as_str());
        self.settings_theme_idx = theme_index(self.config.theme.as_str());
        self.settings_notification_idx = notification_method_index(self.notification_method);
        self.settings_ntfy_topic = self.ntfy_topic.clone();
        self.settings_field = SettingsField::Currency;
        self.settings_editing = false;
        self.input_mode = InputMode::Settings;
    }

    /// Adds an asset fetched on demand (one not in the snapshot).
    pub fn add_coin(&mut self, coin: Coin)
        ensures
            final(self).coins@ == old(self).coins@.push(coin),
    {
        self.coins.push(coin);
    }
}

} // verus!
