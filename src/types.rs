use vstd::prelude::*;

use crate::text::str_eq;

verus! {

/// Number of fractional decimal digits in a fixed-point price or quantity:
/// a value `v` stands for `v / 10^8` units of the display currency (or coin).
pub const PRICE_DECIMALS: usize = 8;

/// `10^PRICE_DECIMALS`: the fixed-point value of one whole unit.
pub const PRICE_ONE: u64 = 100_000_000;

/// One tracked asset as of the last market snapshot.
///
/// Prices are fixed-point (see [`PRICE_DECIMALS`]); market cap, volume and
/// supplies are whole units; percentage changes are in millionths of a
/// percent.
#[derive(Debug, Clone)]
pub struct Coin {
    pub id: String,
    pub name: String,
    pub symbol: String,
    pub current_price: u64,
    pub market_cap: u64,
    pub total_volume: u64,
    pub price_change_percentage_1h_in_currency: Option<i64>,
    pub price_change_percentage_24h_in_currency: Option<i64>,
    pub price_change_percentage_7d_in_currency: Option<i64>,
    pub market_cap_rank: Option<u32>,
    pub high_24h: Option<u64>,
    pub low_24h: Option<u64>,
    pub circulating_supply: Option<u64>,
    pub max_supply: Option<u64>,
}

/// A quantity of one asset owned by the user (fixed-point quantity and
/// optional fixed-point buy-in price).
#[derive(Debug, Clone)]
pub struct Holding {
    pub coin_id: String,
    pub amount: u64,
    pub buy_price: Option<u64>,
}

/// Market-wide figures: total market cap in whole units, dominance in
/// millionths of a percent, and the optional sentiment index.
#[derive(Debug, Clone)]
pub struct GlobalMarketStats {
    pub total_market_cap_usd: u64,
    pub btc_dominance: u64,
    pub fear_greed_index: Option<u32>,
    pub fear_greed_label: Option<String>,
}

/// A price alert on one asset; `triggered` only ever goes from false to true.
#[derive(Debug, Clone)]
pub struct PriceAlert {
    pub coin_id: String,
    pub target_price: u64,
    pub direction: AlertDirection,
    pub triggered: bool,
}

#[derive(Debug, Clone, Copy, PartialEq, Eq, Structural)]
pub enum AlertDirection {
    Above,
    Below,
}

#[derive(Debug, Clone, Copy, PartialEq, Eq, Structural)]
pub enum SortColumn {
    Rank,
    Name,
    Price,
    Change1h,
    Change24h,
    Change7d,
    Volume,
    MarketCap,
}

#[derive(Debug, Clone, Copy, PartialEq, Eq, Structural)]
pub enum SortDirection {
    Asc,
    Desc,
}

#[derive(Debug, Clone, Copy, PartialEq, Eq, Structural)]
pub enum NotificationMethod {
    Off,
    Desktop,
    Ntfy,
    Both,
}

/// The three top-level tabs of the asset table.
#[derive(Debug, Clone, Copy, PartialEq, Eq, Structural)]
pub enum Tab {
    Markets,
    Favourites,
    Portfolio,
}

impl Tab {
    pub open spec fn spec_index(self) -> nat {
        match self {
            Tab::Markets => 0,
            Tab::Favourites => 1,
            Tab::Portfolio => 2,
        }
    }

    pub open spec fn next_spec(self) -> Tab {
        Tab::spec_from_index((self.spec_index() + 1) % 3)
    }

    pub open spec fn spec_from_index(i: nat) -> Tab {
        if i == 1 {
            Tab::Favourites
        } else if i == 2 {
            Tab::Portfolio
        } else {
            Tab::Markets
        }
    }

    pub fn index(self) -> (r: usize)
        ensures
            r == self.spec_index(),
    {
        match self {
            Tab::Markets => 0,
            Tab::Favourites => 1,
            Tab::Portfolio => 2,
        }
    }

    /// The tab at position `i`; positions past the last fall back to `Markets`.
    pub fn from_index(i: usize) -> (r: Tab)
        ensures
            r == Tab::spec_from_index(i as nat),
    {
        match i {
            1 => Tab::Favourites,
            2 => Tab::Portfolio,
            _ => Tab::Markets,
        }
    }

    pub fn label(self) -> (r: &'static str)
        ensures
            self == Tab::Markets ==> r@ == "Markets"@,
            self == Tab::Favourites ==> r@ == "Favourites"@,
            self == Tab::Portfolio ==> r@ == "Portfolio"@,
    {
        match self {
            Tab::Markets => "Markets",
            Tab::Favourites => "Favourites",
            Tab::Portfolio => "Portfolio",
        }
    }

    /// The following tab, wrapping from `Portfolio` back to `Markets`.
    pub fn next(self) -> (r: Tab)
        ensures
            r == Tab::spec_from_index((self.spec_index() + 1) % 3),
    {
        Self::from_index((self.index() + 1) % 3)
    }
}

/// The time range shown by the chart popup.
#[derive(Debug, Clone, Copy, PartialEq, Eq, Structural)]
pub enum ChartView {
    Day1,
    Day7,
    Day30,
}

impl ChartView {
    pub open spec fn spec_days(self) -> u32 {
        match self {
            ChartView::Day1 => 1,
            ChartView::Day7 => 7,
            ChartView::Day30 => 30,
        }
    }

    pub fn label(self) -> (r: &'static str)
        ensures
            self == ChartView::Day1 ==> r@ == "1D"@,
            self == ChartView::Day7 ==> r@ == "7D"@,
            self == ChartView::Day30 ==> r@ == "30D"@,
    {
        match self {
            ChartView::Day1 => "1D",
            ChartView::Day7 => "7D",
            ChartView::Day30 => "30D",
        }
    }

    pub fn days(self) -> (r: u32)
        ensures
            r == self.spec_days(),
    {
        match self {
            ChartView::Day1 => 1,
            ChartView::Day7 => 7,
            ChartView::Day30 => 30,
        }
    }

    pub fn next(self) -> (r: ChartView)
        ensures
            self == ChartView::Day1 ==> r == ChartView::Day7,
            self == ChartView::Day7 ==> r == ChartView::Day30,
            self == ChartView::Day30 ==> r == ChartView::Day1,
    {
        match self {
            ChartView::Day1 => ChartView::Day7,
            ChartView::Day7 => ChartView::Day30,
            ChartView::Day30 => ChartView::Day1,
        }
    }

    pub fn prev(self) -> (r: ChartView)
        ensures
            self == ChartView::Day1 ==> r == ChartView::Day30,
            self == ChartView::Day7 ==> r == ChartView::Day1,
            self == ChartView::Day30 ==> r == ChartView::Day7,
    {
        match self {
            ChartView::Day1 => ChartView::Day30,
            ChartView::Day7 => ChartView::Day1,
            ChartView::Day30 => ChartView::Day7,
        }
    }
}

/// A price series for one (asset, range) pair, oldest sample first.
#[derive(Debug, Clone)]
pub struct PriceHistory {
    pub prices: Vec<u64>,
}

/// One hit of a coin search.
#[derive(Debug, Clone)]
pub struct SearchResult {
    pub id: String,
    pub name: String,
    pub symbol: String,
    pub market_cap_rank: Option<u32>,
}

/// The active modal surface of the application.
#[derive(Debug, Clone, Copy, PartialEq, Eq, Structural)]
pub enum InputMode {
    Normal,
    EditingAmount,
    Password,
    PasswordConfirm,
    Settings,
    SearchCoin,
    SearchResults,
    Filtering,
    EditingAlert,
    EditingBuyPrice,
}

#[derive(Debug, Clone, Copy, PartialEq, Eq, Structural)]
pub enum SettingsField {
    Currency,
    Theme,
    CoingeckoApiKey,
    CoinmarketcapApiKey,
    Notifications,
    NtfyTopic,
}

impl SettingsField {
    pub open spec fn spec_position(self) -> int {
        match self {
            SettingsField::Currency => 0,
            SettingsField::Theme => 1,
            SettingsField::CoingeckoApiKey => 2,
            SettingsField::CoinmarketcapApiKey => 3,
            SettingsField::Notifications => 4,
            SettingsField::NtfyTopic => 5,
        }
    }

    pub open spec fn spec_is_text_field(self) -> bool {
        self == SettingsField::CoingeckoApiKey || self == SettingsField::CoinmarketcapApiKey
            || self == SettingsField::NtfyTopic
    }

    pub fn label(self) -> (r: &'static str)
        ensures
            self == SettingsField::Currency ==> r@ == "Currency"@,
            self == SettingsField::Theme ==> r@ == "Theme"@,
            self == SettingsField::CoingeckoApiKey ==> r@ == "CoinGecko API Key"@,
            self == SettingsField::CoinmarketcapApiKey ==> r@ == "CoinMarketCap API Key"@,
            self == SettingsField::Notifications ==> r@ == "Notifications"@,
            self == SettingsField::NtfyTopic ==> r@ == "Ntfy Topic"@,
    {
        match self {
            SettingsField::Currency => "Currency",
            SettingsField::Theme => "Theme",
            SettingsField::CoingeckoApiKey => "CoinGecko API Key",
            SettingsField::CoinmarketcapApiKey => "CoinMarketCap API Key",
            SettingsField::Notifications => "Notifications",
            SettingsField::NtfyTopic => "Ntfy Topic",
        }
    }

    /// The field below this one, wrapping from the last to the first.
    pub fn next(self) -> (r: SettingsField)
        ensures
            r.spec_position() == (self.spec_position() + 1) % 6,
    {
        match self {
            SettingsField::Currency => SettingsField::Theme,
            SettingsField::Theme => SettingsField::CoingeckoApiKey,
            SettingsField::CoingeckoApiKey => SettingsField::CoinmarketcapApiKey,
            SettingsField::CoinmarketcapApiKey => SettingsField::Notifications,
            SettingsField::Notifications => SettingsField::NtfyTopic,
            SettingsField::NtfyTopic => SettingsField::Currency,
        }
    }

    /// The field above this one, wrapping from the first to the last.
    pub fn prev(self) -> (r: SettingsField)
        ensures
            r.spec_position() == (self.spec_position() + 5) % 6,
    {
        match self {
            SettingsField::Currency => SettingsField::NtfyTopic,
            SettingsField::Theme => SettingsField::Currency,
            SettingsField::CoingeckoApiKey => SettingsField::Theme,
            SettingsField::CoinmarketcapApiKey => SettingsField::CoingeckoApiKey,
            SettingsField::Notifications => SettingsField::CoinmarketcapApiKey,
            SettingsField::NtfyTopic => SettingsField::Notifications,
        }
    }

    pub fn is_text_field(self) -> (r: bool)
        ensures
            r == self.spec_is_text_field(),
    {
        matches!(self, SettingsField::CoingeckoApiKey | SettingsField::CoinmarketcapApiKey | SettingsField::NtfyTopic)
    }

    pub fn is_cycle_field(self) -> (r: bool)
        ensures
            r == !self.spec_is_text_field(),
    {
        matches!(self, SettingsField::Currency | SettingsField::Theme | SettingsField::Notifications)
    }
}


// ---------------------------------------------------------------------------
// Currencies, themes, notification methods
// ---------------------------------------------------------------------------

/// Number of selectable display currencies.
pub const CURRENCY_COUNT: usize = 13;

/// Number of selectable themes.
pub const THEME_COUNT: usize = 11;

/// Number of notification methods.
pub const NOTIFICATION_METHOD_COUNT: usize = 4;

pub open spec fn spec_currency(i: int) -> Seq<char> {
    if i == 0 {
        "usd"@
    } else if i == 1 {
        "eur"@
    } else if i == 2 {
        "gbp"@
    } else if i == 3 {
        "jpy"@
    } else if i == 4 {
        "aud"@
    } else if i == 5 {
        "cad"@
    } else if i == 6 {
        "chf"@
    } else if i == 7 {
        "cny"@
    } else if i == 8 {
        "krw"@
    } else if i == 9 {
        "inr"@
    } else if i == 10 {
        "brl"@
    } else if i == 11 {
        "btc"@
    } else {
        "eth"@
    }
}

/// The currency code at position `i` of the settings cycle.
pub fn currency_code(i: usize) -> (r: &'static str)
    requires
        i < CURRENCY_COUNT,
    ensures
        r@ == spec_currency(i as int),
{
    match i {
        0 => "usd",
        1 => "eur",
        2 => "gbp",
        3 => "jpy",
        4 => "aud",
        5 => "cad",
        6 => "chf",
        7 => "cny",
        8 => "krw",
        9 => "inr",
        10 => "brl",
        11 => "btc",
        _ => "eth",
    }
}

pub open spec fn spec_theme(i: int) -> Seq<char> {
    if i == 0 {
        "dark"@
    } else if i == 1 {
        "dark-blue"@
    } else if i == 2 {
        "dark-green"@
    } else if i == 3 {
        "dark-red"@
    } else if i == 4 {
        "dark-violet"@
    } else if i == 5 {
        "dark-gray"@
    } else if i == 6 {
        "solarized-dark"@
    } else if i == 7 {
        "solarized-light"@
    } else if i == 8 {
        "light"@
    } else if i == 9 {
        "bubblegum"@
    } else {
        "no-color"@
    }
}

/// The theme name at position `i` of the settings cycle.
pub fn theme_name(i: usize) -> (r: &'static str)
    requires
        i < THEME_COUNT,
    ensures
        r@ == spec_theme(i as int),
{
    match i {
        0 => "dark",
        1 => "dark-blue",
        2 => "dark-green",
        3 => "dark-red",
        4 => "dark-violet",
        5 => "dark-gray",
        6 => "solarized-dark",
        7 => "solarized-light",
        8 => "light",
        9 => "bubblegum",
        _ => "no-color",
    }
}

pub open spec fn spec_method_name(i: int) -> Seq<char> {
    if i == 0 {
        "none"@
    } else if i == 1 {
        "desktop"@
    } else if i == 2 {
        "ntfy"@
    } else {
        "both"@
    }
}

/// The notification method name at position `i` of the settings cycle.
pub fn notification_method_name(i: usize) -> (r: &'static str)
    requires
        i < NOTIFICATION_METHOD_COUNT,
    ensures
        r@ == spec_method_name(i as int),
{
    match i {
        0 => "none",
        1 => "desktop",
        2 => "ntfy",
        _ => "both",
    }
}

/// Position of `code` among the currencies, or 0 when it is not one.
pub fn currency_index(code: &str) -> (r: usize)
    ensures
        r < CURRENCY_COUNT,
        spec_currency(r as int) == code@ || (r == 0 && forall|i: int| 0 <= i < CURRENCY_COUNT ==> spec_currency(i) != code@),
{
    let mut i: usize = 0;
    while i < CURRENCY_COUNT
        invariant
            i <= CURRENCY_COUNT,
            forall|t: int| 0 <= t < i ==> spec_currency(t) != code@,
        decreases CURRENCY_COUNT - i,
    {
        if str_eq(currency_code(i), code) {
            return i;
        }
        i = i + 1;
    }
    0
}

/// Position of `name` among the themes, or 0 when it is not one.
pub fn theme_index(name: &str) -> (r: usize)
    ensures
        r < THEME_COUNT,
        spec_theme(r as int) == name@ || (r == 0 && forall|i: int| 0 <= i < THEME_COUNT ==> spec_theme(i) != name@),
{
    let mut i: usize = 0;
    while i < THEME_COUNT
        invariant
            i <= THEME_COUNT,
            forall|t: int| 0 <= t < i ==> spec_theme(t) != name@,
        decreases THEME_COUNT - i,
    {
        if str_eq(theme_name(i), name) {
            return i;
        }
        i = i + 1;
    }
    0
}

pub open spec fn spec_method_from(s: Seq<char>) -> NotificationMethod {
    if s == "desktop"@ {
        NotificationMethod::Desktop
    } else if s == "ntfy"@ {
        NotificationMethod::Ntfy
    } else if s == "both"@ {
        NotificationMethod::Both
    } else {
        NotificationMethod::Off
    }
}

pub open spec fn spec_method_position(m: NotificationMethod) -> int {
    match m {
        NotificationMethod::Off => 0,
        NotificationMethod::Desktop => 1,
        NotificationMethod::Ntfy => 2,
        NotificationMethod::Both => 3,
    }
}

/// Reads a stored notification method; anything unknown means none.
pub fn notification_method_from_str(s: &str) -> (r: NotificationMethod)
    ensures
        r == spec_method_from(s@),
{
    if str_eq(s, "desktop") {
        NotificationMethod::Desktop
    } else if str_eq(s, "ntfy") {
        NotificationMethod::Ntfy
    } else if str_eq(s, "both") {
        NotificationMethod::Both
    } else {
        NotificationMethod::Off
    }
}

/// The stored name of a notification method.
pub fn notification_method_label(m: NotificationMethod) -> (r: &'static str)
    ensures
        r@ == spec_method_name(spec_method_position(m)),
{
    match m {
        NotificationMethod::Off => "none",
        NotificationMethod::Desktop => "desktop",
        NotificationMethod::Ntfy => "ntfy",
        NotificationMethod::Both => "both",
    }
}

/// The position of a notification method in the settings cycle.
pub fn notification_method_index(m: NotificationMethod) -> (r: usize)
    ensures
        r == spec_method_position(m),
        r < NOTIFICATION_METHOD_COUNT,
{
    match m {
        NotificationMethod::Off => 0,
        NotificationMethod::Desktop => 1,
        NotificationMethod::Ntfy => 2,
        NotificationMethod::Both => 3,
    }
}

pub open spec fn spec_currency_symbol(code: Seq<char>) -> Seq<char> {
    if code == "eur"@ {
        "\u{20ac}"@
    } else if code == "gbp"@ {
        "\u{a3}"@
    } else if code == "jpy"@ || code == "cny"@ || code == "krw"@ {
        "\u{a5}"@
    } else if code == "chf"@ {
        "Fr"@
    } else if code == "inr"@ {
        "\u{20b9}"@
    } else if code == "brl"@ {
        "R$"@
    } else if code == "btc"@ {
        "\u{20bf}"@
    } else if code == "eth"@ {
        "\u{39e}"@
    } else {
        "$"@
    }
}

/// The symbol shown before amounts in the currency `code`; `$` for dollars
/// and for unknown codes.
pub fn currency_symbol(code: &str) -> (r: &'static str)
    ensures
        r@ == spec_currency_symbol(code@),
{
    if str_eq(code, "eur") {
        "\u{20ac}"
    } else if str_eq(code, "gbp") {
        "\u{a3}"
    } else if str_eq(code, "jpy") || str_eq(code, "cny") || str_eq(code, "krw") {
        "\u{a5}"
    } else if str_eq(code, "chf") {
        "Fr"
    } else if str_eq(code, "inr") {
        "\u{20b9}"
    } else if str_eq(code, "brl") {
        "R$"
    } else if str_eq(code, "btc") {
        "\u{20bf}"
    } else if str_eq(code, "eth") {
        "\u{39e}"
    } else {
        "$"
    }
}

/// Reads a stored alert direction: `below`, or `above` for anything else.
pub fn direction_from_str(s: &str) -> (r: AlertDirection)
    ensures
        r == (if s@ == "below"@ {
            AlertDirection::Below
        } else {
            AlertDirection::Above
        }),
{
    if str_eq(s, "below") {
        AlertDirection::Below
    } else {
        AlertDirection::Above
    }
}

/// The stored name of an alert direction.
pub fn direction_label(d: AlertDirection) -> (r: &'static str)
    ensures
        d == AlertDirection::Above ==> r@ == "above"@,
        d == AlertDirection::Below ==> r@ == "below"@,
{
    match d {
        AlertDirection::Above => "above",
        AlertDirection::Below => "below",
    }
}

// ---------------------------------------------------------------------------
// Configuration
// ---------------------------------------------------------------------------

/// The lowest accepted refresh interval, in seconds.
pub const MIN_REFRESH_SECS: u64 = 30;

/// Non-secret settings kept in the configuration file.
#[derive(Debug, Clone)]
pub struct Config {
    pub refresh_interval_secs: u64,
    pub currency: String,
    pub theme: String,
}

pub fn default_refresh() -> (r: u64)
    ensures
        r == 60,
{
    60
}

pub fn default_currency() -> (r: String)
    ensures
        r@ == "usd"@,
{
    String::from_str("usd")
}

pub fn default_theme() -> (r: String)
    ensures
        r@ == "dark"@,
{
    String::from_str("dark")
}

impl Config {
    /// The configuration written on first start.
    pub fn new() -> (r: Config)
        ensures
            r.refresh_interval_secs == 60,
            r.currency@ == "usd"@,
            r.theme@ == "dark"@,
    {
        Config { refresh_interval_secs: default_refresh(), currency: default_currency(), theme: default_theme() }
    }

    /// Raises the refresh interval to the floor of `MIN_REFRESH_SECS`.
    pub fn enforce_refresh_floor(&mut self)
        ensures
            final(self).refresh_interval_secs == if old(self).refresh_interval_secs < MIN_REFRESH_SECS {
                MIN_REFRESH_SECS
            } else {
                old(self).refresh_interval_secs
            },
            final(self).currency == old(self).currency,
            final(self).theme == old(self).theme,
    {
        if self.refresh_interval_secs < MIN_REFRESH_SECS {
            self.refresh_interval_secs = MIN_REFRESH_SECS;
        }
    }
}

impl Default for Config {
    fn default() -> (r: Config)
        ensures
            r.refresh_interval_secs == 60,
            r.currency@ == "usd"@,
            r.theme@ == "dark"@,
    {
        Config::new()
    }
}

} // verus!
