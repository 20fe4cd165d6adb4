use bags::display::{add_commas, mask_key, sort_indicator};
use bags::endpoint::{apply_key, base_url};
use bags::number::{accepts_numeric_char, decimal_string, format_fixed, parse_fixed};
use bags::text::{compare_chars, contains_chars, join, str_eq, truncate_text};
use bags::types::{
    currency_code, currency_index, currency_symbol, default_currency, default_refresh, default_theme,
    direction_from_str, notification_method_from_str, notification_method_label, theme_index, theme_name,
    AlertDirection, ChartView, Config, NotificationMethod, SettingsField, SortColumn, SortDirection, Tab,
};

#[test]
fn parses_decimal_buffers() {
    assert_eq!(parse_fixed(&"12.5".to_string()), Some(1_250_000_000));
    assert_eq!(parse_fixed(&"0.00000001".to_string()), Some(1));
    assert_eq!(parse_fixed(&"0.000000019".to_string()), Some(1));
    assert_eq!(parse_fixed(&"5.".to_string()), Some(500_000_000));
    assert_eq!(parse_fixed(&".5".to_string()), Some(50_000_000));
    assert_eq!(parse_fixed(&"48000".to_string()), Some(4_800_000_000_000));
    assert_eq!(parse_fixed(&".".to_string()), None);
    assert_eq!(parse_fixed(&"".to_string()), None);
    assert_eq!(parse_fixed(&"1.2.3".to_string()), None);
    assert_eq!(parse_fixed(&"abc".to_string()), None);
    assert_eq!(parse_fixed(&"184467440737".to_string()), Some(18_446_744_073_700_000_000));
    assert_eq!(parse_fixed(&"184467440738".to_string()), None);
    assert_eq!(parse_fixed(&"99999999999999999999999".to_string()), None);
}

#[test]
fn formats_fixed_point_values() {
    assert_eq!(format_fixed(1_250_000_000), "12.5");
    assert_eq!(format_fixed(0), "0");
    assert_eq!(format_fixed(1), "0.00000001");
    assert_eq!(format_fixed(4_800_000_000_000), "48000");
    for v in [0u64, 1, 7, 123_456_789, 100_000_000, u64::MAX] {
        assert_eq!(parse_fixed(&format_fixed(v)), Some(v));
    }
    assert_eq!(decimal_string(0), "0");
    assert_eq!(decimal_string(90210), "90210");
    assert!(accepts_numeric_char('7'));
    assert!(accepts_numeric_char('.'));
    assert!(!accepts_numeric_char('a'));
}

#[test]
fn masks_and_groups() {
    assert_eq!(mask_key("abc"), "\u{2022}\u{2022}\u{2022}");
    assert_eq!(mask_key("abcdefgh"), "abc\u{2022}\u{2022}\u{2022}\u{2022}\u{2022}");
    assert_eq!(mask_key(""), "");
    assert_eq!(add_commas("1234567.89"), "1,234,567.89");
    assert_eq!(add_commas("123"), "123");
    assert_eq!(add_commas("1000"), "1,000");
    assert_eq!(add_commas("-123"), "-123");
    assert_eq!(add_commas("-1234"), "-1,234");
    assert_eq!(add_commas("1.2.3"), "1.2");
    assert_eq!(sort_indicator(Some(SortColumn::Price), SortDirection::Asc, SortColumn::Price), " \u{25b4}");
    assert_eq!(sort_indicator(Some(SortColumn::Price), SortDirection::Desc, SortColumn::Price), " \u{25be}");
    assert_eq!(sort_indicator(None, SortDirection::Desc, SortColumn::Price), "");
}

#[test]
fn string_helpers() {
    assert!(contains_chars(&"bitcoin".chars().collect(), &"tco".chars().collect()));
    assert!(!contains_chars(&"bit".chars().collect(), &"bits".chars().collect()));
    assert!(contains_chars(&"bit".chars().collect(), &Vec::new()));
    assert_eq!(compare_chars(&"abc".chars().collect(), &"abd".chars().collect()), -1);
    assert_eq!(compare_chars(&"ab".chars().collect(), &"ab".chars().collect()), 0);
    assert_eq!(compare_chars(&"b".chars().collect(), &"ab".chars().collect()), 1);
    assert!(str_eq("usd", "usd"));
    assert!(!str_eq("usd", "usdt"));
    assert_eq!(join("API: ", "down"), "API: down");
    let long = "x".repeat(100);
    let short = truncate_text(long, 80);
    assert_eq!(short.chars().count(), 80);
    assert!(short.ends_with("..."));
    assert_eq!(truncate_text("fine".to_string(), 80), "fine");
}

#[test]
fn api_urls() {
    assert_eq!(base_url(""), "https://api.coingecko.com/api/v3");
    assert_eq!(base_url("k"), "https://pro-api.coingecko.com/api/v3");
    assert_eq!(apply_key("https://x/global", ""), "https://x/global");
    assert_eq!(apply_key("https://x/global", "k1"), "https://x/global?x_cg_pro_api_key=k1");
    assert_eq!(apply_key("https://x/search?query=b", "k1"), "https://x/search?query=b&x_cg_pro_api_key=k1");
}

#[test]
fn tabs_and_chart_ranges() {
    assert_eq!(Tab::Markets.next(), Tab::Favourites);
    assert_eq!(Tab::Portfolio.next(), Tab::Markets);
    assert_eq!(Tab::from_index(2), Tab::Portfolio);
    assert_eq!(Tab::from_index(9), Tab::Markets);
    assert_eq!(Tab::Favourites.index(), 1);
    assert_eq!(Tab::Favourites.label(), "Favourites");
    assert_eq!(ChartView::Day7.days(), 7);
    assert_eq!(ChartView::Day30.next(), ChartView::Day1);
    assert_eq!(ChartView::Day1.prev(), ChartView::Day30);
    assert_eq!(ChartView::Day30.label(), "30D");
    assert_eq!(SettingsField::NtfyTopic.next(), SettingsField::Currency);
    assert_eq!(SettingsField::Currency.prev(), SettingsField::NtfyTopic);
    assert!(SettingsField::NtfyTopic.is_text_field());
    assert!(SettingsField::Theme.is_cycle_field());
    assert_eq!(SettingsField::CoingeckoApiKey.label(), "CoinGecko API Key");
}

#[test]
fn currencies_themes_methods() {
    assert_eq!(currency_symbol("eur"), "\u{20ac}");
    assert_eq!(currency_symbol("krw"), "\u{a5}");
    assert_eq!(currency_symbol("brl"), "R$");
    assert_eq!(currency_symbol("xyz"), "$");
    assert_eq!(currency_code(12), "eth");
    assert_eq!(currency_index("gbp"), 2);
    assert_eq!(currency_index("nope"), 0);
    assert_eq!(theme_name(10), "no-color");
    assert_eq!(theme_index("light"), 8);
    assert_eq!(notification_method_from_str("both"), NotificationMethod::Both);
    assert_eq!(notification_method_from_str("junk"), NotificationMethod::Off);
    assert_eq!(notification_method_label(NotificationMethod::Ntfy), "ntfy");
    assert_eq!(notification_method_label(NotificationMethod::Off), "none");
    assert_eq!(direction_from_str("below"), AlertDirection::Below);
    assert_eq!(direction_from_str("above"), AlertDirection::Above);
    assert_eq!(direction_from_str("sideways"), AlertDirection::Above);
}

#[test]
fn config_defaults_and_floor() {
    assert_eq!(default_refresh(), 60);
    assert_eq!(default_currency(), "usd");
    assert_eq!(default_theme(), "dark");
    let mut c = Config::default();
    assert_eq!(c.refresh_interval_secs, 60);
    c.refresh_interval_secs = 5;
    c.enforce_refresh_floor();
    assert_eq!(c.refresh_interval_secs, 30);
    c.refresh_interval_secs = 45;
    c.enforce_refresh_floor();
    assert_eq!(c.refresh_interval_secs, 45);
}
