use tickwise::input::{
    check_file_line, clamp_news_count, normalize_ticker_input, resolve_hardcoded_info,
    sanitize_llm_note, sanitize_news_query, sanitize_percent, sanitize_ticker, sanitize_weight,
    InputError, LineError,
};
use tickwise::news::{build_news_query_jp, build_news_query_us, normalize_url};
use tickwise::ticker::{jp_code_from_ticker, market_data_url, news_locale_for_ticker, normalize_ticker};

#[test]
fn tickers_are_normalised() {
    assert_eq!(normalize_ticker("9432"), "9432.T");
    assert_eq!(normalize_ticker("9432.t"), "9432.T");
    assert_eq!(normalize_ticker(" nvda "), "NVDA");
    assert_eq!(normalize_ticker("brk.b"), "BRK.B");
}

#[test]
fn tokyo_codes() {
    assert_eq!(jp_code_from_ticker("9432.T").as_deref(), Some("9432"));
    assert_eq!(jp_code_from_ticker(" 9432 ").as_deref(), Some("9432"));
    assert_eq!(jp_code_from_ticker("NVDA"), None);
    assert_eq!(jp_code_from_ticker("12345.T"), None);
    assert_eq!(news_locale_for_ticker("7203.t"), ("JP", "jp", "ja-JP"));
    assert_eq!(news_locale_for_ticker("AAPL"), ("US", "en", "en-US"));
}

#[test]
fn chart_addresses() {
    assert_eq!(
        market_data_url("7203"),
        "https://query2.finance.yahoo.com/v8/finance/chart/7203.T?interval=1d&range=3mo"
    );
    assert_eq!(
        market_data_url(" BRK B "),
        "https://query2.finance.yahoo.com/v8/finance/chart/BRK%20B?interval=1d&range=3mo"
    );
}

#[test]
fn article_address_keys() {
    assert_eq!(normalize_url("https://a.com/x/?q=1#f"), "https://a.com/x");
    assert_eq!(normalize_url("https://a.com//"), "https://a.com");
    assert_eq!(normalize_url("https://a.com/y#a?b"), "https://a.com/y");
    assert_eq!(normalize_url(""), "");
}

#[test]
fn news_queries() {
    assert_eq!(build_news_query_us("aapl", Some("Apple"), false), "\"Apple\"");
    assert_eq!(build_news_query_us("aapl", None, false), "\"AAPL\"");
    assert_eq!(
        build_news_query_us("aapl", Some("Apple"), true),
        "(\"Apple\" OR AAPL) AND (stock OR earnings OR guidance OR \"SEC filing\" OR revenue OR profit OR dividend OR investor OR shareholder OR acquisition OR merger)"
    );
    assert_eq!(build_news_query_jp("トヨタ", Some("7203"), "7203.T", false), "\"トヨタ\"");
    let q = build_news_query_jp("トヨタ", Some("7203"), "7203.T", true);
    assert!(q.starts_with("(\"トヨタ\" OR 7203 OR 7203.T) AND (決算 OR 業績"));
    let q = build_news_query_jp("トヨタ", None, "7203.T", true);
    assert!(q.starts_with("(\"トヨタ\" OR 7203.T) AND ("));
}

#[test]
fn ticker_input_checks() {
    assert_eq!(sanitize_ticker(" s&p500 "), Err(InputError::InvalidTicker));
    assert_eq!(sanitize_ticker("brk.b"), Ok("BRK.B".to_string()));
    assert_eq!(normalize_ticker_input("s&p500"), "SPY");
    assert_eq!(normalize_ticker_input("nikkei225"), "1321.T");
    assert_eq!(normalize_ticker_input("全米"), "VTI");
    assert_eq!(normalize_ticker_input(" aapl "), " aapl ");
    assert_eq!(resolve_hardcoded_info("SPY"), Some("SPDR S&P 500 ETF Trust (S&P500)"));
    assert_eq!(resolve_hardcoded_info("AAPL"), None);
}

#[test]
fn free_text_checks() {
    assert_eq!(sanitize_news_query("a;b"), Err(InputError::ForbiddenCharacter));
    assert_eq!(sanitize_news_query(&"a".repeat(201)), Err(InputError::TooLong { limit: 200 }));
    assert_eq!(sanitize_news_query(&"a".repeat(200)), Ok("a".repeat(200)));
    assert_eq!(sanitize_news_query("  hello "), Ok("hello".to_string()));
    assert_eq!(sanitize_llm_note(" a\tb\nc "), Ok("a b c".to_string()));
    assert_eq!(sanitize_llm_note("x|y"), Err(InputError::ForbiddenCharacter));
    assert_eq!(sanitize_llm_note(&"あ".repeat(667)), Err(InputError::TooLong { limit: 2000 }));
    assert_eq!(sanitize_llm_note(&"あ".repeat(666)), Ok("あ".repeat(666)));
}

#[test]
fn settings_file_lines() {
    assert_eq!(check_file_line("\u{feff}KEY=1", true), Ok("KEY=1".to_string()));
    assert_eq!(check_file_line("\u{feff}KEY=1", false), Err(LineError::ByteOrderMark));
    assert_eq!(check_file_line("a\0b", false), Err(LineError::NulByte));
    assert_eq!(check_file_line("a\u{7}b", false), Err(LineError::ControlCharacter));
    assert_eq!(check_file_line(&"a".repeat(501), false), Err(LineError::TooLong));
    assert_eq!(check_file_line("ok\r", false), Ok("ok\r".to_string()));
}

#[test]
fn numeric_settings() {
    assert_eq!(sanitize_weight(499, 1000), 1000);
    assert_eq!(sanitize_weight(500, 1000), 500);
    assert_eq!(sanitize_weight(3000, 1000), 3000);
    assert_eq!(sanitize_weight(-1, 1000), 1000);
    assert_eq!(sanitize_percent(1_200_000, 0, 1_000_000), 1_000_000);
    assert_eq!(sanitize_percent(-5, 0, 1_000_000), 0);
    assert_eq!(clamp_news_count(0), 1);
    assert_eq!(clamp_news_count(80), 50);
    assert_eq!(clamp_news_count(20), 20);
}
