//! Ticker symbols: normalisation, Tokyo codes, news locale, and the address
//! of a symbol's daily chart.
use vstd::prelude::*;

verus! {

/// What `str::trim` returns for a string.
pub uninterp spec fn trimmed(s: Seq<char>) -> Seq<char>;

/// Relies on `str::trim`: the string without leading and trailing white space.
#[verifier::external_body]
pub(crate) fn trim(s: &str) -> (r: &str)
    ensures
        r@ == trimmed(s@),
{
    s.trim()
}

pub open spec fn ascii_upper_char(c: char) -> char {
    if 'a' <= c <= 'z' {
        ((c as u32) - 32) as char
    } else {
        c
    }
}

/// `s` with the ASCII letters a-z replaced by A-Z.
pub open spec fn ascii_upper(s: Seq<char>) -> Seq<char> {
    Seq::new(s.len(), |i: int| ascii_upper_char(s[i]))
}

/// Relies on `str::to_ascii_uppercase`: ASCII letters upper-cased, every
/// other character unchanged.
#[verifier::external_body]
pub(crate) fn to_ascii_uppercase(s: &str) -> (r: String)
    ensures
        r@ == ascii_upper(s@),
{
    s.to_ascii_uppercase()
}

/// What `urlencoding::encode` returns for a string.
pub uninterp spec fn url_encoded(s: Seq<char>) -> Seq<char>;

/// Relies on `urlencoding::encode`: percent-encoding of every byte but
/// ASCII letters, digits and `-`, `_`, `.`, `~`.
#[verifier::external_body]
fn url_encode(s: &str) -> (r: String)
    ensures
        r@ == url_encoded(s@),
{
    urlencoding::encode(s).into_owned()
}

pub open spec fn ends_with_dot_t(s: Seq<char>) -> bool {
    s.len() >= 2 && s[s.len() - 2] == '.' && s[s.len() - 1] == 'T'
}

pub open spec fn is_four_digits(s: Seq<char>) -> bool {
    s.len() == 4 && forall|i: int| 0 <= i < 4 ==> '0' <= #[trigger] s[i] <= '9'
}

fn has_dot_t_suffix(s: &str) -> (r: bool)
    ensures
        r == ends_with_dot_t(s@),
{
    let n = s.unicode_len();
    n >= 2 && s.get_char(n - 2) == '.' && s.get_char(n - 1) == 'T'
}

fn four_digits(s: &str) -> (r: bool)
    ensures
        r == is_four_digits(s@),
{
    let n = s.unicode_len();
    if n != 4 {
        return false;
    }
    let mut i: usize = 0;
    while i < 4
        invariant
            n == 4 == s@.len(),
            i <= 4,
            forall|j: int| 0 <= j < i ==> '0' <= #[trigger] s@[j] <= '9',
        decreases 4 - i,
    {
        let c = s.get_char(i);
        if !('0' <= c && c <= '9') {
            return false;
        }
        i = i + 1;
    }
    true
}

/// A normalised ticker: trimmed and upper-cased; four digits get the Tokyo
/// suffix `.T`.
pub open spec fn normalized_ticker(raw: Seq<char>) -> Seq<char> {
    let up = ascii_upper(trimmed(raw));
    if !ends_with_dot_t(up) && is_four_digits(up) {
        up + ".T"@
    } else {
        up
    }
}

/// Normalises a ticker: `9432` and `9432.t` become `9432.T`, `nvda` becomes `NVDA`.
pub fn normalize_ticker(raw: &str) -> (r: String)
    ensures
        r@ == normalized_ticker(raw@),
{
    let up = to_ascii_uppercase(trim(raw));
    if !has_dot_t_suffix(up.as_str()) && four_digits(up.as_str()) {
        up.concat(".T")
    } else {
        up
    }
}

/// The four-digit Tokyo code of a ticker, if it is one.
pub open spec fn jp_code(t: Seq<char>) -> Option<Seq<char>> {
    let up = ascii_upper(trimmed(t));
    if ends_with_dot_t(up) {
        let code = up.subrange(0, up.len() - 2);
        if is_four_digits(code) {
            Some(code)
        } else {
            None
        }
    } else if is_four_digits(up) {
        Some(up)
    } else {
        None
    }
}

/// `9432.T` and `9432` give `9432`; other tickers give nothing.
pub fn jp_code_from_ticker(t: &str) -> (r: Option<String>)
    ensures
        jp_code(t@) is None ==> r is None,
        jp_code(t@) matches Some(c) ==> r is Some && r->Some_0@ == c,
{
    let up = to_ascii_uppercase(trim(t));
    if has_dot_t_suffix(up.as_str()) {
        let n = up.as_str().unicode_len();
        let code = up.as_str().substring_char(0, n - 2);
        if four_digits(code) {
            Some(String::from_str(code))
        } else {
            None
        }
    } else if four_digits(up.as_str()) {
        Some(up)
    } else {
        None
    }
}

/// Country, search language and interface language of the news search.
pub open spec fn is_tokyo(ticker: Seq<char>) -> bool {
    ends_with_dot_t(ascii_upper(ticker))
}

/// Tokyo tickers search Japanese news, every other one English news.
pub fn news_locale_for_ticker(ticker: &str) -> (r: (&'static str, &'static str, &'static str))
    ensures
        is_tokyo(ticker@) ==> r.0@ == "JP"@ && r.1@ == "jp"@ && r.2@ == "ja-JP"@,
        !is_tokyo(ticker@) ==> r.0@ == "US"@ && r.1@ == "en"@ && r.2@ == "en-US"@,
{
    let up = to_ascii_uppercase(ticker);
    if has_dot_t_suffix(up.as_str()) {
        ("JP", "jp", "ja-JP")
    } else {
        ("US", "en", "en-US")
    }
}

/// The symbol the chart service knows a ticker by.
pub open spec fn chart_symbol(ticker: Seq<char>) -> Seq<char> {
    match jp_code(ticker) {
        Some(code) => code + ".T"@,
        None => trimmed(ticker),
    }
}

/// Address of the three-month daily chart of a ticker.
pub fn market_data_url(ticker: &str) -> (r: String)
    ensures
        r@ == "https://query2.finance.yahoo.com/v8/finance/chart/"@ + url_encoded(
            chart_symbol(ticker@),
        ) + "?interval=1d&range=3mo"@,
{
    let symbol = match jp_code_from_ticker(ticker) {
        Some(code) => code.concat(".T"),
        None => String::from_str(trim(ticker)),
    };
    let base = String::from_str("https://query2.finance.yahoo.com/v8/finance/chart/");
    let with_symbol = base.concat(url_encode(symbol.as_str()).as_str());
    with_symbol.concat("?interval=1d&range=3mo")
}

} // verus!
