//! Checks and normalisation of user input: tickers, index aliases, free text,
//! lines of configuration files, and numeric settings.
use vstd::prelude::*;
use crate::indicator::same_chars;
use crate::ticker::{trim, trimmed};

verus! {

/// What `str::to_uppercase` returns for a string.
pub uninterp spec fn uppercase_of(s: Seq<char>) -> Seq<char>;

/// Relies on `str::to_uppercase`: Unicode upper-case mapping, which depends
/// on the characters alone.
#[verifier::external_body]
fn to_uppercase(s: &str) -> (r: String)
    ensures
        r@ == uppercase_of(s@),
{
    s.to_uppercase()
}

/// Whether `char::is_alphanumeric` holds of a character.
pub uninterp spec fn is_alphanumeric_char(c: char) -> bool;

/// Relies on `char::is_alphanumeric`: the Unicode Alphabetic or Numeric property.
#[verifier::external_body]
fn is_alphanumeric(c: char) -> (r: bool)
    ensures
        r == is_alphanumeric_char(c),
{
    c.is_alphanumeric()
}

/// Whether `char::is_whitespace` holds of a character.
pub uninterp spec fn is_whitespace_char(c: char) -> bool;

/// Relies on `char::is_whitespace`: the Unicode White_Space property.
#[verifier::external_body]
fn is_whitespace(c: char) -> (r: bool)
    ensures
        r == is_whitespace_char(c),
{
    c.is_whitespace()
}

/// Control characters: the general category Cc.
pub open spec fn is_control_char(c: char) -> bool {
    c <= '\u{1f}' || ('\u{7f}' <= c && c <= '\u{9f}')
}

/// Bytes of a character in UTF-8.
pub open spec fn utf8_width(c: char) -> nat {
    if (c as u32) < 0x80 {
        1
    } else if (c as u32) < 0x800 {
        2
    } else if (c as u32) < 0x10000 {
        3
    } else {
        4
    }
}

/// Bytes of a string in UTF-8.
pub open spec fn utf8_len(s: Seq<char>) -> nat
    decreases s.len(),
{
    if s.len() == 0 {
        0
    } else {
        utf8_len(s.drop_last()) + utf8_width(s.last())
    }
}

/// The length of a string in UTF-8 bytes, counted up to `cap + 1`.
pub fn utf8_len_capped(s: &str, cap: usize) -> (r: usize)
    requires
        cap < usize::MAX - 4,
    ensures
        utf8_len(s@) <= cap ==> r == utf8_len(s@),
        utf8_len(s@) > cap ==> r > cap,
{
    let n = s.unicode_len();
    let mut total: usize = 0;
    let mut i: usize = 0;
    while i < n
        invariant
            n == s@.len(),
            i <= n,
            cap < usize::MAX - 4,
            total <= cap ==> total == utf8_len(s@.subrange(0, i as int)),
            total > cap ==> utf8_len(s@.subrange(0, i as int)) > cap,
            total <= cap + 4,
        decreases n - i,
    {
        let c = s.get_char(i);
        let w: usize = if (c as u32) < 0x80 {
            1
        } else if (c as u32) < 0x800 {
            2
        } else if (c as u32) < 0x10000 {
            3
        } else {
            4
        };
        assert(s@.subrange(0, i + 1).drop_last() =~= s@.subrange(0, i as int));
        if total <= cap {
            total = total + w;
        }
        i = i + 1;
    }
    assert(s@.subrange(0, n as int) =~= s@);
    total
}

/// Whether `s` holds a character `c` satisfies.
pub open spec fn contains_char(s: Seq<char>, c: char) -> bool {
    exists|i: int| 0 <= i < s.len() && s[i] == c
}

pub open spec fn has_forbidden(s: Seq<char>) -> bool {
    contains_char(s, ';') || contains_char(s, '|') || contains_char(s, '`')
}

fn find_forbidden(s: &str) -> (r: bool)
    ensures
        r == has_forbidden(s@),
{
    let n = s.unicode_len();
    let mut i: usize = 0;
    while i < n
        invariant
            n == s@.len(),
            i <= n,
            forall|j: int| 0 <= j < i ==> s@[j] != ';' && s@[j] != '|' && s@[j] != '`',
        decreases n - i,
    {
        let c = s.get_char(i);
        if c == ';' || c == '|' || c == '`' {
            return true;
        }
        i = i + 1;
    }
    false
}

/// Why a piece of input was refused.
#[derive(Clone, Copy, Debug, PartialEq, Eq, Structural)]
pub enum InputError {
    /// The ticker holds a character other than letters, digits and `.`.
    InvalidTicker,
    /// The text holds `;`, `|` or a backquote.
    ForbiddenCharacter,
    /// The text is longer than `limit` bytes.
    TooLong { limit: usize },
}

pub open spec fn ticker_ok(s: Seq<char>) -> bool {
    forall|i: int| 0 <= i < s.len() ==> is_alphanumeric_char(#[trigger] s[i]) || s[i] == '.'
}

/// Accepts a ticker of letters, digits and dots, trimmed and upper-cased.
pub fn sanitize_ticker(t: &str) -> (r: Result<String, InputError>)
    ensures
        ticker_ok(uppercase_of(trimmed(t@))) ==> r is Ok && r->Ok_0@ == uppercase_of(trimmed(t@)),
        !ticker_ok(uppercase_of(trimmed(t@))) ==> r == Err::<String, InputError>(
            InputError::InvalidTicker,
        ),
{
    let cleaned = to_uppercase(trim(t));
    let s = cleaned.as_str();
    let n = s.unicode_len();
    let mut i: usize = 0;
    while i < n
        invariant
            n == s@.len(),
            s@ == cleaned@,
            cleaned@ == uppercase_of(trimmed(t@)),
            i <= n,
            forall|j: int| 0 <= j < i ==> is_alphanumeric_char(#[trigger] s@[j]) || s@[j] == '.',
        decreases n - i,
    {
        let c = s.get_char(i);
        if !(is_alphanumeric(c) || c == '.') {
            assert(uppercase_of(trimmed(t@))[i as int] == c);
            return Err(InputError::InvalidTicker);
        }
        i = i + 1;
    }
    Ok(cleaned)
}

/// The ticker an index name stands for, if it names one.
pub open spec fn index_alias(k: Seq<char>) -> Option<Seq<char>> {
    if k == "S&P500"@ || k == "SNP500"@ || k == "SP500"@ {
        Some("SPY"@)
    } else if k == "NASDAQ100"@ || k == "ナスダック100"@ {
        Some("QQQ"@)
    } else if k == "DOW"@ || k == "DJIA"@ || k == "ダウ平均"@ {
        Some("DIA"@)
    } else if k == "日経平均"@ || k == "NIKKEI225"@ {
        Some("1321.T"@)
    } else if k == "TOPIX"@ {
        Some("1306.T"@)
    } else if k == "全世界"@ || k == "オールカントリー"@ || k == "ACWI"@ {
        Some("ACWI"@)
    } else if k == "全米"@ || k == "VTI"@ || k == "トータルマーケット"@ {
        Some("VTI"@)
    } else if k == "FANG+"@ || k == "FANGプラス"@ {
        Some("FNGU"@)
    } else {
        None
    }
}

/// Replaces an index name by the ticker of the fund that tracks it; any
/// other input is kept as it is.
pub fn normalize_ticker_input(raw: &str) -> (r: String)
    ensures
        index_alias(uppercase_of(trimmed(raw@))) matches Some(t) ==> r@ == t,
        index_alias(uppercase_of(trimmed(raw@))) is None ==> r@ == raw@,
{
    let key = to_uppercase(trim(raw));
    let k = key.as_str();
    let t: &str = if same_chars(k, "S&P500") || same_chars(k, "SNP500") || same_chars(k, "SP500") {
        "SPY"
    } else if same_chars(k, "NASDAQ100") || same_chars(k, "ナスダック100") {
        "QQQ"
    } else if same_chars(k, "DOW") || same_chars(k, "DJIA") || same_chars(k, "ダウ平均") {
        "DIA"
    } else if same_chars(k, "日経平均") || same_chars(k, "NIKKEI225") {
        "1321.T"
    } else if same_chars(k, "TOPIX") {
        "1306.T"
    } else if same_chars(k, "全世界") || same_chars(k, "オールカントリー") || same_chars(k, "ACWI") {
        "ACWI"
    } else if same_chars(k, "全米") || same_chars(k, "VTI") || same_chars(k, "トータルマーケット") {
        "VTI"
    } else if same_chars(k, "FANG+") || same_chars(k, "FANGプラス") {
        "FNGU"
    } else {
        raw
    };
    String::from_str(t)
}

/// The formal name of a fund known without lookup.
pub open spec fn hardcoded_name(t: Seq<char>) -> Option<Seq<char>> {
    if t == "QQQ"@ {
        Some("Invesco QQQ Trust (NASDAQ100)"@)
    } else if t == "SPY"@ {
        Some("SPDR S&P 500 ETF Trust (S&P500)"@)
    } else if t == "ACWI"@ {
        Some("iShares MSCI ACWI ETF (オールカントリー)"@)
    } else if t == "FANG+"@ {
        Some("NYSE FANG+ Index"@)
    } else {
        None
    }
}

pub fn resolve_hardcoded_info(ticker: &str) -> (r: Option<&'static str>)
    ensures
        hardcoded_name(ticker@) is None ==> r is None,
        hardcoded_name(ticker@) matches Some(n) ==> r is Some && r->Some_0@ == n,
{
    if same_chars(ticker, "QQQ") {
        Some("Invesco QQQ Trust (NASDAQ100)")
    } else if same_chars(ticker, "SPY") {
        Some("SPDR S&P 500 ETF Trust (S&P500)")
    } else if same_chars(ticker, "ACWI") {
        Some("iShares MSCI ACWI ETF (オールカントリー)")
    } else if same_chars(ticker, "FANG+") {
        Some("NYSE FANG+ Index")
    } else {
        None
    }
}

/// A custom news query: at most 200 bytes, none of `;`, `|`, backquote; trimmed.
pub fn sanitize_news_query(q: &str) -> (r: Result<String, InputError>)
    ensures
        utf8_len(q@) > 200 ==> r == Err::<String, InputError>(InputError::TooLong { limit: 200 }),
        utf8_len(q@) <= 200 && has_forbidden(q@) ==> r == Err::<String, InputError>(
            InputError::ForbiddenCharacter,
        ),
        utf8_len(q@) <= 200 && !has_forbidden(q@) ==> r is Ok && r->Ok_0@ == trimmed(q@),
{
    if utf8_len_capped(q, 200) > 200 {
        return Err(InputError::TooLong { limit: 200 });
    }
    if find_forbidden(q) {
        return Err(InputError::ForbiddenCharacter);
    }
    Ok(String::from_str(trim(q)))
}

/// `s` with every white-space character replaced by a space.
pub open spec fn spaces_for_whitespace(s: Seq<char>) -> Seq<char> {
    Seq::new(s.len(), |i: int| if is_whitespace_char(s[i]) { ' ' } else { s[i] })
}

fn flatten_whitespace(s: &str) -> (r: String)
    ensures
        r@ == spaces_for_whitespace(s@),
{
    let n = s.unicode_len();
    let mut out = String::new();
    let mut i: usize = 0;
    while i < n
        invariant
            n == s@.len(),
            i <= n,
            out@ == spaces_for_whitespace(s@).subrange(0, i as int),
        decreases n - i,
    {
        let c = s.get_char(i);
        if is_whitespace(c) {
            proof {
                reveal_strlit(" ");
            }
            assert(" "@ =~= seq![' ']);
            out.append(" ");
        } else {
            let piece = s.substring_char(i, i + 1);
            assert(piece@ =~= seq![c]);
            out.append(piece);
        }
        assert(out@ =~= spaces_for_whitespace(s@).subrange(0, i + 1));
        i = i + 1;
    }
    assert(spaces_for_whitespace(s@).subrange(0, n as int) =~= spaces_for_whitespace(s@));
    out
}

/// An extra note for the prompt: none of `;`, `|`, backquote; trimmed, with
/// every white space a plain space; at most 2000 bytes.
pub fn sanitize_llm_note(note: &str) -> (r: Result<String, InputError>)
    ensures
        has_forbidden(note@) ==> r == Err::<String, InputError>(InputError::ForbiddenCharacter),
        !has_forbidden(note@) && utf8_len(spaces_for_whitespace(trimmed(note@))) > 2000 ==> r
            == Err::<String, InputError>(InputError::TooLong { limit: 2000 }),
        !has_forbidden(note@) && utf8_len(spaces_for_whitespace(trimmed(note@))) <= 2000 ==> r is Ok
            && r->Ok_0@ == spaces_for_whitespace(trimmed(note@)),
{
    if find_forbidden(note) {
        return Err(InputError::ForbiddenCharacter);
    }
    let cleaned = flatten_whitespace(trim(note));
    if utf8_len_capped(cleaned.as_str(), 2000) > 2000 {
        return Err(InputError::TooLong { limit: 2000 });
    }
    Ok(cleaned)
}

/// Why a line of a configuration file was refused.
#[derive(Clone, Copy, Debug, PartialEq, Eq, Structural)]
pub enum LineError {
    /// Longer than 500 bytes.
    TooLong,
    NulByte,
    ControlCharacter,
    ByteOrderMark,
}

/// The line, without a leading byte-order mark on the first line.
pub open spec fn line_body(line: Seq<char>, first: bool) -> Seq<char> {
    if first && line.len() > 0 && line[0] == '\u{feff}' {
        line.subrange(1, line.len() as int)
    } else {
        line
    }
}

pub open spec fn has_bad_control(s: Seq<char>) -> bool {
    exists|i: int| 0 <= i < s.len() && is_control_char(s[i]) && s[i] != '\n' && s[i] != '\r'
}

/// Checks one line of a configuration file.
pub fn check_file_line(line: &str, first: bool) -> (r: Result<String, LineError>)
    ensures
        ({
            let b = line_body(line@, first);
            &&& utf8_len(b) > 500 ==> r == Err::<String, LineError>(LineError::TooLong)
            &&& utf8_len(b) <= 500 && contains_char(b, '\0') ==> r == Err::<String, LineError>(
                LineError::NulByte,
            )
            &&& utf8_len(b) <= 500 && !contains_char(b, '\0') && has_bad_control(b) ==> r == Err::<
                String,
                LineError,
            >(LineError::ControlCharacter)
            &&& utf8_len(b) <= 500 && !contains_char(b, '\0') && !has_bad_control(b) && contains_char(
                b,
                '\u{feff}',
            ) ==> r == Err::<String, LineError>(LineError::ByteOrderMark)
            &&& utf8_len(b) <= 500 && !contains_char(b, '\0') && !has_bad_control(b)
                && !contains_char(b, '\u{feff}') ==> r is Ok && r->Ok_0@ == b
        }),
{
    let n = line.unicode_len();
    let body: &str = if first && n > 0 && line.get_char(0) == '\u{feff}' {
        line.substring_char(1, n)
    } else {
        line
    };
    if utf8_len_capped(body, 500) > 500 {
        return Err(LineError::TooLong);
    }
    let m = body.unicode_len();
    let mut nul = false;
    let mut control = false;
    let mut bom = false;
    let mut i: usize = 0;
    while i < m
        invariant
            m == body@.len(),
            i <= m,
            nul == exists|j: int| 0 <= j < i && body@[j] == '\0',
            control == exists|j: int|
                0 <= j < i && is_control_char(body@[j]) && body@[j] != '\n' && body@[j] != '\r',
            bom == exists|j: int| 0 <= j < i && body@[j] == '\u{feff}',
        decreases m - i,
    {
        let c = body.get_char(i);
        if c == '\0' {
            nul = true;
        }
        if (c <= '\u{1f}' || ('\u{7f}' <= c && c <= '\u{9f}')) && c != '\n' && c != '\r' {
            control = true;
        }
        if c == '\u{feff}' {
            bom = true;
        }
        i = i + 1;
    }
    if nul {
        Err(LineError::NulByte)
    } else if control {
        Err(LineError::ControlCharacter)
    } else if bom {
        Err(LineError::ByteOrderMark)
    } else {
        Ok(String::from_str(body))
    }
}

/// A weight in thousandths: kept within 0.5 to 3.0, else the default.
pub fn sanitize_weight(milli: i64, default: u32) -> (r: u32)
    ensures
        500 <= milli <= 3000 ==> r == milli,
        !(500 <= milli <= 3000) ==> r == default,
{
    if 500 <= milli && milli <= 3000 {
        milli as u32
    } else {
        default
    }
}

/// A value clamped to `[min, max]`.
pub fn sanitize_percent(value: i64, min: i64, max: i64) -> (r: i64)
    requires
        min <= max,
    ensures
        r == if value < min {
            min
        } else if value > max {
            max
        } else {
            value
        },
{
    if value < min {
        min
    } else if value > max {
        max
    } else {
        value
    }
}

/// The number of news items to fetch, within 1 to 50.
pub fn clamp_news_count(n: usize) -> (r: usize)
    ensures
        r == if n < 1 {
            1
        } else if n > 50 {
            50
        } else {
            n
        },
{
    if n < 1 {
        1
    } else if n > 50 {
        50
    } else {
        n
    }
}

} // verus!
