//! News search queries and the URL key used to drop duplicate articles.
use vstd::prelude::*;
use crate::ticker::{ascii_upper, to_ascii_uppercase};

verus! {

/// `s` up to, not including, the first `c`; all of `s` if there is none.
pub open spec fn cut_at(s: Seq<char>, c: char) -> Seq<char>
    decreases s.len(),
{
    if s.len() == 0 {
        s
    } else if s[0] == c {
        Seq::empty()
    } else {
        seq![s[0]] + cut_at(s.subrange(1, s.len() as int), c)
    }
}

proof fn lemma_cut_at(s: Seq<char>, c: char, i: int)
    requires
        0 <= i <= s.len(),
        forall|j: int| 0 <= j < i ==> s[j] != c,
        i < s.len() ==> s[i] == c,
    ensures
        cut_at(s, c) == s.subrange(0, i),
    decreases i,
{
    if i == 0 {
        if s.len() > 0 {
            assert(s.subrange(0, 0) =~= Seq::<char>::empty());
        } else {
            assert(s.subrange(0, 0) =~= s);
        }
    } else {
        let t = s.subrange(1, s.len() as int);
        assert forall|j: int| 0 <= j < i - 1 implies t[j] != c by {
            assert(t[j] == s[j + 1]);
        }
        if i - 1 < t.len() {
            assert(t[i - 1] == s[i]);
        }
        lemma_cut_at(t, c, i - 1);
        assert(seq![s[0]] + t.subrange(0, i - 1) =~= s.subrange(0, i));
    }
}

/// `s` without its trailing `/` characters.
pub open spec fn strip_trailing_slashes(s: Seq<char>) -> Seq<char>
    decreases s.len(),
{
    if s.len() > 0 && s[s.len() - 1] == '/' {
        strip_trailing_slashes(s.drop_last())
    } else {
        s
    }
}

fn cut_str<'a>(s: &'a str, c: char) -> (r: &'a str)
    ensures
        r@ == cut_at(s@, c),
{
    let n = s.unicode_len();
    let mut i: usize = 0;
    while i < n && s.get_char(i) != c
        invariant
            n == s@.len(),
            i <= n,
            forall|j: int| 0 <= j < i ==> s@[j] != c,
        decreases n - i,
    {
        i = i + 1;
    }
    proof {
        lemma_cut_at(s@, c, i as int);
    }
    s.substring_char(0, i)
}

/// The key of an article's address: without fragment, query and trailing `/`.
pub open spec fn url_key(u: Seq<char>) -> Seq<char> {
    strip_trailing_slashes(cut_at(cut_at(u, '#'), '?'))
}

pub fn normalize_url(url: &str) -> (r: String)
    ensures
        r@ == url_key(url@),
{
    let a = cut_str(url, '#');
    let b = cut_str(a, '?');
    let mut end = b.unicode_len();
    assert(b@.subrange(0, end as int) =~= b@);
    while end > 0 && b.get_char(end - 1) == '/'
        invariant
            end <= b@.len(),
            strip_trailing_slashes(b@.subrange(0, end as int)) == strip_trailing_slashes(b@),
        decreases end,
    {
        assert(b@.subrange(0, end as int).drop_last() =~= b@.subrange(0, end - 1));
        end = end - 1;
    }
    assert(b@.subrange(0, end as int) == strip_trailing_slashes(b@.subrange(0, end as int)));
    String::from_str(b.substring_char(0, end))
}

pub open spec fn quoted(s: Seq<char>) -> Seq<char> {
    "\""@ + s + "\""@
}

/// Finance terms a filtered Japanese query must also match.
pub open spec fn jp_finance_clause() -> Seq<char> {
    "(決算 OR 業績 OR IR OR プレスリリース OR 開示 OR 適時開示 OR 配当 OR ガイダンス OR 提携 OR 買収 OR 株価 OR 株式 OR 投資家 OR \"press release\" OR earnings OR revenue OR profit OR guidance OR dividend OR \"SEC filing\")"@
}

/// Finance terms a filtered English query must also match.
pub open spec fn us_finance_clause() -> Seq<char> {
    "(stock OR earnings OR guidance OR \"SEC filing\" OR revenue OR profit OR dividend OR investor OR shareholder OR acquisition OR merger)"@
}

pub open spec fn jp_query(name: Seq<char>, code: Option<Seq<char>>, ticker: Seq<char>, filter: bool) -> Seq<char> {
    if !filter {
        quoted(name)
    } else {
        let entity = match code {
            Some(c) => "("@ + quoted(name) + " OR "@ + c + " OR "@ + ticker + ")"@,
            None => "("@ + quoted(name) + " OR "@ + ticker + ")"@,
        };
        entity + " AND "@ + jp_finance_clause()
    }
}

/// Query for a Tokyo ticker: the company name, and with the filter the code
/// or the ticker together with finance terms.
pub fn build_news_query_jp(name: &str, code: Option<&str>, ticker: &str, filter: bool) -> (r: String)
    ensures
        r@ == jp_query(
            name@,
            match code {
                Some(c) => Some(c@),
                None => None,
            },
            ticker@,
            filter,
        ),
{
    let q = String::from_str("\"").concat(name).concat("\"");
    if !filter {
        return q;
    }
    let entity = match code {
        Some(c) => String::from_str("(").concat(q.as_str()).concat(" OR ").concat(c).concat(" OR ").concat(
            ticker,
        ).concat(")"),
        None => String::from_str("(").concat(q.as_str()).concat(" OR ").concat(ticker).concat(")"),
    };
    entity.concat(" AND ").concat(
        "(決算 OR 業績 OR IR OR プレスリリース OR 開示 OR 適時開示 OR 配当 OR ガイダンス OR 提携 OR 買収 OR 株価 OR 株式 OR 投資家 OR \"press release\" OR earnings OR revenue OR profit OR guidance OR dividend OR \"SEC filing\")",
    )
}

pub open spec fn us_query(ticker: Seq<char>, name: Option<Seq<char>>, filter: bool) -> Seq<char> {
    let up = ascii_upper(ticker);
    if !filter {
        match name {
            Some(n) => quoted(n),
            None => quoted(up),
        }
    } else {
        let entity = match name {
            Some(n) => "("@ + quoted(n) + " OR "@ + up + ")"@,
            None => "("@ + up + ")"@,
        };
        entity + " AND "@ + us_finance_clause()
    }
}

/// Query for any other ticker: the company name or the ticker, and with the
/// filter both together with finance terms.
pub fn build_news_query_us(ticker: &str, name: Option<&str>, filter: bool) -> (r: String)
    ensures
        r@ == us_query(
            ticker@,
            match name {
                Some(n) => Some(n@),
                None => None,
            },
            filter,
        ),
{
    let up = to_ascii_uppercase(ticker);
    if !filter {
        return match name {
            Some(n) => String::from_str("\"").concat(n).concat("\""),
            None => String::from_str("\"").concat(up.as_str()).concat("\""),
        };
    }
    let entity = match name {
        Some(n) => {
            let q = String::from_str("\"").concat(n).concat("\"");
            String::from_str("(").concat(q.as_str()).concat(" OR ").concat(up.as_str()).concat(")")
        },
        None => String::from_str("(").concat(up.as_str()).concat(")"),
    };
    entity.concat(" AND ").concat(
        "(stock OR earnings OR guidance OR \"SEC filing\" OR revenue OR profit OR dividend OR investor OR shareholder OR acquisition OR merger)",
    )
}

} // verus!
