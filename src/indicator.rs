//! The extension indicators, their categories, and the presentation stance.
use vstd::prelude::*;

verus! {

/// The nine optional indicators evaluated beside the MACD/RSI baseline.
#[derive(Clone, Copy, Debug, PartialEq, Eq, Hash, Structural)]
pub enum ExtensionIndicator {
    Ema,
    Sma,
    Bollinger,
    Roc,
    Adx,
    Stochastics,
    Fibonacci,
    Vwap,
    Ichimoku,
}

/// The group under which an indicator is presented.
#[derive(Clone, Copy, Debug, PartialEq, Eq, Hash, Structural)]
pub enum IndicatorCategory {
    Trend,
    Oscillator,
    Volatility,
    SupportResist,
}

/// The name of an indicator that is not one of the nine.
#[derive(Debug)]
pub struct UnknownIndicator {
    pub name: String,
}

/// What `str::to_lowercase` returns for a string.
pub uninterp spec fn lowercase_of(s: Seq<char>) -> Seq<char>;

/// Relies on `str::to_lowercase`: Unicode lower-case mapping, which depends on
/// the characters alone.
#[verifier::external_body]
fn to_lowercase(s: &str) -> (r: String)
    ensures
        r@ == lowercase_of(s@),
{
    s.to_lowercase()
}

/// Whether two strings hold the same characters.
pub fn same_chars(a: &str, b: &str) -> (r: bool)
    ensures
        r == (a@ == b@),
{
    let n = a.unicode_len();
    if n != b.unicode_len() {
        return false;
    }
    let mut i: usize = 0;
    while i < n
        invariant
            n == a@.len() == b@.len(),
            i <= n,
            forall|j: int| 0 <= j < i ==> a@[j] == b@[j],
        decreases n - i,
    {
        if a.get_char(i) != b.get_char(i) {
            return false;
        }
        i = i + 1;
    }
    assert(a@ =~= b@);
    true
}

/// The indicator whose lower-case name is `s`.
pub open spec fn indicator_named(s: Seq<char>) -> Option<ExtensionIndicator> {
    if s == "ema"@ {
        Some(ExtensionIndicator::Ema)
    } else if s == "sma"@ {
        Some(ExtensionIndicator::Sma)
    } else if s == "bollinger"@ {
        Some(ExtensionIndicator::Bollinger)
    } else if s == "roc"@ {
        Some(ExtensionIndicator::Roc)
    } else if s == "adx"@ {
        Some(ExtensionIndicator::Adx)
    } else if s == "stochastics"@ {
        Some(ExtensionIndicator::Stochastics)
    } else if s == "fibonacci"@ {
        Some(ExtensionIndicator::Fibonacci)
    } else if s == "vwap"@ {
        Some(ExtensionIndicator::Vwap)
    } else if s == "ichimoku"@ {
        Some(ExtensionIndicator::Ichimoku)
    } else {
        None
    }
}

impl ExtensionIndicator {
    /// Looks up an indicator by its name already in lower case.
    pub fn from_lowercase_name(lowered: &str) -> (r: Option<ExtensionIndicator>)
        ensures
            r == indicator_named(lowered@),
    {
        if same_chars(lowered, "ema") {
            Some(ExtensionIndicator::Ema)
        } else if same_chars(lowered, "sma") {
            Some(ExtensionIndicator::Sma)
        } else if same_chars(lowered, "bollinger") {
            Some(ExtensionIndicator::Bollinger)
        } else if same_chars(lowered, "roc") {
            Some(ExtensionIndicator::Roc)
        } else if same_chars(lowered, "adx") {
            Some(ExtensionIndicator::Adx)
        } else if same_chars(lowered, "stochastics") {
            Some(ExtensionIndicator::Stochastics)
        } else if same_chars(lowered, "fibonacci") {
            Some(ExtensionIndicator::Fibonacci)
        } else if same_chars(lowered, "vwap") {
            Some(ExtensionIndicator::Vwap)
        } else if same_chars(lowered, "ichimoku") {
            Some(ExtensionIndicator::Ichimoku)
        } else {
            None
        }
    }

    /// Parses an indicator name, ignoring case.
    pub fn from_str(s: &str) -> (r: Result<ExtensionIndicator, UnknownIndicator>)
        ensures
            indicator_named(lowercase_of(s@)) matches Some(k) ==> r == Ok::<
                ExtensionIndicator,
                UnknownIndicator,
            >(k),
            indicator_named(lowercase_of(s@)) is None ==> r is Err && r->Err_0.name@ == s@,
    {
        let lowered = to_lowercase(s);
        match ExtensionIndicator::from_lowercase_name(lowered.as_str()) {
            Some(k) => Ok(k),
            None => Err(UnknownIndicator { name: s.to_string() }),
        }
    }

    pub open spec fn category_spec(self) -> IndicatorCategory {
        match self {
            ExtensionIndicator::Ema => IndicatorCategory::Trend,
            ExtensionIndicator::Sma => IndicatorCategory::Trend,
            ExtensionIndicator::Adx => IndicatorCategory::Trend,
            ExtensionIndicator::Roc => IndicatorCategory::Trend,
            ExtensionIndicator::Ichimoku => IndicatorCategory::Trend,
            ExtensionIndicator::Vwap => IndicatorCategory::Trend,
            ExtensionIndicator::Stochastics => IndicatorCategory::Oscillator,
            ExtensionIndicator::Bollinger => IndicatorCategory::Volatility,
            ExtensionIndicator::Fibonacci => IndicatorCategory::SupportResist,
        }
    }

    /// The category of the indicator: every indicator has exactly one.
    pub fn category(&self) -> (r: IndicatorCategory)
        ensures
            r == self.category_spec(),
    {
        match self {
            ExtensionIndicator::Ema => IndicatorCategory::Trend,
            ExtensionIndicator::Sma => IndicatorCategory::Trend,
            ExtensionIndicator::Adx => IndicatorCategory::Trend,
            ExtensionIndicator::Roc => IndicatorCategory::Trend,
            ExtensionIndicator::Ichimoku => IndicatorCategory::Trend,
            ExtensionIndicator::Vwap => IndicatorCategory::Trend,
            ExtensionIndicator::Stochastics => IndicatorCategory::Oscillator,
            ExtensionIndicator::Bollinger => IndicatorCategory::Volatility,
            ExtensionIndicator::Fibonacci => IndicatorCategory::SupportResist,
        }
    }

    pub open spec fn min_bars_spec(self) -> nat {
        match self {
            ExtensionIndicator::Ema => 20,
            ExtensionIndicator::Sma => 20,
            ExtensionIndicator::Adx => 15,
            ExtensionIndicator::Roc => 11,
            ExtensionIndicator::Stochastics => 14,
            ExtensionIndicator::Bollinger => 20,
            ExtensionIndicator::Fibonacci => 2,
            ExtensionIndicator::Vwap => 14,
            ExtensionIndicator::Ichimoku => 26,
        }
    }

    /// The number of bars the indicator needs.
    pub fn min_bars(&self) -> (r: usize)
        ensures
            r == self.min_bars_spec(),
    {
        match self {
            ExtensionIndicator::Ema => 20,
            ExtensionIndicator::Sma => 20,
            ExtensionIndicator::Adx => 15,
            ExtensionIndicator::Roc => 11,
            ExtensionIndicator::Stochastics => 14,
            ExtensionIndicator::Bollinger => 20,
            ExtensionIndicator::Fibonacci => 2,
            ExtensionIndicator::Vwap => 14,
            ExtensionIndicator::Ichimoku => 26,
        }
    }
}

/// The order in which categories are presented.
pub fn category_order() -> (r: Vec<IndicatorCategory>)
    ensures
        r@ == seq![
            IndicatorCategory::Trend,
            IndicatorCategory::Oscillator,
            IndicatorCategory::Volatility,
            IndicatorCategory::SupportResist,
        ],
{
    vec![
        IndicatorCategory::Trend,
        IndicatorCategory::Oscillator,
        IndicatorCategory::Volatility,
        IndicatorCategory::SupportResist,
    ]
}

/// The viewpoint from which the aggregate is presented.
#[derive(Clone, Copy, Debug, PartialEq, Eq, Structural)]
pub enum Stance {
    Buyer,
    Seller,
    Holder,
}

/// Reads a stance; anything but "buyer" or "seller" is the holder's view.
pub fn parse_stance(s: &str) -> (r: Stance)
    ensures
        s@ == "buyer"@ ==> r == Stance::Buyer,
        s@ == "seller"@ ==> r == Stance::Seller,
        s@ != "buyer"@ && s@ != "seller"@ ==> r == Stance::Holder,
{
    proof {
        reveal_strlit("buyer");
        reveal_strlit("seller");
        assert("buyer"@[0] != "seller"@[0]);
    }
    if same_chars(s, "buyer") {
        Stance::Buyer
    } else if same_chars(s, "seller") {
        Stance::Seller
    } else {
        Stance::Holder
    }
}

/// The caption of a stance.
pub fn stance_caption(s: Stance) -> (r: &'static str)
    ensures
        s == Stance::Buyer ==> r@ == "Buyer"@,
        s == Stance::Seller ==> r@ == "Seller"@,
        s == Stance::Holder ==> r@ == "Holder"@,
{
    match s {
        Stance::Buyer => "Buyer",
        Stance::Holder => "Holder",
        Stance::Seller => "Seller",
    }
}

} // verus!
