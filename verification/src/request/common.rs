//! Types that several endpoints share.

use vstd::prelude::*;
use vstd::std_specs::convert::FromSpecImpl;
use crate::error::{Error, ErrorView};
use crate::text::str_eq;

verus! {

/// What a string becomes when `str::to_lowercase` is applied to it.
pub uninterp spec fn lowercase(text: Seq<char>) -> Seq<char>;

/// `str::to_lowercase`: the lowercase equivalent of a string, as a new string. The
/// result depends on the characters of the argument alone.
#[verifier::external_body]
fn to_lowercase(text: &str) -> (r: String)
    ensures
        r@ == lowercase(text@),
{
    text.to_lowercase()
}

/// Sort order.
#[derive(Debug, Clone, Copy, PartialEq, Eq, Structural)]
pub enum SortOrder {
    /// Ascending.
    Asc,
    /// Descending.
    Desc,
}

impl SortOrder {
    /// The order a token names: `desc` is descending, anything else ascending.
    pub open spec fn of_token(token: Seq<char>) -> SortOrder {
        if token == "desc"@ {
            SortOrder::Desc
        } else {
            SortOrder::Asc
        }
    }
}

impl<'a> From<&'a str> for SortOrder {
    fn from(value: &'a str) -> (r: SortOrder) {
        if str_eq(value, "desc") {
            SortOrder::Desc
        } else {
            SortOrder::Asc
        }
    }
}

impl<'a> FromSpecImpl<&'a str> for SortOrder {
    open spec fn obeys_from_spec() -> bool {
        true
    }

    open spec fn from_spec(value: &'a str) -> SortOrder {
        SortOrder::of_token(value@)
    }
}

impl From<String> for SortOrder {
    fn from(value: String) -> (r: SortOrder) {
        if str_eq(value.as_str(), "desc") {
            SortOrder::Desc
        } else {
            SortOrder::Asc
        }
    }
}

impl FromSpecImpl<String> for SortOrder {
    open spec fn obeys_from_spec() -> bool {
        true
    }

    open spec fn from_spec(value: String) -> SortOrder {
        SortOrder::of_token(value@)
    }
}

/// How much of a time series to return.
#[derive(Debug, Clone, Copy, PartialEq, Eq, Structural)]
pub enum OutputSize {
    /// The latest 100 data points.
    Compact,
    /// The full history.
    Full,
}

impl OutputSize {
    /// The size that a token names exactly.
    pub open spec fn of_token(token: Seq<char>) -> Option<OutputSize> {
        if token == "compact"@ {
            Some(OutputSize::Compact)
        } else if token == "full"@ {
            Some(OutputSize::Full)
        } else {
            None
        }
    }

    /// The token that names the size.
    pub open spec fn token(self) -> Seq<char> {
        match self {
            OutputSize::Compact => "compact"@,
            OutputSize::Full => "full"@,
        }
    }

    /// The size that `token` names exactly.
    pub fn from_token(token: &str) -> (r: Option<OutputSize>)
        ensures
            r == OutputSize::of_token(token@),
    {
        if str_eq(token, "compact") {
            Some(OutputSize::Compact)
        } else if str_eq(token, "full") {
            Some(OutputSize::Full)
        } else {
            None
        }
    }

    /// The token that names the size.
    pub fn as_str(&self) -> (r: &'static str)
        ensures
            r@ == self.token(),
    {
        match self {
            OutputSize::Compact => "compact",
            OutputSize::Full => "full",
        }
    }

    /// The size that `lowered` names, where `lowered` is `text` in lowercase; the
    /// failure names `text` as it was written.
    pub fn from_lowered(lowered: &str, text: &str) -> (r: Result<OutputSize, Error>)
        ensures
            match OutputSize::of_token(lowered@) {
                Some(size) => r == Ok::<OutputSize, Error>(size),
                None => r is Err && r->Err_0@ == ErrorView::InvalidParam("outputsize"@, text@),
            },
    {
        match OutputSize::from_token(lowered) {
            Some(size) => Ok(size),
            None => Err(Error::InvalidParam("outputsize".to_owned(), text.to_owned())),
        }
    }

    /// The size that `text` names, in any mix of upper and lower case.
    pub fn parse(text: &str) -> (r: Result<OutputSize, Error>)
        ensures
            match OutputSize::of_token(lowercase(text@)) {
                Some(size) => r == Ok::<OutputSize, Error>(size),
                None => r is Err && r->Err_0@ == ErrorView::InvalidParam("outputsize"@, text@),
            },
    {
        let lowered = to_lowercase(text);
        OutputSize::from_lowered(lowered.as_str(), text)
    }
}

impl std::str::FromStr for OutputSize {
    type Err = Error;

    /// The size that `s` names, in any mix of upper and lower case.
    fn from_str(s: &str) -> (r: Result<OutputSize, Error>)
        ensures
            match OutputSize::of_token(lowercase(s@)) {
                Some(size) => r == Ok::<OutputSize, Error>(size),
                None => r is Err && r->Err_0@ == ErrorView::InvalidParam("outputsize"@, s@),
            },
    {
        OutputSize::parse(s)
    }
}

/// The distance between two points of an intraday time series.
#[derive(Debug, Clone, Copy, PartialEq, Eq, Structural)]
pub enum Interval {
    /// 1 minute.
    OneMin,
    /// 5 minutes.
    FiveMin,
    /// 15 minutes.
    FifteenMin,
    /// 30 minutes.
    ThirtyMin,
    /// 60 minutes.
    SixtyMin,
}

impl Interval {
    /// The interval that a token names exactly.
    pub open spec fn of_token(token: Seq<char>) -> Option<Interval> {
        if token == "1min"@ {
            Some(Interval::OneMin)
        } else if token == "5min"@ {
            Some(Interval::FiveMin)
        } else if token == "15min"@ {
            Some(Interval::FifteenMin)
        } else if token == "30min"@ {
            Some(Interval::ThirtyMin)
        } else if token == "60min"@ {
            Some(Interval::SixtyMin)
        } else {
            None
        }
    }

    /// The token that names the interval.
    pub open spec fn token(self) -> Seq<char> {
        match self {
            Interval::OneMin => "1min"@,
            Interval::FiveMin => "5min"@,
            Interval::FifteenMin => "15min"@,
            Interval::ThirtyMin => "30min"@,
            Interval::SixtyMin => "60min"@,
        }
    }

    /// The interval that `token` names exactly.
    pub fn from_token(token: &str) -> (r: Option<Interval>)
        ensures
            r == Interval::of_token(token@),
    {
        if str_eq(token, "1min") {
            Some(Interval::OneMin)
        } else if str_eq(token, "5min") {
            Some(Interval::FiveMin)
        } else if str_eq(token, "15min") {
            Some(Interval::FifteenMin)
        } else if str_eq(token, "30min") {
            Some(Interval::ThirtyMin)
        } else if str_eq(token, "60min") {
            Some(Interval::SixtyMin)
        } else {
            None
        }
    }

    /// The token that names the interval.
    pub fn as_str(&self) -> (r: &'static str)
        ensures
            r@ == self.token(),
    {
        match self {
            Interval::OneMin => "1min",
            Interval::FiveMin => "5min",
            Interval::FifteenMin => "15min",
            Interval::ThirtyMin => "30min",
            Interval::SixtyMin => "60min",
        }
    }

    /// The token that names the interval, as an owned string.
    pub fn to_string(&self) -> (r: String)
        ensures
            r@ == self.token(),
    {
        self.as_str().to_owned()
    }

    /// The interval that `lowered` names, where `lowered` is `text` in lowercase; the
    /// failure names `text` as it was written.
    pub fn from_lowered(lowered: &str, text: &str) -> (r: Result<Interval, Error>)
        ensures
            match Interval::of_token(lowered@) {
                Some(interval) => r == Ok::<Interval, Error>(interval),
                None => r is Err && r->Err_0@ == ErrorView::InvalidParam("interval"@, text@),
            },
    {
        match Interval::from_token(lowered) {
            Some(interval) => Ok(interval),
            None => Err(Error::InvalidParam("interval".to_owned(), text.to_owned())),
        }
    }

    /// The interval that `text` names, in any mix of upper and lower case.
    pub fn parse(text: &str) -> (r: Result<Interval, Error>)
        ensures
            match Interval::of_token(lowercase(text@)) {
                Some(interval) => r == Ok::<Interval, Error>(interval),
                None => r is Err && r->Err_0@ == ErrorView::InvalidParam("interval"@, text@),
            },
    {
        let lowered = to_lowercase(text);
        Interval::from_lowered(lowered.as_str(), text)
    }
}

impl std::str::FromStr for Interval {
    type Err = Error;

    /// The interval that `s` names, in any mix of upper and lower case.
    fn from_str(s: &str) -> (r: Result<Interval, Error>)
        ensures
            match Interval::of_token(lowercase(s@)) {
                Some(interval) => r == Ok::<Interval, Error>(interval),
                None => r is Err && r->Err_0@ == ErrorView::InvalidParam("interval"@, s@),
            },
    {
        Interval::parse(s)
    }
}

/// Naming an interval by its token and reading the token back gives the interval.
pub proof fn law_interval_token_round_trip(interval: Interval)
    ensures
        Interval::of_token(interval.token()) == Some(interval),
{
    reveal_strlit("1min");
    reveal_strlit("5min");
    reveal_strlit("15min");
    reveal_strlit("30min");
    reveal_strlit("60min");
    assert("1min"@.len() == 4 && "15min"@.len() == 5);
    assert("1min"@[0] == '1' && "5min"@[0] == '5');
    assert("15min"@[0] == '1' && "30min"@[0] == '3' && "60min"@[0] == '6');
}

} // verus!
