//! Time series endpoints whose result is the body of the response.

use vstd::prelude::*;
use crate::client::AlphaVantage;
use crate::processor::Raw;
use crate::request::common::Interval;
use crate::request::time_series::{
    TimeSeriesDaily, TimeSeriesIntraday, TimeSeriesMonthly, TimeSeriesWeekly,
};

verus! {

/// A request for an intraday time series of `symbol`.
pub fn intraday<'a, Client>(
    client: &'a AlphaVantage<Client>,
    symbol: &str,
    interval: Interval,
) -> (r: TimeSeriesIntraday<'a, Client, Raw>)
    ensures
        r.client == client,
        r.symbol@ == symbol@,
        r.interval == interval,
        r.outputsize is None,
        r.datatype is None,
{
    TimeSeriesIntraday::new(client, symbol, interval)
}

/// A request for a daily time series of `symbol`.
pub fn daily<'a, Client>(
    client: &'a AlphaVantage<Client>,
    symbol: &str,
) -> (r: TimeSeriesDaily<'a, Client, Raw>)
    ensures
        r.client == client,
        r.symbol@ == symbol@,
        r.outputsize is None,
        r.datatype is None,
{
    TimeSeriesDaily::new(client, symbol)
}

/// A request for a weekly time series of `symbol`.
pub fn weekly<'a, Client>(
    client: &'a AlphaVantage<Client>,
    symbol: &str,
) -> (r: TimeSeriesWeekly<'a, Client, Raw>)
    ensures
        r.client == client,
        r.symbol@ == symbol@,
{
    TimeSeriesWeekly::new(client, symbol)
}

/// A request for a monthly time series of `symbol`.
pub fn monthly<'a, Client>(
    client: &'a AlphaVantage<Client>,
    symbol: &str,
) -> (r: TimeSeriesMonthly<'a, Client, Raw>)
    ensures
        r.client == client,
        r.symbol@ == symbol@,
{
    TimeSeriesMonthly::new(client, symbol)
}

} // verus!
