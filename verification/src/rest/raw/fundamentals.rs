//! Fundamental data endpoints whose result is the body of the response.

use vstd::prelude::*;
use crate::client::AlphaVantage;
use crate::processor::Raw;
use crate::request::fundamentals::{
    BalanceSheet, CashFlow, CompanyOverview, Earnings,
    EarningsEstimates, IncomeStatement,
};

verus! {

/// A request for a company overview of `symbol`.
pub fn company_overview<'a, Client>(
    client: &'a AlphaVantage<Client>,
    symbol: &str,
) -> (r: CompanyOverview<'a, Client, Raw>)
    ensures
        r.client == client,
        r.symbol@ == symbol@,
{
    CompanyOverview::new(client, symbol)
}

/// A request for annual and quarterly earnings of `symbol`.
pub fn earnings<'a, Client>(
    client: &'a AlphaVantage<Client>,
    symbol: &str,
) -> (r: Earnings<'a, Client, Raw>)
    ensures
        r.client == client,
        r.symbol@ == symbol@,
{
    Earnings::new(client, symbol)
}

/// A request for earnings estimates of `symbol`.
pub fn earnings_estimates<'a, Client>(
    client: &'a AlphaVantage<Client>,
    symbol: &str,
) -> (r: EarningsEstimates<'a, Client, Raw>)
    ensures
        r.client == client,
        r.symbol@ == symbol@,
        r.horizon is None,
{
    EarningsEstimates::new(client, symbol)
}

/// A request for income statements of `symbol`.
pub fn income_statement<'a, Client>(
    client: &'a AlphaVantage<Client>,
    symbol: &str,
) -> (r: IncomeStatement<'a, Client, Raw>)
    ensures
        r.client == client,
        r.symbol@ == symbol@,
{
    IncomeStatement::new(client, symbol)
}

/// A request for balance sheets of `symbol`.
pub fn balance_sheet<'a, Client>(
    client: &'a AlphaVantage<Client>,
    symbol: &str,
) -> (r: BalanceSheet<'a, Client, Raw>)
    ensures
        r.client == client,
        r.symbol@ == symbol@,
{
    BalanceSheet::new(client, symbol)
}

/// A request for cash flow statements of `symbol`.
pub fn cash_flow<'a, Client>(
    client: &'a AlphaVantage<Client>,
    symbol: &str,
) -> (r: CashFlow<'a, Client, Raw>)
    ensures
        r.client == client,
        r.symbol@ == symbol@,
{
    CashFlow::new(client, symbol)
}

} // verus!
