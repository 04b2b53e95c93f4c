//! The request for earnings estimates.

use vstd::prelude::*;
use crate::client::AlphaVantage;
use crate::error::{option_text, Error, ErrorView};
use crate::processor::{accepted_body, Processor, Raw, Table};
use crate::request::query::{build_url, request_url, url_view, Query, QueryView};
use crate::response::Response;

verus! {

/// The request for earnings estimates, as it is built up before it is sent.
pub struct EarningsEstimates<'a, Client, P: Processor = Raw> {
    /// The client that the request was made for.
    pub client: &'a AlphaVantage<Client>,
    /// Stock symbol.
    pub symbol: String,
    /// Horizon (e.g., 3month, 12month).
    pub horizon: Option<String>,
    /// The processor that the response goes to.
    pub processor: P,
}

impl<'a, C> EarningsEstimates<'a, C, Raw> {
    /// A request for `symbol`, whose result is the body of the response.
    pub fn new(client: &'a AlphaVantage<C>, symbol: &str) -> (r: Self)
        ensures
            r.client == client,
            r.symbol@ == symbol@,
            r.horizon is None,
    {
        EarningsEstimates {
            client,
            symbol: symbol.to_owned(),
            horizon: None,
            processor: Raw,
        }
    }
}

impl<'a, C, P: Processor> EarningsEstimates<'a, C, P> {
    /// The API key of the client that the request was made for.
    pub open spec fn api_key(&self) -> Option<Seq<char>> {
        self.client.key()
    }

    /// What the request carries besides the symbol and the key.
    pub open spec fn extra(&self) -> QueryView {
        QueryView {
            interval: None,
            outputsize: None,
            datatype: None,
            horizon: option_text(self.horizon),
        }
    }

    /// The address that the request goes to; there is none while the client has no
    /// API key.
    pub open spec fn address(&self) -> Result<Seq<char>, ErrorView> {
        request_url("EARNINGS_ESTIMATES"@, self.symbol@, self.api_key(), self.extra())
    }

    /// The same request with the horizon `horizon`.
    pub fn horizon(self, horizon: &str) -> (r: Self)
        ensures
            r.client == self.client,
            r.processor == self.processor,
            r.symbol == self.symbol,
            option_text(r.horizon) == Some(horizon@),
    {
        EarningsEstimates {
            client: self.client,
            symbol: self.symbol,
            horizon: Some(horizon.to_owned()),
            processor: self.processor,
        }
    }

    /// The same request, whose result is the records of the response.
    pub fn as_dataframe(self) -> (r: EarningsEstimates<'a, C, Table>)
        ensures
            r.client == self.client,
            r.symbol == self.symbol,
            r.horizon == self.horizon,
    {
        EarningsEstimates {
            client: self.client,
            symbol: self.symbol,
            horizon: self.horizon,
            processor: Table,
        }
    }

    /// The address that the request goes to.
    pub fn url(&self) -> (r: Result<String, Error>)
        ensures
            url_view(r) == self.address(),
    {
        let extra = Query {
            interval: None,
            outputsize: None,
            datatype: None,
            horizon: match &self.horizon {
                Some(horizon) => Some(horizon.as_str()),
                None => None,
            },
        };
        build_url("EARNINGS_ESTIMATES", self.symbol.as_str(), self.client.api_key(), &extra)
    }

    /// What the request's processor makes of the outcome of sending it.
    pub fn complete<R: Response>(self, response: Result<R, Error>) -> (r: Result<P::Output, Error>)
        ensures
            self.processor.processed(accepted_body(response), r),
    {
        self.processor.process(response)
    }
}

/// The parameters of the request, without the client.
#[derive(Debug, Clone, PartialEq)]
pub struct Params {
    /// Stock symbol.
    pub symbol: String,
    /// Horizon (e.g., 3month, 12month).
    pub horizon: Option<String>,
}

} // verus!
