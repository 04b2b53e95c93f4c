//! The request for annual and quarterly earnings.

use vstd::prelude::*;
use crate::client::AlphaVantage;
use crate::error::{Error, ErrorView};
use crate::processor::{accepted_body, Processor, Raw};
use crate::request::query::{build_url, request_url, url_view, Query, QueryView};
use crate::response::Response;

verus! {

/// The request for annual and quarterly earnings, as it is built up before it is sent.
pub struct Earnings<'a, Client, P: Processor = Raw> {
    /// The client that the request was made for.
    pub client: &'a AlphaVantage<Client>,
    /// Stock symbol.
    pub symbol: String,
    /// The processor that the response goes to.
    pub processor: P,
}

impl<'a, C> Earnings<'a, C, Raw> {
    /// A request for `symbol`, whose result is the body of the response.
    pub fn new(client: &'a AlphaVantage<C>, symbol: &str) -> (r: Self)
        ensures
            r.client == client,
            r.symbol@ == symbol@,
    {
        Earnings {
            client,
            symbol: symbol.to_owned(),
            processor: Raw,
        }
    }
}

impl<'a, C, P: Processor> Earnings<'a, C, P> {
    /// The API key of the client that the request was made for.
    pub open spec fn api_key(&self) -> Option<Seq<char>> {
        self.client.key()
    }

    /// What the request carries besides the symbol and the key.
    pub open spec fn extra(&self) -> QueryView {
        QueryView {
            interval: None,
            outputsize: None,
            datatype: None,
            horizon: None,
        }
    }

    /// The address that the request goes to; there is none while the client has no
    /// API key.
    pub open spec fn address(&self) -> Result<Seq<char>, ErrorView> {
        request_url("EARNINGS"@, self.symbol@, self.api_key(), self.extra())
    }

    /// The address that the request goes to.
    pub fn url(&self) -> (r: Result<String, Error>)
        ensures
            url_view(r) == self.address(),
    {
        let extra = Query {
            interval: None,
            outputsize: None,
            datatype: None,
            horizon: None,
        };
        build_url("EARNINGS", self.symbol.as_str(), self.client.api_key(), &extra)
    }

    /// What the request's processor makes of the outcome of sending it.
    pub fn complete<R: Response>(self, response: Result<R, Error>) -> (r: Result<P::Output, Error>)
        ensures
            self.processor.processed(accepted_body(response), r),
    {
        self.processor.process(response)
    }
}

/// The parameters of the request, without the client.
#[derive(Debug, Clone, PartialEq)]
pub struct Params {
    /// Stock symbol.
    pub symbol: String,
}

} // verus!
