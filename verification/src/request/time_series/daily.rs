//! The request for a daily time series.

use vstd::prelude::*;
use crate::client::AlphaVantage;
use crate::error::{option_text, Error, ErrorView};
use crate::processor::{accepted_body, Processor, Raw};
use crate::request::common::{OutputSize};
use crate::request::query::{build_url, request_url, url_view, Query, QueryView};
use crate::response::Response;

verus! {

/// The request for a daily time series, as it is built up before it is sent.
pub struct TimeSeriesDaily<'a, Client, P: Processor = Raw> {
    /// The client that the request was made for.
    pub client: &'a AlphaVantage<Client>,
    /// Stock symbol.
    pub symbol: String,
    /// Output size (compact or full).
    pub outputsize: Option<OutputSize>,
    /// Data type (json or csv).
    pub datatype: Option<String>,
    /// The processor that the response goes to.
    pub processor: P,
}

impl<'a, C> TimeSeriesDaily<'a, C, Raw> {
    /// A request for `symbol`, whose result is the body of the response.
    pub fn new(client: &'a AlphaVantage<C>, symbol: &str) -> (r: Self)
        ensures
            r.client == client,
            r.symbol@ == symbol@,
            r.outputsize is None,
            r.datatype is None,
    {
        TimeSeriesDaily {
            client,
            symbol: symbol.to_owned(),
            outputsize: None,
            datatype: None,
            processor: Raw,
        }
    }
}

impl<'a, C, P: Processor> TimeSeriesDaily<'a, C, P> {
    /// The API key of the client that the request was made for.
    pub open spec fn api_key(&self) -> Option<Seq<char>> {
        self.client.key()
    }

    /// What the request carries besides the symbol and the key.
    pub open spec fn extra(&self) -> QueryView {
        QueryView {
            interval: None,
            outputsize: match self.outputsize {
                Some(size) => Some(size.token()),
                None => None,
            },
            datatype: option_text(self.datatype),
            horizon: None,
        }
    }

    /// The address that the request goes to; there is none while the client has no
    /// API key.
    pub open spec fn address(&self) -> Result<Seq<char>, ErrorView> {
        request_url("TIME_SERIES_DAILY"@, self.symbol@, self.api_key(), self.extra())
    }

    /// The same request with the output size `size`.
    pub fn outputsize(self, size: OutputSize) -> (r: Self)
        ensures
            r.client == self.client,
            r.processor == self.processor,
            r.symbol == self.symbol,
            r.datatype == self.datatype,
            r.outputsize == Some(size),
    {
        TimeSeriesDaily {
            client: self.client,
            symbol: self.symbol,
            outputsize: Some(size),
            datatype: self.datatype,
            processor: self.processor,
        }
    }

    /// The same request with the data type `datatype`.
    pub fn datatype(self, datatype: &str) -> (r: Self)
        ensures
            r.client == self.client,
            r.processor == self.processor,
            r.symbol == self.symbol,
            r.outputsize == self.outputsize,
            option_text(r.datatype) == Some(datatype@),
    {
        TimeSeriesDaily {
            client: self.client,
            symbol: self.symbol,
            outputsize: self.outputsize,
            datatype: Some(datatype.to_owned()),
            processor: self.processor,
        }
    }

    /// The address that the request goes to.
    pub fn url(&self) -> (r: Result<String, Error>)
        ensures
            url_view(r) == self.address(),
    {
        let extra = Query {
            interval: None,
            outputsize: match &self.outputsize {
                Some(size) => Some(size.as_str()),
                None => None,
            },
            datatype: match &self.datatype {
                Some(datatype) => Some(datatype.as_str()),
                None => None,
            },
            horizon: None,
        };
        build_url("TIME_SERIES_DAILY", self.symbol.as_str(), self.client.api_key(), &extra)
    }

    /// What the request's processor makes of the outcome of sending it.
    pub fn complete<R: Response>(self, response: Result<R, Error>) -> (r: Result<P::Output, Error>)
        ensures
            self.processor.processed(accepted_body(response), r),
    {
        self.processor.process(response)
    }
}

/// The parameters of the request, without the client.
#[derive(Debug, Clone, PartialEq)]
pub struct Params {
    /// Stock symbol.
    pub symbol: String,
    /// Output size (compact or full).
    pub outputsize: Option<OutputSize>,
    /// Data type (json or csv).
    pub datatype: Option<String>,
}

} // verus!
