//! The address of a request: the endpoint's function, then the parameters.

use vstd::prelude::*;
use vstd::string::StringExecFns;
use crate::error::{Error, ErrorView};

verus! {

/// A parameter `&name=value`, where there is a value.
pub open spec fn optional_parameter(name: Seq<char>, value: Option<Seq<char>>) -> Seq<char> {
    match value {
        Some(v) => "&"@ + name + "="@ + v,
        None => Seq::empty(),
    }
}

/// What a request may carry besides the endpoint's function, the symbol and the key.
pub struct QueryView {
    pub interval: Option<Seq<char>>,
    pub outputsize: Option<Seq<char>>,
    pub datatype: Option<Seq<char>>,
    pub horizon: Option<Seq<char>>,
}

/// The address of a request: the function, the symbol, the interval where there is
/// one, the API key, and then whichever of output size, data type and horizon is set.
pub open spec fn query_url(
    function: Seq<char>,
    symbol: Seq<char>,
    api_key: Seq<char>,
    extra: QueryView,
) -> Seq<char> {
    "https://www.alphavantage.co/query?function="@ + function + "&symbol="@ + symbol
        + optional_parameter("interval"@, extra.interval) + "&apikey="@ + api_key
        + optional_parameter("outputsize"@, extra.outputsize) + optional_parameter(
        "datatype"@,
        extra.datatype,
    ) + optional_parameter("horizon"@, extra.horizon)
}

/// The address of a request of a client whose key is `api_key`; without a key there
/// is no address.
pub open spec fn request_url(
    function: Seq<char>,
    symbol: Seq<char>,
    api_key: Option<Seq<char>>,
    extra: QueryView,
) -> Result<Seq<char>, ErrorView> {
    match api_key {
        Some(key) => Ok(query_url(function, symbol, key, extra)),
        None => Err(ErrorView::MissingApiKey),
    }
}

/// The value of an address or a failure.
pub open spec fn url_view(outcome: Result<String, Error>) -> Result<Seq<char>, ErrorView> {
    match outcome {
        Ok(url) => Ok(url@),
        Err(e) => Err(e@),
    }
}

/// The characters of an optional string slice.
pub open spec fn option_str_view(value: Option<&str>) -> Option<Seq<char>> {
    match value {
        Some(s) => Some(s@),
        None => None,
    }
}

/// What a request may carry besides the endpoint's function, the symbol and the key.
pub struct Query<'a> {
    pub interval: Option<&'a str>,
    pub outputsize: Option<&'a str>,
    pub datatype: Option<&'a str>,
    pub horizon: Option<&'a str>,
}

impl<'a> View for Query<'a> {
    type V = QueryView;

    open spec fn view(&self) -> QueryView {
        QueryView {
            interval: option_str_view(self.interval),
            outputsize: option_str_view(self.outputsize),
            datatype: option_str_view(self.datatype),
            horizon: option_str_view(self.horizon),
        }
    }
}

fn push_parameter(url: String, name: &str, value: Option<&str>) -> (r: String)
    ensures
        r@ == url@ + optional_parameter(name@, option_str_view(value)),
{
    match value {
        Some(v) => {
            let r = url.concat("&").concat(name).concat("=").concat(v);
            assert(r@ =~= url@ + ("&"@ + name@ + "="@ + v@));
            r
        },
        None => {
            assert(url@ =~= url@ + Seq::<char>::empty());
            url
        },
    }
}

/// Builds the address of a request.
pub fn build_url(function: &str, symbol: &str, api_key: Option<&str>, extra: &Query) -> (r: Result<
    String,
    Error,
>)
    ensures
        url_view(r) == request_url(function@, symbol@, option_str_view(api_key), extra@),
{
    match api_key {
        None => Err(Error::MissingApiKey),
        Some(key) => {
            let url = String::from_str("https://www.alphavantage.co/query?function=").concat(
                function,
            ).concat("&symbol=").concat(symbol);
            let url = push_parameter(url, "interval", extra.interval);
            let url = url.concat("&apikey=").concat(key);
            let url = push_parameter(url, "outputsize", extra.outputsize);
            let url = push_parameter(url, "datatype", extra.datatype);
            let url = push_parameter(url, "horizon", extra.horizon);
            Ok(url)
        },
    }
}

} // verus!
