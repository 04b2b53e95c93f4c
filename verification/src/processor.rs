//! What becomes of a response: its body as it is, a value decoded from it, or the
//! array of records that a table is made of.

use vstd::prelude::*;
use crate::error::{Error, ErrorView};
use crate::json::{document_view, parsed_json, read_json, Json, JsonValue};
use crate::response::Response;

pub mod decoder;
pub mod table;

pub use decoder::Decoder;
pub use table::Table;

verus! {

/// Whether a status code says that the request succeeded.
pub open spec fn is_success(status: u16) -> bool {
    200 <= status < 300
}

/// The failure that a response outside the 2xx range is reported as.
pub open spec fn upstream_failure<R: Response>(response: R) -> ErrorView {
    ErrorView::UpstreamError {
        status: Some(response.status_code()),
        body: response.body_text(),
        request_id: response.request_id_text(),
    }
}

/// The value of a body or a failure.
pub open spec fn body_view(outcome: Result<String, Error>) -> Result<Seq<char>, ErrorView> {
    match outcome {
        Ok(body) => Ok(body@),
        Err(e) => Err(e@),
    }
}

/// The body that a transport's outcome carries: the transport's failure as it is,
/// an upstream failure for a status outside the 2xx range, else the body.
pub open spec fn accepted_body<R: Response>(response: Result<R, Error>) -> Result<
    Seq<char>,
    ErrorView,
> {
    match response {
        Err(e) => Err(e@),
        Ok(r) => if is_success(r.status_code()) {
            Ok(r.body_text())
        } else {
            Err(upstream_failure(r))
        },
    }
}

/// The body of a response that succeeded.
pub fn check_response<R: Response>(response: Result<R, Error>) -> (r: Result<String, Error>)
    ensures
        body_view(r) == accepted_body(response),
{
    match response {
        Err(e) => Err(e),
        Ok(answer) => {
            let status = answer.status();
            if 200 <= status && status < 300 {
                Ok(answer.body().to_owned())
            } else {
                let request_id = match answer.request_id() {
                    Some(id) => Some(id.clone()),
                    None => None,
                };
                Err(
                    Error::UpstreamError {
                        status: Some(status),
                        body: answer.body().to_owned(),
                        request_id,
                    },
                )
            }
        },
    }
}

/// The document of an accepted body.
pub open spec fn document_of(body: Result<Seq<char>, ErrorView>) -> Result<JsonValue, ErrorView> {
    match body {
        Err(e) => Err(e),
        Ok(text) => read_json(parsed_json(text)),
    }
}

/// The document that a transport's outcome carries.
pub open spec fn accepted_document<R: Response>(response: Result<R, Error>) -> Result<
    JsonValue,
    ErrorView,
> {
    document_of(accepted_body(response))
}

/// The JSON document of a response that succeeded.
pub fn read_response<R: Response>(response: Result<R, Error>) -> (r: Result<Json, Error>)
    ensures
        document_view(r) == accepted_document(response),
{
    match check_response(response) {
        Err(e) => Err(e),
        Ok(body) => Json::parse(body.as_str()),
    }
}

/// A way to turn a transport's outcome into a result.
pub trait Processor {
    /// What the processor makes of a response.
    type Output;

    /// Whether `result` is what the processor makes of a response whose accepted
    /// body is `body`.
    spec fn processed(
        &self,
        body: Result<Seq<char>, ErrorView>,
        result: Result<Self::Output, Error>,
    ) -> bool;

    /// Turns the outcome of a request into the processor's result.
    fn process<R: Response>(&self, response: Result<R, Error>) -> (r: Result<Self::Output, Error>)
        ensures
            self.processed(accepted_body(response), r),
    ;
}

/// The processor that returns the body as it is.
#[derive(Debug, Clone, Copy)]
pub struct Raw;

impl Processor for Raw {
    type Output = String;

    open spec fn processed(
        &self,
        body: Result<Seq<char>, ErrorView>,
        result: Result<String, Error>,
    ) -> bool {
        body_view(result) == body
    }

    fn process<R: Response>(&self, response: Result<R, Error>) -> (r: Result<String, Error>) {
        check_response(response)
    }
}

} // verus!
