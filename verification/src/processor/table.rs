//! The table processor: which part of a response holds the records of a table.

use vstd::prelude::*;
use vstd::string::StringExecFns;
use crate::error::{Error, ErrorView};
use crate::json::{document_view, Json, JsonValue};
use crate::processor::{document_of, read_response, Processor};
use crate::response::Response;

verus! {

/// The processor that picks the array of records out of a response.
#[derive(Debug, Clone, Copy)]
pub struct Table;

/// The value that holds the records: what the document holds under the first of
/// `estimates`, `results`, `annualReports`, `quarterlyReports` and `data` that it
/// has, and the document itself where it has none of them.
pub open spec fn record_source(document: JsonValue) -> JsonValue {
    if document.get("estimates"@) is Some {
        document.get("estimates"@)->Some_0
    } else if document.get("results"@) is Some {
        document.get("results"@)->Some_0
    } else if document.get("annualReports"@) is Some {
        document.get("annualReports"@)->Some_0
    } else if document.get("quarterlyReports"@) is Some {
        document.get("quarterlyReports"@)->Some_0
    } else if document.get("data"@) is Some {
        document.get("data"@)->Some_0
    } else {
        document
    }
}

/// How a value that is no array is named in a failure.
pub open spec fn kind_name(value: JsonValue) -> Seq<char> {
    match value {
        JsonValue::Object(_) => "object"@,
        JsonValue::Null => "null"@,
        _ => "other"@,
    }
}

/// The records of a document: its record source where that is an array, and a
/// failure that names the kind of value found where it is none.
pub open spec fn records_of(document: JsonValue) -> Result<JsonValue, ErrorView> {
    match record_source(document) {
        JsonValue::Array(items) => Ok(JsonValue::Array(items)),
        other => Err(
            ErrorView::TransformError(
                "Expected array data for DataFrame conversion, got: "@ + kind_name(other),
            ),
        ),
    }
}

/// The records of an accepted body.
pub open spec fn records_in(body: Result<Seq<char>, ErrorView>) -> Result<JsonValue, ErrorView> {
    match document_of(body) {
        Err(e) => Err(e),
        Ok(document) => records_of(document),
    }
}

fn find_record_source(document: &Json) -> (r: &Json)
    ensures
        r@ == record_source(document@),
{
    if let Some(v) = document.get("estimates") {
        v
    } else if let Some(v) = document.get("results") {
        v
    } else if let Some(v) = document.get("annualReports") {
        v
    } else if let Some(v) = document.get("quarterlyReports") {
        v
    } else if let Some(v) = document.get("data") {
        v
    } else {
        document
    }
}

/// The array of records that a document holds.
pub fn select_records(document: &Json) -> (r: Result<Json, Error>)
    ensures
        document_view(r) == records_of(document@),
{
    let source = find_record_source(document);
    match source {
        Json::Array(_) => Ok(source.clone()),
        Json::Object(_) => Err(
            Error::TransformError(
                String::from_str("Expected array data for DataFrame conversion, got: ").concat(
                    "object",
                ),
            ),
        ),
        Json::Null => Err(
            Error::TransformError(
                String::from_str("Expected array data for DataFrame conversion, got: ").concat(
                    "null",
                ),
            ),
        ),
        _ => Err(
            Error::TransformError(
                String::from_str("Expected array data for DataFrame conversion, got: ").concat(
                    "other",
                ),
            ),
        ),
    }
}

impl Processor for Table {
    type Output = Json;

    open spec fn processed(
        &self,
        body: Result<Seq<char>, ErrorView>,
        result: Result<Json, Error>,
    ) -> bool {
        document_view(result) == records_in(body)
    }

    fn process<R: Response>(&self, response: Result<R, Error>) -> (r: Result<Json, Error>) {
        match read_response(response) {
            Err(e) => Err(e),
            Ok(document) => select_records(&document),
        }
    }
}

} // verus!
