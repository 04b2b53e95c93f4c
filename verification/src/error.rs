//! The failures a call can end in.

use vstd::prelude::*;
use vstd::string::StringExecFns;

verus! {

/// Why a call failed. Every failure ends the call it occurred in; none is retried.
#[derive(Debug, PartialEq)]
pub enum Error {
    /// A request was built on a client that holds no API key.
    MissingApiKey,
    /// The tool-call envelope lacks the named field.
    MissingField(String),
    /// The tool's parameters lack the named required parameter.
    MissingParam(String),
    /// The named parameter holds a value outside its accepted set.
    InvalidParam(String, String),
    /// The envelope names a tool that does not exist.
    UnknownTool(String),
    /// The transport failed (no status), or the server answered outside the 2xx range.
    UpstreamError { status: Option<u16>, body: String, request_id: Option<String> },
    /// The response body is not a JSON document.
    MalformedResponse(String),
    /// The response lacks something its endpoint always sends.
    TransformError(String),
}

/// The mathematical value of an [`Error`].
pub enum ErrorView {
    MissingApiKey,
    MissingField(Seq<char>),
    MissingParam(Seq<char>),
    InvalidParam(Seq<char>, Seq<char>),
    UnknownTool(Seq<char>),
    UpstreamError { status: Option<u16>, body: Seq<char>, request_id: Option<Seq<char>> },
    MalformedResponse(Seq<char>),
    TransformError(Seq<char>),
}

/// The characters of an optional string.
pub open spec fn option_text(value: Option<String>) -> Option<Seq<char>> {
    match value {
        Some(s) => Some(s@),
        None => None,
    }
}

impl View for Error {
    type V = ErrorView;

    open spec fn view(&self) -> ErrorView {
        match self {
            Error::MissingApiKey => ErrorView::MissingApiKey,
            Error::MissingField(field) => ErrorView::MissingField(field@),
            Error::MissingParam(name) => ErrorView::MissingParam(name@),
            Error::InvalidParam(name, value) => ErrorView::InvalidParam(name@, value@),
            Error::UnknownTool(tool) => ErrorView::UnknownTool(tool@),
            Error::UpstreamError { status, body, request_id } => ErrorView::UpstreamError {
                status: *status,
                body: body@,
                request_id: option_text(*request_id),
            },
            Error::MalformedResponse(detail) => ErrorView::MalformedResponse(detail@),
            Error::TransformError(detail) => ErrorView::TransformError(detail@),
        }
    }
}

impl ErrorView {
    /// The sentence that describes the failure.
    pub open spec fn message(self) -> Seq<char> {
        match self {
            ErrorView::MissingApiKey => "API key not set"@,
            ErrorView::MissingField(field) => "Missing '"@ + field + "' field"@,
            ErrorView::MissingParam(name) => "Missing '"@ + name + "' parameter"@,
            ErrorView::InvalidParam(name, value) => "Invalid "@ + name + ": "@ + value,
            ErrorView::UnknownTool(tool) => "Unknown tool: "@ + tool,
            ErrorView::UpstreamError { status, body, request_id } => "Upstream request failed: "@
                + body,
            ErrorView::MalformedResponse(detail) => "Failed to parse response: "@ + detail,
            ErrorView::TransformError(detail) => detail,
        }
    }
}

impl Error {
    /// The sentence that describes the failure.
    pub fn message(&self) -> (r: String)
        ensures
            r@ == self@.message(),
    {
        match self {
            Error::MissingApiKey => String::from_str("API key not set"),
            Error::MissingField(field) => {
                String::from_str("Missing '").concat(field.as_str()).concat("' field")
            },
            Error::MissingParam(name) => {
                String::from_str("Missing '").concat(name.as_str()).concat("' parameter")
            },
            Error::InvalidParam(name, value) => {
                String::from_str("Invalid ").concat(name.as_str()).concat(": ").concat(
                    value.as_str(),
                )
            },
            Error::UnknownTool(tool) => String::from_str("Unknown tool: ").concat(tool.as_str()),
            Error::UpstreamError { status, body, request_id } => {
                String::from_str("Upstream request failed: ").concat(body.as_str())
            },
            Error::MalformedResponse(detail) => {
                String::from_str("Failed to parse response: ").concat(detail.as_str())
            },
            Error::TransformError(detail) => detail.clone(),
        }
    }
}

} // verus!
