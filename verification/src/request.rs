//! Requests: what every endpoint's request is made of, and the response that a
//! transport hands back.

use vstd::prelude::*;
use crate::error::option_text;
use crate::response::Response;

pub mod common;
pub mod fundamentals;
pub mod query;
pub mod time_series;

verus! {

/// An HTTP response held in memory.
#[derive(Debug, Clone, PartialEq)]
pub struct HttpResponse {
    status: u16,
    body: String,
    request_id: Option<String>,
}

impl HttpResponse {
    /// A response of the given status, body and request id.
    pub fn new(status: u16, body: String, request_id: Option<String>) -> (r: Self)
        ensures
            r.status_code() == status,
            r.body_text() == body@,
            r.request_id_text() == option_text(request_id),
    {
        HttpResponse { status, body, request_id }
    }
}

impl Response for HttpResponse {
    closed spec fn status_code(&self) -> u16 {
        self.status
    }

    closed spec fn body_text(&self) -> Seq<char> {
        self.body@
    }

    closed spec fn request_id_text(&self) -> Option<Seq<char>> {
        option_text(self.request_id)
    }

    fn status(&self) -> (r: u16) {
        self.status
    }

    fn body(&self) -> (r: &str) {
        self.body.as_str()
    }

    fn request_id(&self) -> (r: &Option<String>) {
        &self.request_id
    }
}

} // verus!
