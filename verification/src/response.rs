//! What the library reads of an HTTP response.

use vstd::prelude::*;
use crate::error::option_text;

verus! {

/// An HTTP response, as a transport hands it over.
pub trait Response {
    /// The status code that the response carries.
    spec fn status_code(&self) -> u16;

    /// The characters of the body.
    spec fn body_text(&self) -> Seq<char>;

    /// The characters of the request's id, where the server sent one.
    spec fn request_id_text(&self) -> Option<Seq<char>>;

    /// The HTTP status code.
    fn status(&self) -> (r: u16)
        ensures
            r == self.status_code(),
    ;

    /// The response body.
    fn body(&self) -> (r: &str)
        ensures
            r@ == self.body_text(),
    ;

    /// The id of the request that this response answers.
    fn request_id(&self) -> (r: &Option<String>)
        ensures
            option_text(*r) == self.request_id_text(),
    ;
}

} // verus!
