//! The decoder processor: a function of the caller's turns the response into a value.

use vstd::prelude::*;
use crate::error::{Error, ErrorView};
use crate::processor::{check_response, Processor};
use crate::response::Response;

verus! {

/// `decoder::Value`, the generic value that a decoder function takes.
#[verifier::external_type_specification]
#[verifier::external_body]
pub struct ExDecoderValue(decoder::Value);

/// What `serde_json::from_str` makes of a text when it is asked for a
/// `decoder::Value`: the value, or the message of the parser's error.
pub uninterp spec fn decoder_value(text: Seq<char>) -> Result<decoder::Value, Seq<char>>;

/// `serde_json::from_str` for a `decoder::Value`. The result depends on the text
/// alone; the parser's error is handed on by its message.
#[verifier::external_body]
fn read_value(text: &str) -> (r: Result<decoder::Value, String>)
    ensures
        match r {
            Ok(value) => decoder_value(text@) == Ok::<decoder::Value, Seq<char>>(value),
            Err(message) => decoder_value(text@) == Err::<decoder::Value, Seq<char>>(message@),
        },
{
    match serde_json::from_str::<decoder::Value>(text) {
        Ok(value) => Ok(value),
        Err(e) => Err(e.to_string()),
    }
}

/// Whether `result` is what decoding `value` with `decoder_fn` gives: the function's
/// value, or `TransformError` with the function's message.
pub open spec fn decoded_from<T, F: Fn(decoder::Value) -> Result<T, String>>(
    decoder_fn: F,
    value: decoder::Value,
    result: Result<T, Error>,
) -> bool {
    match result {
        Ok(decoded) => decoder_fn.ensures((value,), Ok(decoded)),
        Err(e) => exists|message: String|
            #[trigger] decoder_fn.ensures((value,), Err(message)) && e@
                == ErrorView::TransformError(message@),
    }
}

/// Whether `result` is what decoding a parsed body with `decoder_fn` gives:
/// `MalformedResponse` with the parser's message for a body that is no JSON, else
/// what decoding the value gives.
pub open spec fn decoded_from_parsed<T, F: Fn(decoder::Value) -> Result<T, String>>(
    decoder_fn: F,
    parsed: Result<decoder::Value, Seq<char>>,
    result: Result<T, Error>,
) -> bool {
    match parsed {
        Err(message) => result is Err && result->Err_0@ == ErrorView::MalformedResponse(message),
        Ok(value) => decoded_from(decoder_fn, value, result),
    }
}

/// A processor that decodes a response with a function of the caller's.
#[verifier::reject_recursive_types(T)]
#[verifier::reject_recursive_types(F)]
pub struct Decoder<T, F: Fn(decoder::Value) -> Result<T, String>> {
    decoder_fn: F,
    _output: core::marker::PhantomData<T>,
}

impl<T, F: Fn(decoder::Value) -> Result<T, String>> Decoder<T, F> {
    /// The function that decodes.
    pub closed spec fn decoder(&self) -> F {
        self.decoder_fn
    }

    #[verifier::type_invariant]
    spec fn accepts_every_value(&self) -> bool {
        forall|value: decoder::Value| #[trigger] self.decoder_fn.requires((value,))
    }

    /// A decoder that decodes with `decoder_fn`, a function that takes every value.
    pub fn new(decoder_fn: F) -> (r: Self)
        requires
            forall|value: decoder::Value| #[trigger] decoder_fn.requires((value,)),
        ensures
            r.decoder() == decoder_fn,
    {
        Decoder { decoder_fn, _output: core::marker::PhantomData }
    }

    /// Decodes a value.
    pub fn decode(&self, value: decoder::Value) -> (r: Result<T, Error>)
        ensures
            decoded_from(self.decoder(), value, r),
    {
        proof {
            use_type_invariant(self);
        }
        match (self.decoder_fn)(value) {
            Ok(decoded) => Ok(decoded),
            Err(message) => Err(Error::TransformError(message)),
        }
    }

    /// Decodes what parsing a body gave.
    pub fn decode_parsed(&self, parsed: Result<decoder::Value, String>) -> (r: Result<
        T,
        Error,
    >)
        ensures
            decoded_from_parsed(
                self.decoder(),
                match parsed {
                    Ok(value) => Ok(value),
                    Err(message) => Err(message@),
                },
                r,
            ),
    {
        match parsed {
            Err(message) => Err(Error::MalformedResponse(message)),
            Ok(value) => self.decode(value),
        }
    }
}

impl<T, F: Fn(decoder::Value) -> Result<T, String>> Processor for Decoder<T, F> {
    type Output = T;

    open spec fn processed(
        &self,
        body: Result<Seq<char>, ErrorView>,
        result: Result<T, Error>,
    ) -> bool {
        match body {
            Err(e) => result is Err && result->Err_0@ == e,
            Ok(text) => decoded_from_parsed(self.decoder(), decoder_value(text), result),
        }
    }

    /// Decodes the body of a response that succeeded. A failure of the transport and
    /// a status outside the 2xx range end the call before the body is read.
    fn process<R: Response>(&self, response: Result<R, Error>) -> (r: Result<T, Error>) {
        match check_response(response) {
            Err(e) => Err(e),
            Ok(body) => self.decode_parsed(read_value(body.as_str())),
        }
    }
}

} // verus!
