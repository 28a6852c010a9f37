//! The remote API's answer: an opaque, arbitrary JSON document. Decoding
//! checks only that the body is valid JSON and hands it back unmodified —
//! any success or failure semantics inside the document are passed through,
//! never interpreted.

use vstd::prelude::*;

use crate::error::Error;
use crate::json::{is_json_text, json_parse_check};

verus! {

/// A response body that decoding has accepted as valid JSON, kept exactly
/// as it arrived.
#[derive(Clone, PartialEq, Eq, Debug)]
pub struct Response {
    body: String,
}

impl View for Response {
    type V = Seq<char>;

    closed spec fn view(&self) -> Seq<char> {
        self.body@
    }
}

impl Response {
    /// The document's text, unmodified.
    pub fn body_text(&self) -> (r: &str)
        ensures
            r@ == self@,
    {
        self.body.as_str()
    }
}

/// Decodes a response body: fails exactly when the body is not valid JSON,
/// and otherwise returns the document unchanged.
pub fn decode_response(body: String) -> (r: Result<Response, Error>)
    ensures
        is_json_text(body@) ==> (r matches Ok(resp) && resp@ == body@),
        !is_json_text(body@) ==> (r matches Err(e) && e == Error::Decode),
{
    if json_parse_check(body.as_str()) {
        Ok(Response { body })
    } else {
        Err(Error::Decode)
    }
}

} // verus!
