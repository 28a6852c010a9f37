//! The request envelope: a closed tagged union over request kinds — one
//! kind today, extensible without touching the dispatch step — wrapped into
//! the outer `{"request":…}` object that is actually serialized and sent.
//! A pre-built JSON document may also be wrapped verbatim, bypassing the
//! builders by design: the caller is trusted.

use vstd::prelude::*;

use crate::error::{Error, ParseError};
use crate::json::{is_json_text, json_parse_check};
use crate::message::{CreateMessage, CreateMessageView};
use crate::wire::spec_create_message_json;

verus! {

/// The mathematical value of a `RequestData`.
pub ghost enum RequestDataView {
    CreateMessageRequest(CreateMessageView),
}

/// The request kinds the remote API knows; the sole kind today carries a
/// create-message body.
pub enum RequestData {
    CreateMessageRequest(CreateMessage),
}

impl View for RequestData {
    type V = RequestDataView;

    closed spec fn view(&self) -> RequestDataView {
        match self {
            RequestData::CreateMessageRequest(m) => RequestDataView::CreateMessageRequest(m@),
        }
    }
}

/// The mathematical value of a `Request`.
pub ghost struct RequestView {
    pub data: RequestDataView,
}

/// The envelope that is serialized and sent: one `RequestData`, wrapped
/// with no further validation — validation happened in the builders.
pub struct Request {
    data: RequestData,
}

impl View for Request {
    type V = RequestView;

    closed spec fn view(&self) -> RequestView {
        RequestView { data: self.data@ }
    }
}

impl Request {
    pub fn new(data: RequestData) -> (r: Self)
        ensures
            r@ == (RequestView { data: data@ }),
    {
        Request { data }
    }
}

/// The wire text of a request kind's body.
pub open spec fn spec_request_data_json(d: RequestDataView) -> Seq<char> {
    match d {
        RequestDataView::CreateMessageRequest(m) => spec_create_message_json(m),
    }
}

/// The wire text of the whole envelope.
pub open spec fn spec_request_json(r: RequestView) -> Seq<char> {
    ("{\"request\":")@ + spec_request_data_json(r.data) + ("}")@
}

/// Serializes the envelope to the exact wire text the remote API documents.
pub fn serialize_request(req: &Request) -> (r: String)
    ensures
        r@ == spec_request_json(req@),
{
    let mut out = String::new();
    out.append("{\"request\":");
    match &req.data {
        RequestData::CreateMessageRequest(m) => m.push_wire_json(&mut out),
    }
    out.append("}");
    assert(out@ =~= spec_request_json(req@));
    out
}

/// Wraps a pre-built request document into the envelope verbatim, byte for
/// byte, skipping the builders' validation: the text must be valid JSON and
/// nothing more is checked.
pub fn request_body_from_json(text: &str) -> (r: Result<String, Error>)
    ensures
        is_json_text(text@) ==> (r matches Ok(body) && body@ == ("{\"request\":")@ + text@ + (
        "}")@),
        !is_json_text(text@) ==> (r matches Err(e) && e == Error::Parse(ParseError::InvalidJson)),
{
    if json_parse_check(text) {
        let mut out = String::new();
        out.append("{\"request\":");
        out.append(text);
        out.append("}");
        Ok(out)
    } else {
        Err(Error::Parse(ParseError::InvalidJson))
    }
}

} // verus!
