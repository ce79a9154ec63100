//! The protocol's messages and the envelope codec that maps them to and from
//! JSON.
use vstd::prelude::*;

use crate::json::{json_quoted, json_text, Json};

verus! {

/// An RPC error object, as carried by a failed `Response`.
#[derive(Debug, Clone, PartialEq)]
pub struct Error {
    pub code: i32,
    pub message: String,
    pub data: Option<Json>,
}

/// An RPC request id. Can be a string (`Str`) or an integer (`Int`).
#[derive(Debug, PartialEq, Eq, Hash, Clone)]
pub enum RequestId {
    Str(String),
    Int(i32),
}

impl From<String> for RequestId {
    fn from(str: String) -> (r: RequestId) {
        RequestId::Str(str)
    }
}

impl vstd::std_specs::convert::FromSpecImpl<String> for RequestId {
    open spec fn obeys_from_spec() -> bool {
        true
    }

    open spec fn from_spec(v: String) -> RequestId {
        RequestId::Str(v)
    }
}

impl From<i32> for RequestId {
    fn from(i: i32) -> (r: RequestId) {
        RequestId::Int(i)
    }
}

impl vstd::std_specs::convert::FromSpecImpl<i32> for RequestId {
    open spec fn obeys_from_spec() -> bool {
        true
    }

    open spec fn from_spec(v: i32) -> RequestId {
        RequestId::Int(v)
    }
}

/// An RPC message. One of `Request`, `Response`, `Notification`.
#[derive(Debug, Clone, PartialEq)]
pub enum Message {
    Request { jsonrpc: String, id: RequestId, method: String, params: Option<Json> },
    Response { jsonrpc: String, id: RequestId, result: Option<Json>, error: Option<Error> },
    Notification { jsonrpc: String, method: String, params: Option<Json> },
}

/// The protocol version that every message written carries.
pub open spec fn version_text() -> Seq<char> {
    seq!['2', '.', '0']
}

fn version() -> (r: String)
    ensures
        r@ == version_text(),
{
    proof {
        reveal_strlit("2.0");
    }
    String::from_str("2.0")
}

impl Message {
    pub fn request(id: RequestId, method: String, params: Option<Json>) -> (r: Message)
        ensures
            r matches Message::Request { jsonrpc, id: i, method: m, params: p } && jsonrpc@
                == version_text() && i == id && m == method && p == params,
    {
        Message::Request { jsonrpc: version(), id, method, params }
    }

    pub fn response(id: RequestId, result: Option<Json>, error: Option<Error>) -> (r: Message)
        ensures
            r matches Message::Response { jsonrpc, id: i, result: res, error: e } && jsonrpc@
                == version_text() && i == id && res == result && e == error,
    {
        Message::Response { jsonrpc: version(), id, result, error }
    }

    pub fn notification(method: String, params: Option<Json>) -> (r: Message)
        ensures
            r matches Message::Notification { jsonrpc, method: m, params: p } && jsonrpc@
                == version_text() && m == method && p == params,
    {
        Message::Notification { jsonrpc: version(), method, params }
    }
}

/// The fields of a `Message::Response`, for code that already knows it holds
/// one.
#[derive(Debug, Clone, PartialEq)]
pub struct Response {
    pub id: RequestId,
    pub result: Option<Json>,
    pub error: Option<Error>,
}

impl TryFrom<Message> for Response {
    type Error = ();

    fn try_from(value: Message) -> (r: Result<Response, ()>) {
        match value {
            Message::Response { id, result, error, .. } => Ok(Response { id, result, error }),
            _ => Err(()),
        }
    }
}

impl vstd::std_specs::convert::TryFromSpecImpl<Message> for Response {
    open spec fn obeys_try_from_spec() -> bool {
        true
    }

    open spec fn try_from_spec(value: Message) -> Result<Response, ()> {
        match value {
            Message::Response { id, result, error, .. } => Ok(Response { id, result, error }),
            _ => Err(()),
        }
    }
}

impl Response {
    /// The `Message::Response` that carries these fields.
    pub fn into_message(self) -> (r: Message)
        ensures
            r matches Message::Response { jsonrpc, id, result, error } && jsonrpc@
                == version_text() && id == self.id && result == self.result && error
                == self.error,
    {
        Message::response(self.id, self.result, self.error)
    }
}

impl From<Response> for Message {
    fn from(value: Response) -> (r: Message)
        ensures
            r matches Message::Response { jsonrpc, id, result, error } && jsonrpc@
                == version_text() && id == value.id && result == value.result && error
                == value.error,
    {
        value.into_message()
    }
}

/// The version string that `Message::from` adds has no spec-level `String`
/// to name, so its result is stated by the `ensures` of `from` itself.
impl vstd::std_specs::convert::FromSpecImpl<Response> for Message {
    open spec fn obeys_from_spec() -> bool {
        false
    }

    open spec fn from_spec(value: Response) -> Message {
        arbitrary()
    }
}

/// A reply turned into a message and back is the same reply: whatever message
/// `Message::from` returns for `r`, `Response::try_from` gives `r` back.
pub proof fn lemma_response_round_trip(r: Response, m: Message)
    requires
        m matches Message::Response { jsonrpc, id, result, error } && jsonrpc@ == version_text()
            && id == r.id && result == r.result && error == r.error,
    ensures
        <Response as vstd::std_specs::convert::TryFromSpec<Message>>::try_from_spec(m) == Ok::<
            Response,
            (),
        >(r),
{
}

} // verus!
