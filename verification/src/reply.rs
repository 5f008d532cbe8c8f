//! What an endpoint answers: a status code and a body.

use vstd::prelude::*;

verus! {

/// `202 Accepted`: the answer of every endpoint that succeeded.
pub const ACCEPTED: u16 = 202;

/// `201 Created`: the answer of the module-creation endpoint when it succeeded.
pub const CREATED: u16 = 201;

/// `400 Bad Request`.
pub const BAD_REQUEST: u16 = 400;

/// `401 Unauthorized`.
pub const UNAUTHORIZED: u16 = 401;

/// `404 Not Found`.
pub const NOT_FOUND: u16 = 404;

/// `409 Conflict`.
pub const CONFLICT: u16 = 409;

/// `500 Internal Server Error`.
pub const INTERNAL_SERVER_ERROR: u16 = 500;

/// The body of an answer: nothing, a text, or a value that is sent as JSON.
#[derive(Debug, PartialEq, Eq)]
pub enum ReplyBody<T> {
    Empty,
    Text(String),
    Json(T),
}

/// An HTTP answer.
#[derive(Debug, PartialEq, Eq)]
pub struct HttpReply<T> {
    pub status: u16,
    pub body: ReplyBody<T>,
}

impl<T> HttpReply<T> {
    /// The answer has this status and this text as its body.
    pub open spec fn is_text(&self, status: u16, text: Seq<char>) -> bool {
        &&& self.status == status
        &&& self.body matches ReplyBody::Text(t) && t@ == text
    }

    /// The answer has this status and an empty body.
    pub open spec fn is_empty(&self, status: u16) -> bool {
        &&& self.status == status
        &&& self.body is Empty
    }

    /// The answer has this status and carries this value as JSON.
    pub open spec fn is_json(&self, status: u16, value: T) -> bool {
        &&& self.status == status
        &&& self.body == ReplyBody::Json(value)
    }

    /// An answer with a text body.
    pub fn text(status: u16, body: String) -> (reply: Self)
        ensures
            reply.is_text(status, body@),
    {
        HttpReply { status, body: ReplyBody::Text(body) }
    }

    /// An answer with an empty body.
    pub fn empty(status: u16) -> (reply: Self)
        ensures
            reply.is_empty(status),
    {
        HttpReply { status, body: ReplyBody::Empty }
    }

    /// An answer that carries a value as JSON.
    pub fn json(status: u16, value: T) -> (reply: Self)
        ensures
            reply.is_json(status, value),
    {
        HttpReply { status, body: ReplyBody::Json(value) }
    }
}

} // verus!
