//! The answer that a handler gives, as plain values.

use vstd::prelude::*;

verus! {

/// The status code of a request that was served as asked.
pub const STATUS_OK: u16 = 200;

/// An answer to one request: the HTTP status code and the text of the body.
#[derive(Debug)]
pub struct Reply {
    /// The HTTP status code.
    pub status: u16,
    /// The body, as text.
    pub body: String,
}

/// The mathematical value of a [`Reply`]: its status code and the characters
/// of its body.
pub struct ReplyView {
    /// The HTTP status code.
    pub status: u16,
    /// The characters of the body.
    pub body: Seq<char>,
}

impl View for Reply {
    type V = ReplyView;

    open spec fn view(&self) -> ReplyView {
        ReplyView { status: self.status, body: self.body@ }
    }
}

/// Whether `code` is a number that HTTP admits as a status code: three
/// decimal digits, the first of them not zero.
pub open spec fn is_status_code(code: u16) -> bool {
    100 <= code <= 999
}

/// The successful answer that carries `body`.
pub open spec fn ok_reply(body: Seq<char>) -> ReplyView {
    ReplyView { status: 200, body }
}

impl Reply {
    /// A successful answer with the given body.
    pub fn ok(body: String) -> (reply: Reply)
        ensures
            reply@ == ok_reply(body@),
    {
        Reply { status: STATUS_OK, body }
    }
}

} // verus!
