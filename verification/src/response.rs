//! What a handler answers with.

use vstd::prelude::*;

verus! {

/// The status and body of an answer.
pub struct Response {
    pub status: u16,
    pub body: Vec<u8>,
}

impl Response {
    /// Whether the answer has the given status and nothing in its body.
    pub open spec fn is_bare(self, status: u16) -> bool {
        self.status == status && self.body@ == Seq::<u8>::empty()
    }

    /// 200 with an empty body.
    pub fn ok() -> (r: Response)
        ensures
            r.is_bare(200),
    {
        Response { status: 200, body: Vec::new() }
    }

    /// 400 with an empty body.
    pub fn bad_request() -> (r: Response)
        ensures
            r.is_bare(400),
    {
        Response { status: 400, body: Vec::new() }
    }

    /// 500 with an empty body.
    pub fn internal_server_error() -> (r: Response)
        ensures
            r.is_bare(500),
    {
        Response { status: 500, body: Vec::new() }
    }

    /// The length of the body in bytes.
    pub fn content_length(&self) -> (n: usize)
        ensures
            n == self.body@.len(),
    {
        self.body.len()
    }
}

} // verus!
