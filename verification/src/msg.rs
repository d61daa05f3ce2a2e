//! Request descriptors: the values that producers enqueue and that one
//! request/response exchange is seeded with.

use vstd::prelude::*;

verus! {

/// The verb a request is dispatched with.
#[derive(Clone, Copy, Debug, PartialEq, Eq, Structural)]
pub enum Method {
    Get,
    Post,
}

/// A request message: the method, the target resource path, the request
/// body, and a correlation token naming the producer that built it.
///
/// A `Message` is created by a producer, owned by the queue until popped,
/// and handed to a request/response exchange on pop.
pub struct Message {
    pub method: Method,
    pub url: String,
    pub body: String,
    pub token: u64,
}

impl Message {
    /// A well-formed descriptor targets a non-empty resource path.
    pub open spec fn wf(self) -> bool {
        self.url@.len() > 0
    }

    /// Build a descriptor from its parts.
    pub fn new(method: Method, url: String, body: String, token: u64) -> (m: Message)
        ensures
            m.method == method,
            m.url@ == url@,
            m.body@ == body@,
            m.token == token,
    {
        Message { method, url, body, token }
    }

    /// Whether this descriptor is well-formed enough to send.
    pub fn is_wf(&self) -> (r: bool)
        ensures
            r == self.wf(),
    {
        self.url.as_str().unicode_len() > 0
    }
}

} // verus!
