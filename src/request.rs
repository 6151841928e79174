//! Stripping a header from requests, before the wrapped service sees them.

use crate::header::{without_name, HeaderName};
use crate::message::Message;
use crate::stack::{Layer, Service};
use vstd::prelude::*;

verus! {

/// Marker type: the header is stripped from requests. It only tags the
/// direction in types and has no runtime representation.
pub enum ReqHeader {
    Request,
}

/// A layer whose services remove `header` from every request.
pub fn layer(header: HeaderName) -> (r: Layer<ReqHeader>)
    ensures
        r.header_view() == header@,
{
    crate::stack::layer(header)
}

impl<S> Service<S, ReqHeader> {
    /// The request to hand to the wrapped service: `req` without any field
    /// named by this service's header, everything else as it came. The
    /// response future of the wrapped service is returned to the caller as
    /// it is.
    pub fn strip_request<B>(&self, req: Message<B>) -> (r: Message<B>)
        ensures
            r.headers@ == without_name(req.headers@, self.header_view()),
            r.body == req.body,
    {
        let mut req = req;
        req.strip(self.header());
        req
    }
}

} // verus!
