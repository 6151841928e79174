//! Stripping a header from responses, once the wrapped service has
//! produced them.

use crate::header::{without_name, HeaderName};
use crate::message::{Async, Message};
use crate::stack::{Layer, Service};
use vstd::prelude::*;

verus! {

/// Marker type: the header is stripped from responses. It only tags the
/// direction in types and has no runtime representation.
pub enum ResHeader {
    Response,
}

/// A layer whose services remove `header` from every response.
pub fn layer(header: HeaderName) -> (r: Layer<ResHeader>)
    ensures
        r.header_view() == header@,
{
    crate::stack::layer(header)
}

/// The in-flight response of a response-side service.
pub struct ResponseFuture<F> {
    inner: F,
    header: HeaderName,
}

impl<S> Service<S, ResHeader> {
    /// Wraps `inner`, the future that the wrapped service returned for a
    /// request handed to it unchanged, so that its response is stripped
    /// when it arrives.
    pub fn response_future<F>(&self, inner: F) -> (r: ResponseFuture<F>)
        ensures
            r.header_view() == self.header_view(),
            r.inner_view() == inner,
    {
        ResponseFuture { inner, header: self.header().duplicate() }
    }
}

impl<F> ResponseFuture<F> {
    pub closed spec fn header_view(&self) -> Seq<u8> {
        self.header@
    }

    pub closed spec fn inner_view(&self) -> F {
        self.inner
    }

    /// The wrapped future, to be polled; the header stays as it is.
    pub fn inner_mut(&mut self) -> (r: &mut F)
        ensures
            *r == old(self).inner_view(),
            final(self).inner_view() == *final(r),
            final(self).header_view() == old(self).header_view(),
    {
        &mut self.inner
    }

    /// Turns the outcome of polling the wrapped future into the outcome of
    /// polling this one: a response that arrived loses every field named by
    /// the header and keeps the rest; a pending response stays pending; an
    /// error is handed on as it came, with nothing stripped.
    pub fn poll<B, E>(&self, inner: Result<Async<Message<B>>, E>) -> (r: Result<
        Async<Message<B>>,
        E,
    >)
        ensures
            match (inner, r) {
                (Ok(Async::Ready(m)), Ok(Async::Ready(n))) => n.headers@ == without_name(
                    m.headers@,
                    self.header_view(),
                ) && n.body == m.body,
                (Ok(Async::NotReady), Ok(Async::NotReady)) => true,
                (Err(e), Err(f)) => e == f,
                _ => false,
            },
    {
        match inner {
            Ok(Async::Ready(m)) => {
                let mut m = m;
                m.strip(&self.header);
                Ok(Async::Ready(m))
            },
            Ok(Async::NotReady) => Ok(Async::NotReady),
            Err(e) => Err(e),
        }
    }
}

} // verus!
