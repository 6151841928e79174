//! The layer, the decorated factory, the construction future and the
//! decorated service. Which direction they strip is fixed by the marker
//! type `R`; the behaviour of each direction lives in `request` and
//! `response`.

use crate::header::HeaderName;
use crate::message::Async;
use std::marker::PhantomData;
use vstd::prelude::*;

verus! {

/// Wraps service factories so that a given header is removed from a
/// request or a response.
pub struct Layer<R> {
    header: HeaderName,
    _marker: PhantomData<R>,
}

/// Builds a layer that strips `header` in the direction `R`. Callers go
/// through `request::layer` or `response::layer`.
pub fn layer<R>(header: HeaderName) -> (r: Layer<R>)
    ensures
        r.header_view() == header@,
{
    Layer { header, _marker: PhantomData }
}

impl<R> Layer<R> {
    /// The name of the header that this layer strips.
    pub closed spec fn header_view(&self) -> Seq<u8> {
        self.header@
    }

    pub fn header(&self) -> (r: &HeaderName)
        ensures
            r@ == self.header_view(),
    {
        &self.header
    }

    /// Wraps the factory `inner`; the wrapped factory strips the same
    /// header.
    pub fn layer<M>(&self, inner: M) -> (r: Stack<M, R>)
        ensures
            r.header_view() == self.header_view(),
            r.inner_view() == inner,
    {
        Stack { header: self.header.duplicate(), inner, _marker: PhantomData }
    }
}

/// A service factory whose services strip a given header.
pub struct Stack<M, R> {
    header: HeaderName,
    inner: M,
    _marker: PhantomData<R>,
}

impl<M, R> Stack<M, R> {
    pub closed spec fn header_view(&self) -> Seq<u8> {
        self.header@
    }

    pub closed spec fn inner_view(&self) -> M {
        self.inner
    }

    pub fn header(&self) -> (r: &HeaderName)
        ensures
            r@ == self.header_view(),
    {
        &self.header
    }

    /// The wrapped factory, which builds the services to decorate.
    pub fn inner(&self) -> (r: &M)
        ensures
            *r == self.inner_view(),
    {
        &self.inner
    }

    /// The wrapped factory, to be polled or called; the header stays as it
    /// is.
    pub fn inner_mut(&mut self) -> (r: &mut M)
        ensures
            *r == old(self).inner_view(),
            final(self).inner_view() == *final(r),
            final(self).header_view() == old(self).header_view(),
    {
        &mut self.inner
    }

    /// Decorates `inner`, the service that the wrapped factory built for a
    /// target. The decorated service strips this factory's header.
    pub fn make<S>(&self, inner: S) -> (r: Service<S, R>)
        ensures
            r.header_view() == self.header_view(),
            r.inner_view() == inner,
    {
        Service { header: self.header.duplicate(), inner, _marker: PhantomData }
    }

    /// Decorates `inner`, an in-flight construction by the wrapped factory.
    pub fn make_future<F>(&self, inner: F) -> (r: MakeFuture<F, R>)
        ensures
            r.header_view() == self.header_view(),
            r.inner_view() == inner,
    {
        MakeFuture { header: self.header.duplicate(), inner, _marker: PhantomData }
    }
}

/// An in-flight construction of a decorated service.
pub struct MakeFuture<F, R> {
    header: HeaderName,
    inner: F,
    _marker: PhantomData<R>,
}

impl<F, R> MakeFuture<F, R> {
    pub closed spec fn header_view(&self) -> Seq<u8> {
        self.header@
    }

    pub closed spec fn inner_view(&self) -> F {
        self.inner
    }

    /// The wrapped construction, to be polled; the header stays as it is.
    pub fn inner_mut(&mut self) -> (r: &mut F)
        ensures
            *r == old(self).inner_view(),
            final(self).inner_view() == *final(r),
            final(self).header_view() == old(self).header_view(),
    {
        &mut self.inner
    }

    /// Turns the outcome of polling the wrapped construction into the
    /// outcome of polling this one: a built service is decorated with the
    /// header, a pending construction stays pending, and an error is handed
    /// on as it came.
    pub fn poll<S, E>(&self, inner: Result<Async<S>, E>) -> (r: Result<Async<Service<S, R>>, E>)
        ensures
            match (inner, r) {
                (Ok(Async::Ready(s)), Ok(Async::Ready(svc))) => svc.header_view()
                    == self.header_view() && svc.inner_view() == s,
                (Ok(Async::NotReady), Ok(Async::NotReady)) => true,
                (Err(e), Err(f)) => e == f,
                _ => false,
            },
    {
        match inner {
            Ok(Async::Ready(s)) => Ok(
                Async::Ready(Service { header: self.header.duplicate(), inner: s, _marker: PhantomData }),
            ),
            Ok(Async::NotReady) => Ok(Async::NotReady),
            Err(e) => Err(e),
        }
    }
}

/// A service that strips a given header from each request or response.
pub struct Service<S, R> {
    header: HeaderName,
    inner: S,
    _marker: PhantomData<R>,
}

impl<S, R> Service<S, R> {
    pub closed spec fn header_view(&self) -> Seq<u8> {
        self.header@
    }

    pub closed spec fn inner_view(&self) -> S {
        self.inner
    }

    pub fn header(&self) -> (r: &HeaderName)
        ensures
            r@ == self.header_view(),
    {
        &self.header
    }

    /// The wrapped service, to be called or polled; the header stays as it
    /// is.
    pub fn inner_mut(&mut self) -> (r: &mut S)
        ensures
            *r == old(self).inner_view(),
            final(self).inner_view() == *final(r),
            final(self).header_view() == old(self).header_view(),
    {
        &mut self.inner
    }

    /// Readiness is the wrapped service's own: this service adds no
    /// waiting and no error.
    pub fn poll_ready<E>(&self, inner: Result<Async<()>, E>) -> (r: Result<Async<()>, E>)
        ensures
            r == inner,
    {
        inner
    }
}

} // verus!
