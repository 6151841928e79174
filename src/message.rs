//! An HTTP message as this crate sees it, and the outcome of polling.

use crate::header::{without_name, HeaderName, Headers};
use vstd::prelude::*;

verus! {

/// A request or a response: its header fields, and everything else
/// (method, target, status, version, body), which is carried through
/// untouched.
pub struct Message<B> {
    pub headers: Headers,
    pub body: B,
}

impl<B> Message<B> {
    pub fn new(headers: Headers, body: B) -> (r: Self)
        ensures
            r.headers@ == headers@,
            r.body == body,
    {
        Message { headers, body }
    }

    /// Removes every field named `name`; the other fields keep their order
    /// and the rest of the message is left as it is.
    pub fn strip(&mut self, name: &HeaderName)
        ensures
            final(self).headers@ == without_name(old(self).headers@, name@),
            final(self).body == old(self).body,
    {
        self.headers.remove(name);
    }
}

/// Whether an asynchronous value is there yet.
pub enum Async<T> {
    Ready(T),
    NotReady,
}

} // verus!
