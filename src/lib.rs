//! Middleware that removes one statically chosen header from the requests
//! or the responses that pass through a service.
//!
//! The HTTP message is modelled by [`message::Message`]: an ordered list of
//! header fields next to everything else, which this crate never looks at.
//! The direction in which the header is removed is chosen at the type level
//! by [`request::ReqHeader`] or [`response::ResHeader`]. The wrapped
//! factories, services and futures are driven by the caller, who hands the
//! outcome of each poll or call to the matching function here.

pub mod header;
pub mod laws;
pub mod message;
pub mod request;
pub mod response;
pub mod stack;

pub use stack::{layer, Layer, MakeFuture, Service, Stack};
