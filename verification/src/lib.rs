//! A typed client core for a read-only JSON REST API with ETag-based
//! conditional revalidation.
//!
//! Each endpoint caches successful responses together with the entity tag the
//! server assigned them.  A later request for the same resource carries that
//! tag in an `If-None-Match` header, and a `304 Not Modified` reply is served
//! from the cache without re-parsing the body.

pub mod ctx;
pub mod model;
pub mod error;
pub mod text;

pub use ctx::cache::{EndPointCache, EndPointCacheEntry};
pub use error::Error;

