//! Lettro: the verified core of a newsletter service.
//!
//! The library holds the service's own logic: validation of subscriber
//! e-mail addresses, decoding of HTTP Basic credentials, the decisions of
//! the subscription and publication endpoints (as state machines that an
//! HTTP layer drives), and the mapping of errors onto HTTP replies.

pub mod domain;
pub mod routes;
