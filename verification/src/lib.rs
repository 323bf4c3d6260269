//! Run warp filters inside an axum server.
//!
//! An axum server speaks in one family of request/response values, a compiled
//! warp filter in another. This crate translates between the two families and
//! wraps a finalized filter as a service the host router can call:
//!
//! - [`model`] holds the plain-data forms of both request/response families.
//! - [`convert_request`] turns a host-side request into the warp-side form.
//! - [`convert_response`] turns a warp-side response back into the host-side
//!   form.
//! - [`warp_service`] composes the two translators into the adapter's call
//!   logic, with a synthetic 500 response for the rare case that translation
//!   itself fails.
//!
//! Bodies are carried as opaque streaming handles, never buffered, so payload
//! size is unbounded and backpressure reaches the source. The warp filter's
//! own rejections (404, 405, and the rest) pass through unchanged: they are
//! ordinary responses here, not errors.

pub mod body;
pub mod convert_request;
pub mod convert_response;
pub mod model;
pub mod warp_service;
