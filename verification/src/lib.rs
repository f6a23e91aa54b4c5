//! The request/response core of a small greeting service.
//!
//! The service answers three routes: `GET /` with a fixed greeting,
//! `POST /echo` with the request body, and `GET /hey/{name}` with a greeting
//! for `name`. This crate holds that behaviour as functions on plain values,
//! each with a contract; the HTTP server around it only moves bytes.
//!
//! - [`handlers`]: the three handlers.
//! - [`router`]: the route table, and [`router::dispatch`] from a request to
//!   its response.
//! - [`percent`]: decoding of the escapes in a path segment.
//! - [`response`]: the response type.
//! - [`text`]: comparisons of text that the router needs.
//! - [`laws`]: what holds of every request.

pub mod handlers;
pub mod laws;
pub mod percent;
pub mod response;
pub mod router;
pub mod text;
