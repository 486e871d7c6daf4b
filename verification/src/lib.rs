//! HTTP result normalisation for an ACME client.
//!
//! A request to the certificate authority ends in one of three ways: a
//! response with a success status, a response with an error status, or no
//! response at all. This library turns the last two into one structured
//! error value, [`problem::ApiProblem`], and proves what that value holds.

pub mod decode;
pub mod json;
pub mod normalize;
pub mod problem;
pub mod request;
pub mod response;
pub mod text;
