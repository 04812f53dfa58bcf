//! HTTP request execution with transparent authentication negotiation.
//!
//! The library holds the decisions of an HTTP exchange: it validates a
//! request, decides whether a probe is sent first, picks Digest or Basic
//! credentials from what the probe yields, computes RFC 2617 Digest
//! responses, and normalises the final response. The caller performs the
//! network sends and hands the outcomes back.
mod text;
pub mod hexfmt;
pub mod challenge;
pub mod error;
pub mod digest;
pub mod headers;
pub mod method;
pub mod exchange;

pub use exchange::{HttpRequest, HttpResponse};
