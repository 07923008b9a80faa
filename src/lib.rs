//! Typed client library for a prediction-market platform's public REST surface.
//!
//! The library holds the parts that decide: how request parameters become
//! query parameters, which request each endpoint makes, how the URL is built,
//! what a response status or a transport fault amounts to, and which failures
//! are worth retrying. Sending and receiving is left to the caller.
use vstd::prelude::*;

pub mod error;
pub mod events;
pub mod orderbook;
pub mod pricing;
pub mod query;
pub mod shared;
pub mod sports;
pub mod spreads;
pub mod tags;
pub mod text;
pub mod transport;

pub use error::{ApiError, HttpError, Retryable, StatusCode, TransportFault};
pub use query::{QueryMap, ToQueryParams};
pub use shared::{Side, TokenId};
pub use transport::{ApiRequest, HttpMethod};

verus! {

} // verus!
