//! A client library for the "Astronomy Picture of the Day" web service:
//! request URLs, rate-limit headers and the handling of each response.
mod client;
mod date;
mod model;
mod rate_limit;

pub use client::{response_action, APODClient, APODClientError, QueryPair, ResponseAction};
pub use date::Date;
pub use model::APODMetadata;
pub use rate_limit::{get_rate_limit_info, parse_header_i32, rate_limit_field, RateLimitInfo};
