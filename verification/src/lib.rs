//! A small verified calculator web service core.
//!
//! The library decides everything about a request that does not involve
//! floating-point values: matching the `/operation/number/number` route,
//! resolving the operation name, shaping the JSON success and error
//! bodies, and picking the HTTP status code. The embedding program feeds
//! it the request path as bytes and performs the floating-point work
//! (parsing the validated operand tokens, arithmetic, rendering the
//! result) that the verifier does not accept.

pub mod ascii;
pub mod dispatch;
pub mod json;
pub mod ops;
pub mod route;
