//! At-least-once request/response bookkeeping over a lossy publish/subscribe bus.
//!
//! A dispatcher sends multiplication requests tagged with correlation IDs and
//! keeps a record of each until a response resolves it; records that stay
//! unanswered for longer than the resend interval are sent again. A receiver
//! matches inbound responses against the pending records and checks the
//! returned product.
pub mod clock;
pub mod dispatch;
pub mod entropy;
pub mod pending;
pub mod protocol;
pub mod request;
pub mod response;
pub mod store;
