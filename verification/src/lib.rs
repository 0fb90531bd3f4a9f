//! Verified core of the armillary-sphere analysis backend: request/response
//! envelopes, error classification, instrument naming, alarm evaluation with
//! debouncing, WebSocket session bookkeeping, pipeline routing and the small
//! text parsers used at the service's edges.

pub mod api;
pub mod parse;
pub mod mqtt;
pub mod clock;
pub mod alarm;
pub mod debounce;
pub mod ws;
pub mod pipeline;
pub mod axes;
pub mod instrument;
pub mod validation;
pub mod query;
pub mod settings;
