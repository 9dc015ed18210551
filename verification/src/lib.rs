//! A bus-to-topic event relay: consumes two kinds of upstream domain events,
//! re-addresses each to a per-account topic, and hands the derived messages to
//! an outbound publish/subscribe channel, while contributing two read-only
//! HTTP routes (liveness and configuration) to a shared router under
//! composition.

pub mod events;
pub mod http_api;
pub mod relay;
pub mod router;
