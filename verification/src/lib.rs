//! In-process data-broadcasting core.
//!
//! A single actor owns an immutable-after-load dataset and a registry of
//! subscribers. Callers reach it only through messages; a periodic tick fans
//! the dataset out to every registered subscriber and drops the ones whose
//! delivery failed. This crate holds the verified core: the dataset
//! validation, the message-handling state machine, and the registry pruning.
//! The transport adapter (HTTP/SSE/WebSocket routes, channels, timers) is an
//! unverified shell around it.

pub mod errors;
pub mod gateway;
pub mod handle;
pub mod laws;

pub use errors::DatasetLoadError;
pub use errors::GatewayUnavailable;
pub use gateway::GatewayActor;
pub use gateway::GatewayMessage;
pub use gateway::GatewayReply;
pub use handle::reply_or_unavailable;
