//! A log-batching drain: records are encoded, buffered in arrival order, and
//! cut into batches for one bulk HTTP request each, when the buffer fills up
//! or when the flush interval has passed.
//!
//! Everything here is single-threaded decision logic with proved contracts.
//! Threads, channels, the clock and the HTTP round trip belong to the caller,
//! who feeds events in and carries the returned batches out.

pub mod batch;
pub mod buffer;
pub mod config;
pub mod drain;
pub mod encoder;
pub mod endpoint;
pub mod error;
pub mod inner;
pub mod laws;
pub mod record;
pub mod transport;
pub mod trigger;

pub use crate::batch::Batch;
pub use crate::buffer::BatchBuffer;
pub use crate::config::Config;
pub use crate::drain::{Event, Lifecycle, LogglyDrain};
pub use crate::error::ConfigError;
pub use crate::inner::InnerLogglyDrain;
pub use crate::record::{Level, LogRecord};
pub use crate::transport::{DeliveryOutcome, Reply};
