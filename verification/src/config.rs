//! The settings of a drain.

use vstd::prelude::*;
use crate::endpoint::endpoint_url;
use crate::error::ConfigError;

verus! {

/// The settings that a drain is built from. They fix the endpoint and both
/// trigger thresholds for the drain's whole life.
#[derive(Debug, PartialEq, Eq)]
pub struct Config {
    /// The customer token of the destination.
    pub token: String,
    /// The tag under which the destination files the records.
    pub tag: String,
    /// How many records make a full buffer; must be positive.
    pub buffer_size: usize,
    /// How long after a flush the next one is due, in milliseconds.
    pub flush_interval: u64,
}

impl Config {
    /// Whether a drain can be built from these settings: the capacity is
    /// positive and token and tag make an address that parses.
    pub open spec fn valid(&self) -> bool {
        self.buffer_size > 0 && endpoint_url(self.token@, self.tag@) is Some
    }
}

/// Checks a buffer capacity and a resolved endpoint. The capacity is
/// looked at first: zero is refused whatever the endpoint; with a positive
/// capacity, a missing endpoint is refused.
pub fn validate(buffer_size: usize, endpoint: &Option<String>) -> (checked: Result<(), ConfigError>)
    ensures
        match checked {
            Ok(()) => buffer_size > 0 && endpoint is Some,
            Err(ConfigError::ZeroCapacity) => buffer_size == 0,
            Err(ConfigError::InvalidEndpoint) => buffer_size > 0 && endpoint is None,
        },
{
    if buffer_size == 0 {
        Err(ConfigError::ZeroCapacity)
    } else if endpoint.is_none() {
        Err(ConfigError::InvalidEndpoint)
    } else {
        Ok(())
    }
}

} // verus!
