//! What can go wrong when a drain is set up.

use vstd::prelude::*;

verus! {

/// Why a drain could not be built from its settings.
#[derive(Clone, Copy, Debug, PartialEq, Eq, Structural)]
pub enum ConfigError {
    /// The buffer capacity is zero; it must be positive.
    ZeroCapacity,
    /// Token and tag do not make an address that parses as a URL.
    InvalidEndpoint,
}

} // verus!
