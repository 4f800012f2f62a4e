//! Error kinds, organized by the entity they concern (customer, config).

use vstd::prelude::*;

verus! {

/// Errors for customer records (reserved for future lookup operations).
#[derive(Clone, Copy, PartialEq, Eq, Debug)]
pub enum CustomerError {
    /// A referenced customer record does not exist.
    CustomerNotFound,
}

/// Errors raised by operations on the program configuration.
#[derive(Clone, Copy, PartialEq, Eq, Debug)]
pub enum ConfigError {
    /// The supplied allowlist holds more mints than the fixed capacity.
    TooManyAllowedMints,
    /// The program is currently paused (reserved for future operations).
    ProgramPaused,
    /// The caller is not the admin (reserved for future privileged operations).
    UnauthorizedAdmin,
    /// A mint is not in the allowed list (reserved for future operations).
    MintNotAllowed,
}

/// Failures of the initialization entry point as a whole: a validation
/// failure, or a failure reported by the host's allocation and derivation
/// primitives.
#[derive(Clone, Copy, PartialEq, Eq, Debug)]
pub enum InitError {
    /// A validation rule of the configuration rejected the inputs.
    Config(ConfigError),
    /// The singleton address is already occupied: the configuration was
    /// created by an earlier successful call.
    AlreadyInitialized,
    /// No bump seed yields a usable derived address for this program id
    /// (statistically improbable, but handled rather than assumed away).
    AddressUnavailable,
}

} // verus!
