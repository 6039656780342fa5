//! The errors that the library reports.

use vstd::prelude::*;

verus! {

/// The four values that the configuration must provide.
#[derive(Clone, Copy, Debug, PartialEq, Eq)]
pub enum ConfigKey {
    KakarotAddress,
    ProxyAccountClassHash,
    ExternallyOwnedAccountClassHash,
    ContractAccountClassHash,
}

/// A configuration value that is absent or does not read as a field element.
#[derive(Clone, Copy, Debug, PartialEq, Eq)]
pub enum ConfigurationError {
    Missing(ConfigKey),
    InvalidHex(ConfigKey),
}

/// A value that does not fit the shape or range it is converted to.
#[derive(Clone, Copy, Debug, PartialEq, Eq)]
pub enum ConversionError {
    /// The recovery value of a legacy signature exceeds 64 bits.
    ValueOutOfRange,
    /// Call return data that is shorter than one word or exceeds 256 bits.
    UintConversion,
}

} // verus!
