//! Configuration errors: every one is found before the first packet is sent.

use vstd::prelude::*;

verus! {

/// Why a configuration value was refused.
#[derive(Debug, PartialEq, Eq)]
pub enum ConfigError {
    /// A port range is not two ports separated by one comma.
    InvalidPortRange,
    /// A port is not a decimal number below 65536.
    InvalidPort,
    /// A port range whose first port is above its last.
    EmptyPortRange,
    /// A MAC address that does not have six bytes.
    InvalidMacLength,
    /// A MAC address byte that is not a hexadecimal number below 256.
    InvalidMacByte,
    /// A protocol name other than `TCP` or `ICMP`; holds the name given.
    UnsupportedProtocol(String),
    /// Neither a port nor a port range was given.
    MissingPort,
    /// No template synchronisation strategy was chosen.
    MissingStrategy,
    /// A template period of zero packets.
    ZeroTemplatePeriod,
}

} // verus!
