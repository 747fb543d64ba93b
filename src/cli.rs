//! Configuration values as given on the command line, and the parsers for
//! MAC addresses, port ranges and protocol names.

use vstd::prelude::*;
use crate::error::ConfigError;
use crate::flow::Protocol;
use crate::ports::PortRange;
use crate::text::{bounded_of, field_bounds, parse_bounded, same_text, split_fields, Separator};

verus! {

/// The MAC address written in `s`: six hexadecimal bytes separated by `:` or
/// `-`. A bad byte among the first six is reported before a wrong count.
pub open spec fn mac_of(s: Seq<char>) -> Result<Seq<u8>, ConfigError> {
    let parts = split_fields(s, Separator::MacDelimiter.spec_matches());
    if exists|k: int| #[trigger] bad_mac_byte(parts, k) {
        Err(ConfigError::InvalidMacByte)
    } else if parts.len() != 6 {
        Err(ConfigError::InvalidMacLength)
    } else {
        Ok(Seq::new(6, |k: int| bounded_of(parts[k], 16, 255)->0 as u8))
    }
}

/// Whether field `k`, one of the first six, is not a byte in hexadecimal.
pub open spec fn bad_mac_byte(parts: Seq<Seq<char>>, k: int) -> bool {
    0 <= k < parts.len() && k < 6 && bounded_of(parts[k], 16, 255) is None
}

/// Reads a MAC address such as `00:1b:44:11:3a:b7` or `00-1B-44-11-3A-B7`.
pub fn parse_mac(s: &str) -> (r: Result<[u8; 6], ConfigError>)
    ensures
        match r {
            Ok(m) => mac_of(s@) == Ok::<Seq<u8>, ConfigError>(m@),
            Err(e) => mac_of(s@) == Err::<Seq<u8>, ConfigError>(e),
        },
{
    let ghost parts = split_fields(s@, Separator::MacDelimiter.spec_matches());
    let bounds = field_bounds(s, Separator::MacDelimiter);
    let mut mac: [u8; 6] = [0u8; 6];
    let mut k: usize = 0;
    while k < bounds.len() && k < 6
        invariant
            parts == split_fields(s@, Separator::MacDelimiter.spec_matches()),
            bounds@.len() == parts.len(),
            forall|j: int|
                #![trigger bounds@[j]]
                0 <= j < bounds@.len() ==> {
                    &&& bounds@[j].0 <= bounds@[j].1 <= s@.len()
                    &&& s@.subrange(bounds@[j].0 as int, bounds@[j].1 as int) == parts[j]
                },
            k <= 6,
            k <= bounds@.len(),
            forall|j: int|
                0 <= j < k ==> #[trigger] bounded_of(parts[j], 16, 255) == Some(mac@[j] as nat),
        decreases bounds@.len() - k,
    {
        let (a, b) = bounds[k];
        let part = s.substring_char(a, b);
        match parse_bounded(part, 16, 255) {
            None => {
                assert(bounded_of(parts[k as int], 16, 255) is None);
                assert(bad_mac_byte(parts, k as int));
                return Err(ConfigError::InvalidMacByte);
            },
            Some(v) => {
                mac[k] = v as u8;
            },
        }
        k = k + 1;
    }
    assert(!exists|j: int| #[trigger] bad_mac_byte(parts, j));
    if bounds.len() != 6 {
        return Err(ConfigError::InvalidMacLength);
    }
    assert(mac@ =~= Seq::new(6, |j: int| bounded_of(parts[j], 16, 255)->0 as u8));
    Ok(mac)
}

/// The port range written in `s`: two decimal ports separated by one comma,
/// the first not above the second.
pub open spec fn port_range_of(s: Seq<char>) -> Result<(u16, u16), ConfigError> {
    let parts = split_fields(s, Separator::Comma.spec_matches());
    if parts.len() != 2 {
        Err(ConfigError::InvalidPortRange)
    } else {
        match (bounded_of(parts[0], 10, 65535), bounded_of(parts[1], 10, 65535)) {
            (Some(a), Some(b)) => if a <= b {
                Ok((a as u16, b as u16))
            } else {
                Err(ConfigError::EmptyPortRange)
            },
            _ => Err(ConfigError::InvalidPort),
        }
    }
}

/// Reads a port range such as `1000,2000` (both ends included).
pub fn parse_port_range(s: &str) -> (r: Result<PortRange, ConfigError>)
    ensures
        match r {
            Ok(pr) => port_range_of(s@) == Ok::<(u16, u16), ConfigError>((pr.low(), pr.high())),
            Err(e) => port_range_of(s@) == Err::<(u16, u16), ConfigError>(e),
        },
{
    let bounds = field_bounds(s, Separator::Comma);
    if bounds.len() != 2 {
        return Err(ConfigError::InvalidPortRange);
    }
    let (a0, b0) = bounds[0];
    let (a1, b1) = bounds[1];
    let first = parse_bounded(s.substring_char(a0, b0), 10, 65535);
    let last = parse_bounded(s.substring_char(a1, b1), 10, 65535);
    match (first, last) {
        (Some(start), Some(end)) => match PortRange::new(start as u16, end as u16) {
            Some(pr) => Ok(pr),
            None => Err(ConfigError::EmptyPortRange),
        },
        _ => Err(ConfigError::InvalidPort),
    }
}

impl Protocol {
    /// The protocol named `value`, which is `TCP` or `ICMP`.
    pub fn from_name(value: &str) -> (r: Result<Protocol, ConfigError>)
        ensures
            match r {
                Ok(p) => value@ == p.spec_name(),
                Err(e) => {
                    &&& value@ != Protocol::TCP.spec_name()
                    &&& value@ != Protocol::ICMP.spec_name()
                    &&& e matches ConfigError::UnsupportedProtocol(v) && v@ == value@
                },
            },
    {
        if same_text(value, Protocol::ICMP.name()) {
            Ok(Protocol::ICMP)
        } else if same_text(value, Protocol::TCP.name()) {
            Ok(Protocol::TCP)
        } else {
            Err(ConfigError::UnsupportedProtocol(String::from_str(value)))
        }
    }
}

/// Reads a protocol name, `TCP` or `ICMP`.
pub fn parse_protocol(s: &str) -> (r: Result<Protocol, ConfigError>)
    ensures
        match r {
            Ok(p) => s@ == p.spec_name(),
            Err(e) => {
                &&& s@ != Protocol::TCP.spec_name()
                &&& s@ != Protocol::ICMP.spec_name()
                &&& e matches ConfigError::UnsupportedProtocol(v) && v@ == s@
            },
        },
{
    Protocol::from_name(s)
}

/// The ports the command line gives for one end: one port, or a range,
/// which wins when both are there.
pub open spec fn chosen_ports(port: Option<u16>, port_range: Option<PortRange>) -> Result<
    PortRange,
    ConfigError,
> {
    match port_range {
        Some(pr) => Ok(pr),
        None => match port {
            Some(p) => Ok(PortRange::spec_single(p)),
            None => Err(ConfigError::MissingPort),
        },
    }
}

fn ports_of(port: Option<u16>, port_range: Option<PortRange>) -> (r: Result<PortRange, ConfigError>)
    ensures
        r == chosen_ports(port, port_range),
{
    match port_range {
        Some(pr) => Ok(pr),
        None => match port {
            Some(p) => Ok(PortRange::single(p)),
            None => Err(ConfigError::MissingPort),
        },
    }
}

/// Source port options.
#[derive(Clone, Copy, Debug, PartialEq, Eq, Structural)]
pub struct SrcPort {
    pub port: Option<u16>,
    pub port_range: Option<PortRange>,
}

impl SrcPort {
    /// The source ports these options select.
    pub fn ports(&self) -> (r: Result<PortRange, ConfigError>)
        ensures
            r == chosen_ports(self.port, self.port_range),
    {
        ports_of(self.port, self.port_range)
    }
}

/// Destination port options.
#[derive(Clone, Copy, Debug, PartialEq, Eq, Structural)]
pub struct DstPort {
    pub port: Option<u16>,
    pub port_range: Option<PortRange>,
}

impl DstPort {
    /// The destination ports these options select.
    pub fn ports(&self) -> (r: Result<PortRange, ConfigError>)
        ensures
            r == chosen_ports(self.port, self.port_range),
    {
        ports_of(self.port, self.port_range)
    }
}

} // verus!
