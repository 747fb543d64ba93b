//! Transport-port specifications: one fixed port or an inclusive range
//! sampled uniformly on every call.

use vstd::prelude::*;
use rand::rngs::ThreadRng;
use crate::external::random_in;

verus! {

/// The inclusive range `start..=end` of ports, never empty. A range of one
/// port is a fixed port.
#[derive(Clone, Copy, Debug, PartialEq, Eq, Structural)]
pub struct PortRange {
    start: u16,
    end: u16,
}

impl PortRange {
    #[verifier::type_invariant]
    spec fn inv(self) -> bool {
        self.start <= self.end
    }

    /// Lowest port of the range.
    pub closed spec fn low(self) -> u16 {
        self.start
    }

    /// Highest port of the range.
    pub closed spec fn high(self) -> u16 {
        self.end
    }

    /// The range holding the one port `port`.
    pub closed spec fn spec_single(port: u16) -> PortRange {
        PortRange { start: port, end: port }
    }

    /// Whether `p` lies in the range.
    pub open spec fn contains(self, p: int) -> bool {
        self.low() <= p <= self.high()
    }

    /// The range `start..=end`; `None` when it would be empty.
    pub fn new(start: u16, end: u16) -> (r: Option<PortRange>)
        ensures
            r is Some <==> start <= end,
            r matches Some(pr) ==> pr.low() == start && pr.high() == end,
    {
        if start <= end {
            Some(PortRange { start, end })
        } else {
            None
        }
    }

    /// The fixed port `port`, that is the range `port..=port`.
    pub fn single(port: u16) -> (r: PortRange)
        ensures
            r == PortRange::spec_single(port),
            r.low() == port,
            r.high() == port,
    {
        PortRange { start: port, end: port }
    }

    /// Lowest port of the range.
    pub fn start(&self) -> (r: u16)
        ensures
            r == self.low(),
    {
        self.start
    }

    /// Highest port of the range.
    pub fn end(&self) -> (r: u16)
        ensures
            r == self.high(),
    {
        self.end
    }

    /// One port of the range. A fixed port is returned as it is, leaving the
    /// generator untouched; otherwise the port is drawn afresh on each call.
    pub fn get_one(&self, rng: &mut ThreadRng) -> (r: u16)
        ensures
            self.contains(r as int),
            self.low() == self.high() ==> *final(rng) == *old(rng),
    {
        proof {
            use_type_invariant(self);
        }
        if self.start == self.end {
            self.start
        } else {
            let p = random_in(rng, self.start as u32, self.end as u32);
            p as u16
        }
    }
}

} // verus!
