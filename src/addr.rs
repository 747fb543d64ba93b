//! IPv4 address specifications: a single fixed address or a subnet whose
//! usable hosts are sampled uniformly.
//!
//! Addresses are held as `u32` in network order of significance: the first
//! octet is the most significant byte (`10.0.0.1` is `0x0a00_0001`).

use vstd::prelude::*;
use vstd::arithmetic::power2::{pow2, lemma_pow2_unfold, lemma_pow2_adds, lemma2_to64};
use vstd::arithmetic::div_mod::{lemma_fundamental_div_mod, lemma_multiply_divide_lt};
use vstd::arithmetic::mul::lemma_mul_inequality;
use rand::rngs::ThreadRng;
use crate::external::random_in;

verus! {

/// Number of addresses in a block of the given prefix length.
pub open spec fn block_len(prefix: nat) -> int {
    pow2((32 - prefix) as nat) as int
}

/// An IPv4 network given by an address and a prefix length of at most 32.
/// The address need not have its host bits cleared.
#[derive(Clone, Copy, Debug, PartialEq, Eq, Structural)]
pub struct Ipv4Subnet {
    addr: u32,
    prefix_len: u8,
}

impl Ipv4Subnet {
    #[verifier::type_invariant]
    spec fn inv(self) -> bool {
        self.prefix_len <= 32
    }

    /// The address the subnet was written with.
    pub closed spec fn base(self) -> u32 {
        self.addr
    }

    /// The prefix length.
    pub closed spec fn prefix(self) -> nat {
        self.prefix_len as nat
    }

    /// The first address of the network (host bits cleared).
    pub open spec fn network_spec(self) -> int {
        self.base() as int - (self.base() as int) % block_len(self.prefix())
    }

    /// The last address of the network (host bits set).
    pub open spec fn broadcast_spec(self) -> int {
        self.network_spec() + block_len(self.prefix()) - 1
    }

    /// Lowest usable host: the network address itself is skipped unless the
    /// prefix is 31 or 32, where every address of the block is a host.
    pub open spec fn first_host_spec(self) -> int {
        if self.prefix() < 31 {
            self.network_spec() + 1
        } else {
            self.network_spec()
        }
    }

    /// Highest usable host: the broadcast address is skipped unless the
    /// prefix is 31 or 32.
    pub open spec fn last_host_spec(self) -> int {
        if self.prefix() < 31 {
            self.broadcast_spec() - 1
        } else {
            self.broadcast_spec()
        }
    }

    /// Whether `a` is one of the usable hosts of the network.
    pub open spec fn is_host(self, a: int) -> bool {
        self.first_host_spec() <= a <= self.last_host_spec()
    }

    /// A subnet's host range is non-empty and fits in 32 bits.
    pub proof fn lemma_hosts_in_range(self)
        requires
            self.prefix() <= 32,
        ensures
            0 <= self.network_spec() <= self.first_host_spec(),
            self.first_host_spec() <= self.last_host_spec(),
            self.last_host_spec() <= self.broadcast_spec() <= u32::MAX,
    {
        lemma_block_bounds(self.addr as int, self.prefix_len as nat);
        vstd::arithmetic::power2::lemma_pow2_pos((32 - self.prefix()) as nat);
        if self.prefix() < 31 {
            lemma_pow2_monotone(2, (32 - self.prefix()) as nat);
            lemma2_to64();
        }
    }

    /// The subnet `addr/prefix_len`; `None` when the prefix is longer than 32.
    pub fn new(addr: u32, prefix_len: u8) -> (r: Option<Ipv4Subnet>)
        ensures
            r is Some <==> prefix_len <= 32,
            r matches Some(n) ==> n.base() == addr && n.prefix() == prefix_len,
    {
        if prefix_len <= 32 {
            Some(Ipv4Subnet { addr, prefix_len })
        } else {
            None
        }
    }

    /// The address the subnet was written with.
    pub fn addr(&self) -> (r: u32)
        ensures
            r == self.base(),
    {
        self.addr
    }

    /// The prefix length.
    pub fn prefix_len(&self) -> (r: u8)
        ensures
            r == self.prefix(),
    {
        self.prefix_len
    }

    /// The block length, as a `u64` (it is `2^32` for a `/0`).
    fn block(&self) -> (r: u64)
        ensures
            r == block_len(self.prefix()),
            1 <= r <= 0x1_0000_0000,
    {
        proof {
            use_type_invariant(self);
            lemma2_to64();
        }
        let n: u8 = 32 - self.prefix_len;
        let mut b: u64 = 1;
        let mut i: u8 = 0;
        while i < n
            invariant
                n == 32 - self.prefix(),
                i <= n,
                b == pow2(i as nat),
                pow2(32) == 0x1_0000_0000,
            decreases n - i,
        {
            proof {
                lemma_pow2_unfold((i + 1) as nat);
                lemma_pow2_monotone(i as nat + 1, 32);
            }
            b = b * 2;
            i = i + 1;
        }
        proof {
            lemma_pow2_monotone(n as nat, 32);
            vstd::arithmetic::power2::lemma_pow2_pos(n as nat);
        }
        b
    }

    /// The network address (host bits cleared).
    pub fn network(&self) -> (r: u32)
        ensures
            r == self.network_spec(),
    {
        proof {
            use_type_invariant(self);
            lemma_block_bounds(self.addr as int, self.prefix_len as nat);
        }
        let b = self.block();
        let a: u64 = self.addr as u64;
        (a - a % b) as u32
    }

    /// The broadcast address (host bits set).
    pub fn broadcast(&self) -> (r: u32)
        ensures
            r == self.broadcast_spec(),
    {
        proof {
            use_type_invariant(self);
            lemma_block_bounds(self.addr as int, self.prefix_len as nat);
        }
        let b = self.block();
        let a: u64 = self.addr as u64;
        (a - a % b + b - 1) as u32
    }

    /// The lowest usable host.
    pub fn first_host(&self) -> (r: u32)
        ensures
            r == self.first_host_spec(),
    {
        proof {
            use_type_invariant(self);
            self.lemma_hosts_in_range();
        }
        let net = self.network();
        if self.prefix_len < 31 {
            net + 1
        } else {
            net
        }
    }

    /// The highest usable host.
    pub fn last_host(&self) -> (r: u32)
        ensures
            r == self.last_host_spec(),
    {
        proof {
            use_type_invariant(self);
            self.lemma_hosts_in_range();
        }
        let bc = self.broadcast();
        if self.prefix_len < 31 {
            bc - 1
        } else {
            bc
        }
    }
}

proof fn lemma_pow2_monotone(a: nat, b: nat)
    requires
        a <= b,
    ensures
        pow2(a) <= pow2(b),
{
    if a < b {
        vstd::arithmetic::power2::lemma_pow2_strictly_increases(a, b);
    }
}

/// The block that holds `addr` lies inside the 32-bit address space.
proof fn lemma_block_bounds(addr: int, prefix: nat)
    requires
        prefix <= 32,
        0 <= addr <= u32::MAX,
    ensures
        0 <= addr - addr % block_len(prefix),
        addr % block_len(prefix) <= addr,
        addr - addr % block_len(prefix) + block_len(prefix) <= 0x1_0000_0000,
{
    let b = block_len(prefix);
    let m = pow2(prefix) as int;
    lemma_pow2_adds((32 - prefix) as nat, prefix);
    lemma2_to64();
    vstd::arithmetic::power2::lemma_pow2_pos((32 - prefix) as nat);
    vstd::arithmetic::power2::lemma_pow2_pos(prefix);
    assert(b * m == 0x1_0000_0000);
    lemma_fundamental_div_mod(addr, b);
    lemma_multiply_divide_lt(addr, b, m);
    let q = addr / b;
    assert(q >= 0) by (nonlinear_arith)
        requires addr >= 0, b > 0, q == addr / b;
    lemma_mul_inequality(q + 1, m, b);
    assert((q + 1) * b == b * q + b) by (nonlinear_arith);
    assert(m * b == b * m) by (nonlinear_arith);
}

/// Where the addresses of one end of a flow come from.
#[derive(Clone, Copy, Debug, PartialEq, Eq, Structural)]
pub enum NetAddr {
    /// A host drawn uniformly from the subnet on every call.
    Subnet(Ipv4Subnet),
    /// The same address on every call.
    Address(u32),
}

impl NetAddr {
    /// Whether `a` is an address this specification may produce.
    pub open spec fn allows(self, a: int) -> bool {
        match self {
            NetAddr::Address(x) => a == x,
            NetAddr::Subnet(n) => n.is_host(a),
        }
    }

    /// One concrete address: the fixed address itself, leaving the generator
    /// untouched, or a usable host of the subnet.
    pub fn get_one(&self, rng: &mut ThreadRng) -> (r: u32)
        ensures
            self.allows(r as int),
            self is Address ==> *final(rng) == *old(rng),
    {
        match self {
            NetAddr::Address(a) => *a,
            NetAddr::Subnet(net) => {
                proof {
                    use_type_invariant(net);
                    net.lemma_hosts_in_range();
                }
                let low = net.first_host();
                let high = net.last_host();
                random_in(rng, low, high)
            },
        }
    }
}

} // verus!
