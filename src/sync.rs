//! Template synchronisation: which packets carry the template, which carry
//! data, and which carry both.

use vstd::prelude::*;
use crate::error::ConfigError;
use crate::flow::PacketKind;
use vstd::arithmetic::div_mod::{lemma_add_mod_noop, lemma_fundamental_div_mod, lemma_fundamental_div_mod_converse};

verus! {

/// Send the template with data in every packet.
#[derive(Clone, Copy, Debug, PartialEq, Eq, Structural)]
pub struct Interleve;

/// Send the template alone in the first packet, and data only afterwards.
#[derive(Clone, Copy, Debug, PartialEq, Eq, Structural)]
pub struct Once {
    /// Whether the template packet has gone out.
    pub template_sent: bool,
}

/// Send the template alone in each packet whose sequence number is a
/// multiple of the period, data only in all others. Sequence numbers start
/// at 1, so the first packet carries data unless the period is 1: the
/// collector is expected to know the template already or to wait for it.
#[derive(Clone, Copy, Debug, PartialEq, Eq, Structural)]
pub struct Every(pub u32);

impl Once {
    /// A strategy that has not yet sent its template.
    pub fn new() -> (r: Once)
        ensures
            !r.template_sent,
    {
        Once { template_sent: false }
    }
}

/// The strategy in force, with the state it needs.
#[derive(Clone, Copy, Debug, PartialEq, Eq, Structural)]
pub enum SyncPolicy {
    Once(Once),
    Every(Every),
    Interleve(Interleve),
}

/// The number of distinct sequence numbers.
pub open spec fn seq_modulus() -> int {
    0x1_0000_0000
}

/// The sequence number that follows `seq`, wrapping after `u32::MAX`.
pub open spec fn next_seq(seq: u32) -> u32 {
    ((seq as int + 1) % seq_modulus()) as u32
}

/// What the packet with sequence number `seq` carries under `policy`, and
/// the policy's state afterwards.
pub open spec fn decide(policy: SyncPolicy, seq: u32) -> (PacketKind, SyncPolicy) {
    match policy {
        SyncPolicy::Once(o) => if !o.template_sent {
            (PacketKind::TemplateOnly, SyncPolicy::Once(Once { template_sent: true }))
        } else {
            (PacketKind::DataOnly, policy)
        },
        SyncPolicy::Every(e) => if seq % e.0 == 0 {
            (PacketKind::TemplateOnly, policy)
        } else {
            (PacketKind::DataOnly, policy)
        },
        SyncPolicy::Interleve(_) => (PacketKind::Combined, policy),
    }
}

impl SyncPolicy {
    /// A period of zero is not a strategy.
    pub open spec fn wf(self) -> bool {
        self matches SyncPolicy::Every(e) ==> e.0 > 0
    }

    /// Classifies the packet with sequence number `seq` and moves the state on.
    pub fn decide(&mut self, seq: u32) -> (r: PacketKind)
        requires
            old(self).wf(),
        ensures
            (r, *final(self)) == decide(*old(self), seq),
            final(self).wf(),
    {
        match self {
            SyncPolicy::Once(o) => {
                if !o.template_sent {
                    o.template_sent = true;
                    PacketKind::TemplateOnly
                } else {
                    PacketKind::DataOnly
                }
            },
            SyncPolicy::Every(e) => {
                if seq % e.0 == 0 {
                    PacketKind::TemplateOnly
                } else {
                    PacketKind::DataOnly
                }
            },
            SyncPolicy::Interleve(_) => PacketKind::Combined,
        }
    }
}

/// The policy and the sequence number after `n` packets, from `policy` and
/// sequence number `seq`.
pub open spec fn state_after(policy: SyncPolicy, seq: u32, n: nat) -> (SyncPolicy, u32)
    decreases n,
{
    if n == 0 {
        (policy, seq)
    } else {
        let (p, s) = state_after(policy, seq, (n - 1) as nat);
        (decide(p, s).1, next_seq(s))
    }
}

/// What packet `i` (counting from 0) carries, from `policy` and `seq`.
pub open spec fn kind_at(policy: SyncPolicy, seq: u32, i: nat) -> PacketKind {
    let (p, s) = state_after(policy, seq, i);
    decide(p, s).0
}

/// The kinds of the first `n` packets.
pub open spec fn run_kinds(policy: SyncPolicy, seq: u32, n: nat) -> Seq<PacketKind> {
    Seq::new(n, |i: int| kind_at(policy, seq, i as nat))
}

/// How many packets of `kinds` are template-only.
pub open spec fn count_template_only(kinds: Seq<PacketKind>) -> nat
    decreases kinds.len(),
{
    if kinds.len() == 0 {
        0
    } else {
        count_template_only(kinds.drop_last()) + if kinds.last() == PacketKind::TemplateOnly {
            1nat
        } else {
            0nat
        }
    }
}

/// A `run_kinds` one packet longer adds that packet's kind at the end.
proof fn lemma_run_kinds_push(policy: SyncPolicy, seq: u32, n: nat)
    ensures
        run_kinds(policy, seq, n + 1).drop_last() == run_kinds(policy, seq, n),
        run_kinds(policy, seq, n + 1).last() == kind_at(policy, seq, n),
{
    assert(run_kinds(policy, seq, n + 1).drop_last() =~= run_kinds(policy, seq, n));
}

/// The sequence counter counts packets: from `seq`, after `n` packets of any
/// strategy it holds `seq + n`, wrapping modulo `2^32`. Starting from 1, the
/// `n`-th packet carries `n` and the counter then holds `n + 1`.
pub proof fn lemma_sequence_counts(policy: SyncPolicy, seq: u32, n: nat)
    ensures
        state_after(policy, seq, n).1 == (seq + n) % seq_modulus(),
    decreases n,
{
    if n > 0 {
        lemma_sequence_counts(policy, seq, (n - 1) as nat);
        lemma_add_mod_noop(seq + n - 1, 1, seq_modulus());
        assert(1int % seq_modulus() == 1);
        assert((seq as int) % seq_modulus() == seq);
    } else {
        assert((seq as int) % seq_modulus() == seq);
    }
}

/// Under `Every` and `Interleve` the policy carries no state that moves.
proof fn lemma_stateless_policy(policy: SyncPolicy, seq: u32, n: nat)
    requires
        !(policy is Once),
    ensures
        state_after(policy, seq, n).0 == policy,
    decreases n,
{
    if n > 0 {
        lemma_stateless_policy(policy, seq, (n - 1) as nat);
    }
}

/// Once the `Once` template has gone out, it never goes out again.
proof fn lemma_once_stays_sent(seq: u32, n: nat)
    requires
        n >= 1,
    ensures
        state_after(SyncPolicy::Once(Once { template_sent: false }), seq, n).0
            == SyncPolicy::Once(Once { template_sent: true }),
    decreases n,
{
    let p = SyncPolicy::Once(Once { template_sent: false });
    if n > 1 {
        lemma_once_stays_sent(seq, (n - 1) as nat);
    } else {
        assert(state_after(p, seq, 0) == (p, seq));
    }
}

/// `Once`: over any run of `n >= 1` packets, the first packet is the only
/// template-only one, and every other packet is data-only.
pub proof fn lemma_once_single_template(seq: u32, n: nat)
    requires
        n >= 1,
    ensures
        kind_at(SyncPolicy::Once(Once { template_sent: false }), seq, 0) == PacketKind::TemplateOnly,
        forall|i: nat|
            1 <= i < n ==> kind_at(SyncPolicy::Once(Once { template_sent: false }), seq, i)
                == PacketKind::DataOnly,
        count_template_only(run_kinds(SyncPolicy::Once(Once { template_sent: false }), seq, n))
            == 1,
    decreases n,
{
    let p = SyncPolicy::Once(Once { template_sent: false });
    assert forall|i: nat| 1 <= i < n implies kind_at(p, seq, i) == PacketKind::DataOnly by {
        lemma_once_stays_sent(seq, i);
    }
    lemma_run_kinds_push(p, seq, (n - 1) as nat);
    if n == 1 {
        assert(run_kinds(p, seq, 0) =~= Seq::<PacketKind>::empty());
        assert(state_after(p, seq, 0) == (p, seq));
        assert(count_template_only(run_kinds(p, seq, 0)) == 0);
    } else {
        lemma_once_single_template(seq, (n - 1) as nat);
    }
}

/// `(L - 1) / k` grows by one exactly when `k` divides `L`.
proof fn lemma_div_step(len: int, k: int)
    requires
        len >= 1,
        k >= 1,
    ensures
        len / k == (len - 1) / k + if len % k == 0 {
            1int
        } else {
            0int
        },
{
    lemma_fundamental_div_mod(len - 1, k);
    let q = (len - 1) / k;
    let r = (len - 1) % k;
    if r == k - 1 {
        assert(len == (q + 1) * k + 0) by (nonlinear_arith)
            requires len - 1 == k * q + r, r == k - 1;
        lemma_fundamental_div_mod_converse(len, k, q + 1, 0);
    } else {
        assert(len == q * k + (r + 1)) by (nonlinear_arith)
            requires len - 1 == k * q + r;
        lemma_fundamental_div_mod_converse(len, k, q, r + 1);
    }
}

/// `Every(k)`: in a run of `len` packets from sequence number 1 (shorter than
/// the sequence space), packet `i` is template-only exactly when `k` divides
/// its sequence number `i + 1`, and data-only otherwise; never both. So
/// `len / k` packets are template-only.
pub proof fn lemma_every_template_count(k: u32, len: nat)
    requires
        k > 0,
        len < seq_modulus(),
    ensures
        forall|i: nat|
            i < len ==> kind_at(SyncPolicy::Every(Every(k)), 1, i) == if (i + 1) as int % (k as int) == 0 {
                PacketKind::TemplateOnly
            } else {
                PacketKind::DataOnly
            },
        count_template_only(run_kinds(SyncPolicy::Every(Every(k)), 1, len)) == len as int / (k as int),
    decreases len,
{
    let p = SyncPolicy::Every(Every(k));
    assert forall|i: nat| i < len implies kind_at(p, 1, i) == if (i + 1) as int % (k as int) == 0 {
        PacketKind::TemplateOnly
    } else {
        PacketKind::DataOnly
    } by {
        lemma_stateless_policy(p, 1, i);
        lemma_sequence_counts(p, 1, i);
        assert((1 + i) as int % seq_modulus() == 1 + i);
    }
    if len == 0 {
        assert(run_kinds(p, 1, 0) =~= Seq::<PacketKind>::empty());
    } else {
        lemma_every_template_count(k, (len - 1) as nat);
        lemma_run_kinds_push(p, 1, (len - 1) as nat);
        lemma_div_step(len as int, k as int);
    }
}

/// `Interleve`: every packet carries a template set and a data set.
pub proof fn lemma_interleve_always_combined(seq: u32, i: nat)
    ensures
        kind_at(SyncPolicy::Interleve(Interleve), seq, i) == PacketKind::Combined,
{
    lemma_stateless_policy(SyncPolicy::Interleve(Interleve), seq, i);
}

/// Choice of strategy as given on the command line: exactly one of the three
/// is meant to be set.
#[derive(Clone, Copy, Debug, PartialEq, Eq, Structural)]
pub struct TemplateSyncStrategy {
    pub once: bool,
    pub interleve: bool,
    pub every: Option<u32>,
}

impl TemplateSyncStrategy {
    /// The policy chosen: interleaving first, then once, then a period.
    pub open spec fn spec_policy(self) -> Result<SyncPolicy, ConfigError> {
        if self.interleve {
            Ok(SyncPolicy::Interleve(Interleve))
        } else if self.once {
            Ok(SyncPolicy::Once(Once { template_sent: false }))
        } else {
            match self.every {
                Some(k) => if k > 0 {
                    Ok(SyncPolicy::Every(Every(k)))
                } else {
                    Err(ConfigError::ZeroTemplatePeriod)
                },
                None => Err(ConfigError::MissingStrategy),
            }
        }
    }

    /// The policy these options select, in a state where nothing was sent.
    pub fn policy(&self) -> (r: Result<SyncPolicy, ConfigError>)
        ensures
            r == self.spec_policy(),
            r matches Ok(p) ==> p.wf(),
    {
        if self.interleve {
            Ok(SyncPolicy::Interleve(Interleve))
        } else if self.once {
            Ok(SyncPolicy::Once(Once::new()))
        } else {
            match self.every {
                Some(k) => if k > 0 {
                    Ok(SyncPolicy::Every(Every(k)))
                } else {
                    Err(ConfigError::ZeroTemplatePeriod)
                },
                None => Err(ConfigError::MissingStrategy),
            }
        }
    }
}

} // verus!
