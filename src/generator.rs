//! The packet generator: builds flow records from the configured selectors
//! and lays them into packets as the synchronisation strategy decides.

use vstd::prelude::*;
use rand::rngs::ThreadRng;
use crate::addr::NetAddr;
use crate::external::{system_uptime, thread_rng, unix_now};
use crate::flow::{
    is_data_set, is_template_set, record_layout, sets_match, FlowPacket, FlowRecord, FlowSet,
    PacketKind, Protocol, TemplateRecord,
};
use crate::ports::PortRange;
use crate::sync::{decide, next_seq, Every, Interleve, Once, SyncPolicy};

verus! {

/// The configuration a generator is built from.
pub struct NetFlowGenBuilder {
    pub src: NetAddr,
    pub dst: NetAddr,
    pub src_ports: PortRange,
    pub dst_ports: PortRange,
    pub protocol: Protocol,
    pub src_mac: [u8; 6],
    pub dst_mac: [u8; 6],
}

/// `70.1.135.1`, the source address when none is configured.
pub const DEFAULT_SRC_ADDR: u32 = 0x4601_8701;

/// `70.1.135.2`, the destination address when none is configured.
pub const DEFAULT_DST_ADDR: u32 = 0x4601_8702;

/// The source port when none is configured.
pub const DEFAULT_SRC_PORT: u16 = 42069;

/// The destination port when none is configured.
pub const DEFAULT_DST_PORT: u16 = 6969;

impl Default for NetFlowGenBuilder {
    /// Fixed addresses and ports, TCP, and all-zero MAC addresses.
    fn default() -> (r: Self)
        ensures
            r.src == NetAddr::Address(DEFAULT_SRC_ADDR),
            r.dst == NetAddr::Address(DEFAULT_DST_ADDR),
            r.src_ports == PortRange::spec_single(DEFAULT_SRC_PORT),
            r.dst_ports == PortRange::spec_single(DEFAULT_DST_PORT),
            r.protocol == Protocol::TCP,
            r.src_mac@ == seq![0u8, 0, 0, 0, 0, 0],
            r.dst_mac@ == seq![0u8, 0, 0, 0, 0, 0],
    {
        let r = NetFlowGenBuilder {
            src: NetAddr::Address(DEFAULT_SRC_ADDR),
            dst: NetAddr::Address(DEFAULT_DST_ADDR),
            src_ports: PortRange::single(DEFAULT_SRC_PORT),
            dst_ports: PortRange::single(DEFAULT_DST_PORT),
            protocol: Protocol::TCP,
            src_mac: [0u8; 6],
            dst_mac: [0u8; 6],
        };
        assert(r.src_mac@ =~= seq![0u8, 0, 0, 0, 0, 0]);
        assert(r.dst_mac@ =~= seq![0u8, 0, 0, 0, 0, 0]);
        r
    }
}

/// Emits packets forever, one per call of `next`.
pub struct NetFlowGenerator {
    src: NetAddr,
    dst: NetAddr,
    src_port: PortRange,
    dst_port: PortRange,
    protocol: Protocol,
    src_mac: [u8; 6],
    dst_mac: [u8; 6],
    seq: u32,
    template_id: u16,
    rng: ThreadRng,
    sync_strategy: SyncPolicy,
    data_records_per_packet: u8,
}

impl NetFlowGenerator {
    /// The strategy is well formed (a period is never zero).
    pub open spec fn wf(self) -> bool {
        self.spec_policy().wf()
    }

    /// Source address specification.
    pub closed spec fn spec_src(self) -> NetAddr {
        self.src
    }

    /// Destination address specification.
    pub closed spec fn spec_dst(self) -> NetAddr {
        self.dst
    }

    /// Source ports.
    pub closed spec fn spec_src_ports(self) -> PortRange {
        self.src_port
    }

    /// Destination ports.
    pub closed spec fn spec_dst_ports(self) -> PortRange {
        self.dst_port
    }

    /// Protocol of every record.
    pub closed spec fn spec_protocol(self) -> Protocol {
        self.protocol
    }

    /// Source MAC address of every record.
    pub closed spec fn spec_src_mac(self) -> Seq<u8> {
        self.src_mac@
    }

    /// Destination MAC address of every record.
    pub closed spec fn spec_dst_mac(self) -> Seq<u8> {
        self.dst_mac@
    }

    /// The sequence number the next packet will carry.
    pub closed spec fn spec_seq(self) -> u32 {
        self.seq
    }

    /// The identifier of the one template.
    pub closed spec fn spec_template_id(self) -> u16 {
        self.template_id
    }

    /// The synchronisation strategy and its state.
    pub closed spec fn spec_policy(self) -> SyncPolicy {
        self.sync_strategy
    }

    /// Records per data set.
    pub closed spec fn spec_records_per_packet(self) -> nat {
        self.data_records_per_packet as nat
    }

    /// Whether `r` is a record this generator may produce.
    pub open spec fn allows_record(self, r: FlowRecord) -> bool {
        &&& self.spec_src().allows(r.src_addr as int)
        &&& self.spec_dst().allows(r.dst_addr as int)
        &&& self.spec_src_ports().contains(r.src_port as int)
        &&& self.spec_dst_ports().contains(r.dst_port as int)
        &&& r.src_mac@ == self.spec_src_mac()
        &&& r.dst_mac@ == self.spec_dst_mac()
        &&& r.protocol == self.spec_protocol()
    }

    /// Whether every record of every data set among `sets` is allowed.
    pub open spec fn allows_sets(self, sets: Seq<FlowSet>) -> bool {
        forall|i: int|
            0 <= i < sets.len() ==> match #[trigger] sets[i] {
                FlowSet::Data { records, .. } => forall|j: int|
                    0 <= j < records@.len() ==> self.allows_record(#[trigger] records@[j]),
                _ => true,
            }
    }

    /// Whether `self` has the configuration of `other` (all but the
    /// sequence number, the strategy's state and the random generator).
    pub open spec fn same_config(self, other: NetFlowGenerator) -> bool {
        &&& self.spec_src() == other.spec_src()
        &&& self.spec_dst() == other.spec_dst()
        &&& self.spec_src_ports() == other.spec_src_ports()
        &&& self.spec_dst_ports() == other.spec_dst_ports()
        &&& self.spec_protocol() == other.spec_protocol()
        &&& self.spec_src_mac() == other.spec_src_mac()
        &&& self.spec_dst_mac() == other.spec_dst_mac()
        &&& self.spec_template_id() == other.spec_template_id()
        &&& self.spec_records_per_packet() == other.spec_records_per_packet()
    }

    /// The sequence number the next packet will carry.
    pub fn seq(&self) -> (r: u32)
        ensures
            r == self.spec_seq(),
    {
        self.seq
    }

    /// The identifier of the one template.
    pub fn template_id(&self) -> (r: u16)
        ensures
            r == self.spec_template_id(),
    {
        self.template_id
    }

    /// The synchronisation strategy and its state.
    pub fn policy(&self) -> (r: SyncPolicy)
        ensures
            r == self.spec_policy(),
    {
        self.sync_strategy
    }

    /// One flow record: one draw for each address and port, and the fixed
    /// MAC addresses and protocol.
    pub fn data_record(&mut self) -> (r: FlowRecord)
        ensures
            old(self).allows_record(r),
            final(self).same_config(*old(self)),
            final(self).spec_seq() == old(self).spec_seq(),
            final(self).spec_policy() == old(self).spec_policy(),
    {
        let src_addr = self.src.get_one(&mut self.rng);
        let dst_addr = self.dst.get_one(&mut self.rng);
        let src_port = self.src_port.get_one(&mut self.rng);
        let dst_port = self.dst_port.get_one(&mut self.rng);
        FlowRecord {
            src_addr,
            dst_addr,
            src_port,
            dst_port,
            src_mac: self.src_mac,
            dst_mac: self.dst_mac,
            protocol: self.protocol,
        }
    }

    /// The records of one data set.
    pub fn data_records(&mut self) -> (r: Vec<FlowRecord>)
        ensures
            r@.len() == old(self).spec_records_per_packet(),
            forall|j: int| 0 <= j < r@.len() ==> old(self).allows_record(#[trigger] r@[j]),
            final(self).same_config(*old(self)),
            final(self).spec_seq() == old(self).spec_seq(),
            final(self).spec_policy() == old(self).spec_policy(),
    {
        let ghost start = *self;
        let mut records: Vec<FlowRecord> = Vec::new();
        let mut i: u8 = 0;
        while i < self.data_records_per_packet
            invariant
                i <= self.data_records_per_packet,
                records@.len() == i,
                self.same_config(start),
                self.spec_seq() == start.spec_seq(),
                self.spec_policy() == start.spec_policy(),
                forall|j: int| 0 <= j < records@.len() ==> start.allows_record(#[trigger] records@[j]),
            decreases self.data_records_per_packet - i,
        {
            let rec = self.data_record();
            records.push(rec);
            i = i + 1;
        }
        records
    }

    fn template_set(&self) -> (r: FlowSet)
        ensures
            is_template_set(r, self.spec_template_id()),
    {
        let mut templates: Vec<TemplateRecord> = Vec::new();
        templates.push(TemplateRecord::for_flow_records(self.template_id));
        FlowSet::Template(templates)
    }

    fn data_set(&mut self) -> (r: FlowSet)
        ensures
            is_data_set(r, old(self).spec_template_id(), old(self).spec_records_per_packet()),
            old(self).allows_sets(seq![r]),
            final(self).same_config(*old(self)),
            final(self).spec_seq() == old(self).spec_seq(),
            final(self).spec_policy() == old(self).spec_policy(),
    {
        let records = self.data_records();
        let r = FlowSet::Data { template_id: self.template_id, records };
        assert(seq![r][0] == r);
        r
    }

    /// A packet that holds the template alone.
    pub fn template_packet(&self, uptime: u32, unix_secs: i64) -> (r: FlowPacket)
        ensures
            r.uptime == uptime,
            r.unix_secs == unix_secs,
            r.sequence == self.spec_seq(),
            r.source_id == 0,
            sets_match(r.sets@, PacketKind::TemplateOnly, self.spec_template_id(), self.spec_records_per_packet()),
    {
        let mut sets: Vec<FlowSet> = Vec::new();
        sets.push(self.template_set());
        FlowPacket { uptime, unix_secs, sequence: self.seq, source_id: 0, sets }
    }

    /// A packet that holds one data set alone.
    pub fn data_packet(&mut self, uptime: u32, unix_secs: i64) -> (r: FlowPacket)
        ensures
            r.uptime == uptime,
            r.unix_secs == unix_secs,
            r.sequence == old(self).spec_seq(),
            r.source_id == 0,
            sets_match(r.sets@, PacketKind::DataOnly, old(self).spec_template_id(), old(self).spec_records_per_packet()),
            old(self).allows_sets(r.sets@),
            final(self).same_config(*old(self)),
            final(self).spec_seq() == old(self).spec_seq(),
            final(self).spec_policy() == old(self).spec_policy(),
    {
        let set = self.data_set();
        let mut sets: Vec<FlowSet> = Vec::new();
        sets.push(set);
        assert(sets@ =~= seq![set]);
        FlowPacket { uptime, unix_secs, sequence: self.seq, source_id: 0, sets }
    }

    /// A packet that holds the template followed by one data set.
    pub fn mixed_packet(&mut self, uptime: u32, unix_secs: i64) -> (r: FlowPacket)
        ensures
            r.uptime == uptime,
            r.unix_secs == unix_secs,
            r.sequence == old(self).spec_seq(),
            r.source_id == 0,
            sets_match(r.sets@, PacketKind::Combined, old(self).spec_template_id(), old(self).spec_records_per_packet()),
            old(self).allows_sets(r.sets@),
            final(self).same_config(*old(self)),
            final(self).spec_seq() == old(self).spec_seq(),
            final(self).spec_policy() == old(self).spec_policy(),
    {
        let template = self.template_set();
        let data = self.data_set();
        let mut sets: Vec<FlowSet> = Vec::new();
        sets.push(template);
        sets.push(data);
        assert(sets@ =~= seq![template, data]);
        assert forall|i: int| 0 <= i < sets@.len() implies match #[trigger] sets@[i] {
            FlowSet::Data { records, .. } => forall|j: int|
                0 <= j < records@.len() ==> old(self).allows_record(#[trigger] records@[j]),
            _ => true,
        } by {
            if i == 1 {
                assert(seq![data][0] == data);
            }
        }
        FlowPacket { uptime, unix_secs, sequence: self.seq, source_id: 0, sets }
    }

    /// The next packet, stamped with the given uptime and export time: its
    /// kind is what the strategy decides for the current sequence number,
    /// and the sequence number then moves on by one, wrapping after
    /// `u32::MAX`.
    pub fn next_packet_at(&mut self, uptime: u32, unix_secs: i64) -> (r: FlowPacket)
        requires
            old(self).wf(),
        ensures
            final(self).wf(),
            r.uptime == uptime,
            r.unix_secs == unix_secs,
            r.sequence == old(self).spec_seq(),
            r.source_id == 0,
            sets_match(
                r.sets@,
                decide(old(self).spec_policy(), old(self).spec_seq()).0,
                old(self).spec_template_id(),
                old(self).spec_records_per_packet(),
            ),
            old(self).allows_sets(r.sets@),
            final(self).same_config(*old(self)),
            final(self).spec_policy() == decide(old(self).spec_policy(), old(self).spec_seq()).1,
            final(self).spec_seq() == next_seq(old(self).spec_seq()),
    {
        let kind = self.sync_strategy.decide(self.seq);
        let pkt = match kind {
            PacketKind::TemplateOnly => {
                let p = self.template_packet(uptime, unix_secs);
                assert forall|i: int| 0 <= i < p.sets@.len() implies match #[trigger] p.sets@[i] {
                    FlowSet::Data { records, .. } => forall|j: int|
                        0 <= j < records@.len() ==> old(self).allows_record(#[trigger] records@[j]),
                    _ => true,
                } by {}
                p
            },
            PacketKind::DataOnly => self.data_packet(uptime, unix_secs),
            PacketKind::Combined => self.mixed_packet(uptime, unix_secs),
        };
        self.seq = self.seq.wrapping_add(1);
        pkt
    }

    /// The next packet, stamped with the machine's uptime (in seconds,
    /// truncated to 32 bits) and the current time.
    pub fn next(&mut self) -> (r: FlowPacket)
        requires
            old(self).wf(),
        ensures
            final(self).wf(),
            r.sequence == old(self).spec_seq(),
            r.source_id == 0,
            sets_match(
                r.sets@,
                decide(old(self).spec_policy(), old(self).spec_seq()).0,
                old(self).spec_template_id(),
                old(self).spec_records_per_packet(),
            ),
            old(self).allows_sets(r.sets@),
            final(self).same_config(*old(self)),
            final(self).spec_policy() == decide(old(self).spec_policy(), old(self).spec_seq()).1,
            final(self).spec_seq() == next_seq(old(self).spec_seq()),
    {
        let up = system_uptime();
        let uptime = (up % 0x1_0000_0000) as u32;
        let now = unix_now();
        self.next_packet_at(uptime, now)
    }
}

impl NetFlowGenBuilder {
    pub fn with_src_ip(self, src: NetAddr) -> (r: Self)
        ensures
            r == (NetFlowGenBuilder { src, ..self }),
    {
        NetFlowGenBuilder { src, ..self }
    }

    pub fn with_dst_ip(self, dst: NetAddr) -> (r: Self)
        ensures
            r == (NetFlowGenBuilder { dst, ..self }),
    {
        NetFlowGenBuilder { dst, ..self }
    }

    pub fn with_src_ports(self, range: PortRange) -> (r: Self)
        ensures
            r == (NetFlowGenBuilder { src_ports: range, ..self }),
    {
        NetFlowGenBuilder { src_ports: range, ..self }
    }

    pub fn with_dst_ports(self, range: PortRange) -> (r: Self)
        ensures
            r == (NetFlowGenBuilder { dst_ports: range, ..self }),
    {
        NetFlowGenBuilder { dst_ports: range, ..self }
    }

    pub fn with_protocol(self, protocol: Protocol) -> (r: Self)
        ensures
            r == (NetFlowGenBuilder { protocol, ..self }),
    {
        NetFlowGenBuilder { protocol, ..self }
    }

    pub fn with_src_mac(self, mac: [u8; 6]) -> (r: Self)
        ensures
            r == (NetFlowGenBuilder { src_mac: mac, ..self }),
    {
        NetFlowGenBuilder { src_mac: mac, ..self }
    }

    pub fn with_dst_mac(self, mac: [u8; 6]) -> (r: Self)
        ensures
            r == (NetFlowGenBuilder { dst_mac: mac, ..self }),
    {
        NetFlowGenBuilder { dst_mac: mac, ..self }
    }

    /// Whether `g` is a fresh generator for this configuration, template `id`
    /// and strategy `strat`: its first packet carries sequence number 1.
    pub open spec fn builds(self, g: NetFlowGenerator, id: u16, strat: SyncPolicy) -> bool {
        &&& g.spec_src() == self.src
        &&& g.spec_dst() == self.dst
        &&& g.spec_src_ports() == self.src_ports
        &&& g.spec_dst_ports() == self.dst_ports
        &&& g.spec_protocol() == self.protocol
        &&& g.spec_src_mac() == self.src_mac@
        &&& g.spec_dst_mac() == self.dst_mac@
        &&& g.spec_seq() == 1
        &&& g.spec_template_id() == id
        &&& g.spec_policy() == strat
        &&& g.spec_records_per_packet() == 1
    }

    /// The generator for strategy `strat`, with the template it announces.
    pub fn build(self, template_id: u16, strat: SyncPolicy) -> (r: (TemplateRecord, NetFlowGenerator))
        requires
            strat.wf(),
        ensures
            r.0.id == template_id,
            r.0.fields@ == record_layout(),
            self.builds(r.1, template_id, strat),
            r.1.wf(),
    {
        let template = TemplateRecord::for_flow_records(template_id);
        let generator = NetFlowGenerator {
            src: self.src,
            dst: self.dst,
            src_port: self.src_ports,
            dst_port: self.dst_ports,
            protocol: self.protocol,
            src_mac: self.src_mac,
            dst_mac: self.dst_mac,
            seq: 1,
            template_id,
            rng: thread_rng(),
            sync_strategy: strat,
            data_records_per_packet: 1,
        };
        (template, generator)
    }

    /// A generator that sends the template alone in its first packet only.
    pub fn send_template_once(self, template_id: u16) -> (r: (TemplateRecord, NetFlowGenerator))
        ensures
            r.0.id == template_id,
            r.0.fields@ == record_layout(),
            self.builds(r.1, template_id, SyncPolicy::Once(Once { template_sent: false })),
            r.1.wf(),
    {
        self.build(template_id, SyncPolicy::Once(Once::new()))
    }

    /// A generator that sends the template alone whenever the sequence
    /// number is a multiple of `every`.
    pub fn send_template_every(self, template_id: u16, every: u32) -> (r: (
        TemplateRecord,
        NetFlowGenerator,
    ))
        requires
            every > 0,
        ensures
            r.0.id == template_id,
            r.0.fields@ == record_layout(),
            self.builds(r.1, template_id, SyncPolicy::Every(Every(every))),
            r.1.wf(),
    {
        self.build(template_id, SyncPolicy::Every(Every(every)))
    }

    /// A generator that sends the template with the data in every packet.
    pub fn send_template_with_data(self, template_id: u16) -> (r: (
        TemplateRecord,
        NetFlowGenerator,
    ))
        ensures
            r.0.id == template_id,
            r.0.fields@ == record_layout(),
            self.builds(r.1, template_id, SyncPolicy::Interleve(Interleve)),
            r.1.wf(),
    {
        self.build(template_id, SyncPolicy::Interleve(Interleve))
    }
}

} // verus!
