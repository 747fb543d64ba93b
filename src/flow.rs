//! The logical content of flow-export packets: flow records, the template
//! that describes them, and the sets a packet is made of.

use vstd::prelude::*;

verus! {

/// The transport protocol reported in every flow record.
#[allow(clippy::upper_case_acronyms)]
#[derive(Clone, Copy, Debug, PartialEq, Eq, Structural)]
pub enum Protocol {
    TCP,
    ICMP,
}

impl Protocol {
    /// The IANA protocol number.
    pub open spec fn spec_number(self) -> u8 {
        match self {
            Protocol::TCP => 6,
            Protocol::ICMP => 1,
        }
    }

    /// The name the protocol is written with on the command line.
    pub open spec fn spec_name(self) -> Seq<char> {
        match self {
            Protocol::TCP => seq!['T', 'C', 'P'],
            Protocol::ICMP => seq!['I', 'C', 'M', 'P'],
        }
    }

    /// The IANA protocol number: 6 for TCP, 1 for ICMP.
    pub fn number(&self) -> (r: u8)
        ensures
            r == self.spec_number(),
    {
        match self {
            Protocol::TCP => 6,
            Protocol::ICMP => 1,
        }
    }

    /// The protocol's name, `"TCP"` or `"ICMP"`.
    pub fn name(&self) -> (r: &'static str)
        ensures
            r@ == self.spec_name(),
    {
        proof {
            reveal_strlit("TCP");
            reveal_strlit("ICMP");
        }
        match self {
            Protocol::TCP => {
                assert("TCP"@ =~= seq!['T', 'C', 'P']);
                "TCP"
            },
            Protocol::ICMP => {
                assert("ICMP"@ =~= seq!['I', 'C', 'M', 'P']);
                "ICMP"
            },
        }
    }
}

/// One simulated flow: its end points, link-layer addresses and protocol.
#[derive(Clone, Copy, Debug, PartialEq, Eq)]
pub struct FlowRecord {
    pub src_addr: u32,
    pub dst_addr: u32,
    pub src_port: u16,
    pub dst_port: u16,
    pub src_mac: [u8; 6],
    pub dst_mac: [u8; 6],
    pub protocol: Protocol,
}

/// The information elements a flow record is made of.
#[derive(Clone, Copy, Debug, PartialEq, Eq, Structural)]
pub enum FieldKind {
    SourceIpv4Address,
    DestinationIpv4Address,
    SourceTransportPort,
    DestinationTransportPort,
    SourceMacAddress,
    DestinationMacAddress,
    ProtocolIdentifier,
}

/// One field of a template: which element, and how many bytes it takes.
#[derive(Clone, Copy, Debug, PartialEq, Eq, Structural)]
pub struct FieldSpecifier {
    pub kind: FieldKind,
    pub length: u16,
}

/// The layout of a flow record on the wire, in order.
pub open spec fn record_layout() -> Seq<FieldSpecifier> {
    seq![
        FieldSpecifier { kind: FieldKind::SourceIpv4Address, length: 4 },
        FieldSpecifier { kind: FieldKind::DestinationIpv4Address, length: 4 },
        FieldSpecifier { kind: FieldKind::SourceTransportPort, length: 2 },
        FieldSpecifier { kind: FieldKind::DestinationTransportPort, length: 2 },
        FieldSpecifier { kind: FieldKind::SourceMacAddress, length: 6 },
        FieldSpecifier { kind: FieldKind::DestinationMacAddress, length: 6 },
        FieldSpecifier { kind: FieldKind::ProtocolIdentifier, length: 1 },
    ]
}

/// A template: the identifier data sets refer to, and the field layout.
#[derive(Debug)]
pub struct TemplateRecord {
    pub id: u16,
    pub fields: Vec<FieldSpecifier>,
}

impl TemplateRecord {
    /// The template with identifier `id` that describes a `FlowRecord`.
    pub fn for_flow_records(id: u16) -> (r: TemplateRecord)
        ensures
            r.id == id,
            r.fields@ == record_layout(),
    {
        let mut fields: Vec<FieldSpecifier> = Vec::new();
        fields.push(FieldSpecifier { kind: FieldKind::SourceIpv4Address, length: 4 });
        fields.push(FieldSpecifier { kind: FieldKind::DestinationIpv4Address, length: 4 });
        fields.push(FieldSpecifier { kind: FieldKind::SourceTransportPort, length: 2 });
        fields.push(FieldSpecifier { kind: FieldKind::DestinationTransportPort, length: 2 });
        fields.push(FieldSpecifier { kind: FieldKind::SourceMacAddress, length: 6 });
        fields.push(FieldSpecifier { kind: FieldKind::DestinationMacAddress, length: 6 });
        fields.push(FieldSpecifier { kind: FieldKind::ProtocolIdentifier, length: 1 });
        assert(fields@ =~= record_layout());
        TemplateRecord { id, fields }
    }
}

/// One set of a packet: template descriptions or data records.
#[derive(Debug)]
pub enum FlowSet {
    Template(Vec<TemplateRecord>),
    Data { template_id: u16, records: Vec<FlowRecord> },
}

/// A packet as handed to the wire encoder: header fields and its sets.
#[derive(Debug)]
pub struct FlowPacket {
    /// Seconds since the exporting system booted.
    pub uptime: u32,
    /// Export time, in seconds since the Unix epoch.
    pub unix_secs: i64,
    /// The packet's sequence number.
    pub sequence: u32,
    /// The exporter's source identifier.
    pub source_id: u32,
    pub sets: Vec<FlowSet>,
}

/// What a packet carries.
#[derive(Clone, Copy, Debug, PartialEq, Eq, Structural)]
pub enum PacketKind {
    /// A single template set and nothing else.
    TemplateOnly,
    /// A single data set and nothing else.
    DataOnly,
    /// A template set followed by a data set.
    Combined,
}

/// Whether a set is a template set holding exactly the flow-record template
/// with identifier `id`.
pub open spec fn is_template_set(s: FlowSet, id: u16) -> bool {
    match s {
        FlowSet::Template(t) => t@.len() == 1 && t@[0].id == id && t@[0].fields@
            == record_layout(),
        _ => false,
    }
}

/// Whether a set is a data set for template `id` holding `n` records.
pub open spec fn is_data_set(s: FlowSet, id: u16, n: nat) -> bool {
    match s {
        FlowSet::Data { template_id, records } => template_id == id && records@.len() == n,
        _ => false,
    }
}

/// Whether the sets of a packet are those its kind calls for, for template
/// `id` and `n` records per data set.
pub open spec fn sets_match(sets: Seq<FlowSet>, kind: PacketKind, id: u16, n: nat) -> bool {
    match kind {
        PacketKind::TemplateOnly => sets.len() == 1 && is_template_set(sets[0], id),
        PacketKind::DataOnly => sets.len() == 1 && is_data_set(sets[0], id, n),
        PacketKind::Combined => sets.len() == 2 && is_template_set(sets[0], id)
            && is_data_set(sets[1], id, n),
    }
}

} // verus!
