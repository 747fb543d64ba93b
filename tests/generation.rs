use flowgen::{
    FieldKind, FieldSpecifier, FlowPacket, FlowRecord, FlowSet, Ipv4Subnet, NetAddr,
    NetFlowGenBuilder, NetFlowGenerator, PacketKind, PortRange, Protocol, SyncPolicy,
};

const fn ip(a: u32, b: u32, c: u32, d: u32) -> u32 {
    (a << 24) | (b << 16) | (c << 8) | d
}

fn kind_of(p: &FlowPacket) -> PacketKind {
    match p.sets.as_slice() {
        [FlowSet::Template(_)] => PacketKind::TemplateOnly,
        [FlowSet::Data { .. }] => PacketKind::DataOnly,
        [FlowSet::Template(_), FlowSet::Data { .. }] => PacketKind::Combined,
        _ => panic!("unexpected set layout"),
    }
}

fn records_of(p: &FlowPacket) -> Vec<FlowRecord> {
    let mut out = Vec::new();
    for s in &p.sets {
        if let FlowSet::Data { records, .. } = s {
            out.extend(records.iter().copied());
        }
    }
    out
}

fn fixed_builder() -> NetFlowGenBuilder {
    NetFlowGenBuilder::default()
        .with_src_ip(NetAddr::Address(ip(10, 0, 0, 1)))
        .with_dst_ip(NetAddr::Address(ip(10, 0, 0, 2)))
        .with_src_ports(PortRange::single(1000))
        .with_dst_ports(PortRange::single(2000))
}

fn run(generator: &mut NetFlowGenerator, n: usize) -> Vec<FlowPacket> {
    (0..n).map(|_| generator.next()).collect()
}

#[test]
fn once_scenario_three_packets() {
    let (template, mut generator) = fixed_builder().send_template_once(307);
    assert_eq!(template.id, 307);
    let packets = run(&mut generator, 3);
    assert_eq!(kind_of(&packets[0]), PacketKind::TemplateOnly);
    assert_eq!(kind_of(&packets[1]), PacketKind::DataOnly);
    assert_eq!(kind_of(&packets[2]), PacketKind::DataOnly);
    for p in &packets[1..] {
        let recs = records_of(p);
        assert_eq!(recs.len(), 1);
        let r = recs[0];
        assert_eq!(
            (r.src_addr, r.dst_addr, r.src_port, r.dst_port),
            (ip(10, 0, 0, 1), ip(10, 0, 0, 2), 1000, 2000)
        );
        assert_eq!(r.protocol, Protocol::TCP);
        assert_eq!(r.src_mac, [0; 6]);
    }
    let seqs: Vec<u32> = packets.iter().map(|p| p.sequence).collect();
    assert_eq!(seqs, vec![1, 2, 3]);
}

#[test]
fn once_sends_a_single_template_over_a_long_run() {
    let (_, mut generator) = fixed_builder().send_template_once(300);
    let packets = run(&mut generator, 500);
    let templates: Vec<usize> = packets
        .iter()
        .enumerate()
        .filter(|(_, p)| kind_of(p) == PacketKind::TemplateOnly)
        .map(|(i, _)| i)
        .collect();
    assert_eq!(templates, vec![0]);
    assert!(packets[1..].iter().all(|p| kind_of(p) == PacketKind::DataOnly));
}

#[test]
fn every_three_scenario() {
    let (_, mut generator) = fixed_builder().send_template_every(307, 3);
    let packets = run(&mut generator, 9);
    let template_seqs: Vec<u32> = packets
        .iter()
        .filter(|p| kind_of(p) == PacketKind::TemplateOnly)
        .map(|p| p.sequence)
        .collect();
    assert_eq!(template_seqs, vec![3, 6, 9]);
    assert!(packets.iter().all(|p| kind_of(p) != PacketKind::Combined));
}

#[test]
fn every_count_is_floor_of_length_over_period() {
    for (len, k) in [(10usize, 4u32), (12, 4), (7, 1), (5, 9), (100, 7)] {
        let (_, mut generator) = fixed_builder().send_template_every(400, k);
        let packets = run(&mut generator, len);
        let count = packets.iter().filter(|p| kind_of(p) == PacketKind::TemplateOnly).count();
        assert_eq!(count, len / k as usize);
    }
}

#[test]
fn interleave_packets_carry_template_and_data() {
    let (_, mut generator) = fixed_builder().send_template_with_data(307);
    for p in run(&mut generator, 20) {
        assert_eq!(kind_of(&p), PacketKind::Combined);
        match &p.sets[0] {
            FlowSet::Template(t) => {
                assert_eq!(t.len(), 1);
                assert_eq!(t[0].id, 307);
            }
            _ => panic!("template set expected first"),
        }
        match &p.sets[1] {
            FlowSet::Data { template_id, records } => {
                assert_eq!(*template_id, 307);
                assert_eq!(records.len(), 1);
            }
            _ => panic!("data set expected second"),
        }
    }
}

#[test]
fn sequence_counts_packets_for_every_strategy() {
    let builders = [
        fixed_builder().send_template_once(307).1,
        fixed_builder().send_template_every(307, 2).1,
        fixed_builder().send_template_with_data(307).1,
    ];
    for mut generator in builders {
        assert_eq!(generator.seq(), 1);
        for n in 1..=25u32 {
            let p = generator.next();
            assert_eq!(p.sequence, n);
            assert_eq!(generator.seq(), n + 1);
        }
    }
}

#[test]
fn packets_are_stamped_with_given_times() {
    let (_, mut generator) = fixed_builder().send_template_every(307, 2);
    let p = generator.next_packet_at(77, 1_700_000_000);
    assert_eq!((p.uptime, p.unix_secs, p.sequence, p.source_id), (77, 1_700_000_000, 1, 0));
    assert_eq!(kind_of(&p), PacketKind::DataOnly);
    let p = generator.next_packet_at(78, 1_700_000_001);
    assert_eq!(kind_of(&p), PacketKind::TemplateOnly);
    assert_eq!(generator.policy(), SyncPolicy::Every(flowgen::Every(2)));
    assert_eq!(generator.template_id(), 307);
}

#[test]
fn subnet_and_range_records_stay_in_bounds() {
    let (_, mut generator) = NetFlowGenBuilder::default()
        .with_src_ip(NetAddr::Subnet(Ipv4Subnet::new(ip(192, 168, 1, 0), 30).unwrap()))
        .with_dst_ports(PortRange::new(5000, 5003).unwrap())
        .with_protocol(Protocol::ICMP)
        .with_src_mac([1, 2, 3, 4, 5, 6])
        .with_dst_mac([6, 5, 4, 3, 2, 1])
        .send_template_with_data(256);
    for _ in 0..100 {
        let r = generator.data_record();
        assert!(r.src_addr == ip(192, 168, 1, 1) || r.src_addr == ip(192, 168, 1, 2));
        assert_eq!(r.dst_addr, ip(70, 1, 135, 2));
        assert_eq!(r.src_port, 42069);
        assert!((5000..=5003).contains(&r.dst_port));
        assert_eq!(r.protocol, Protocol::ICMP);
        assert_eq!((r.src_mac, r.dst_mac), ([1, 2, 3, 4, 5, 6], [6, 5, 4, 3, 2, 1]));
    }
}

#[test]
fn default_builder_values() {
    let b = NetFlowGenBuilder::default();
    assert_eq!(b.src, NetAddr::Address(ip(70, 1, 135, 1)));
    assert_eq!(b.dst, NetAddr::Address(ip(70, 1, 135, 2)));
    assert_eq!(b.src_ports, PortRange::single(42069));
    assert_eq!(b.dst_ports, PortRange::single(6969));
    assert_eq!(b.protocol, Protocol::TCP);
    assert_eq!((b.src_mac, b.dst_mac), ([0; 6], [0; 6]));
}

#[test]
fn template_layout() {
    let (template, generator) = fixed_builder().send_template_once(999);
    assert_eq!(template.id, 999);
    let expected = [
        (FieldKind::SourceIpv4Address, 4),
        (FieldKind::DestinationIpv4Address, 4),
        (FieldKind::SourceTransportPort, 2),
        (FieldKind::DestinationTransportPort, 2),
        (FieldKind::SourceMacAddress, 6),
        (FieldKind::DestinationMacAddress, 6),
        (FieldKind::ProtocolIdentifier, 1),
    ];
    let got: Vec<(FieldKind, u16)> =
        template.fields.iter().map(|f: &FieldSpecifier| (f.kind, f.length)).collect();
    assert_eq!(got, expected.to_vec());
    let p = generator.template_packet(0, 0);
    assert_eq!(kind_of(&p), PacketKind::TemplateOnly);
}
