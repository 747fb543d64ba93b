use flowgen::{
    parse_mac, parse_port_range, parse_protocol, ConfigError, DstPort, Every, Interleve, Once,
    PortRange, Protocol, SrcPort, SyncPolicy, TemplateSyncStrategy,
};

#[test]
fn mac_with_colons() {
    assert_eq!(parse_mac("00:1b:44:11:3a:b7"), Ok([0x00, 0x1b, 0x44, 0x11, 0x3a, 0xb7]));
}

#[test]
fn mac_with_dashes_and_upper_case() {
    assert_eq!(parse_mac("AA-BB-cc-0-1-FF"), Ok([0xaa, 0xbb, 0xcc, 0x00, 0x01, 0xff]));
}

#[test]
fn mac_default_is_zero() {
    assert_eq!(parse_mac("00:00:00:00:00:00"), Ok([0; 6]));
}

#[test]
fn mac_wrong_length() {
    assert_eq!(parse_mac("00:11:22:33:44"), Err(ConfigError::InvalidMacLength));
    assert_eq!(parse_mac("00:11:22:33:44:55:66"), Err(ConfigError::InvalidMacLength));
}

#[test]
fn mac_bad_byte() {
    assert_eq!(parse_mac("00:11:22:33:44:zz"), Err(ConfigError::InvalidMacByte));
    assert_eq!(parse_mac("00:11:22:33:44:100"), Err(ConfigError::InvalidMacByte));
    assert_eq!(parse_mac("00::22:33:44:55"), Err(ConfigError::InvalidMacByte));
    assert_eq!(parse_mac(""), Err(ConfigError::InvalidMacByte));
    // a bad byte among the first six comes before a wrong count
    assert_eq!(parse_mac("xx:11:22:33:44:55:66"), Err(ConfigError::InvalidMacByte));
}

#[test]
fn port_range_parses() {
    let r = parse_port_range("1000,2000").unwrap();
    assert_eq!((r.start(), r.end()), (1000, 2000));
    let r = parse_port_range("+5,65535").unwrap();
    assert_eq!((r.start(), r.end()), (5, 65535));
}

#[test]
fn port_range_errors() {
    assert_eq!(parse_port_range("1000"), Err(ConfigError::InvalidPortRange));
    assert_eq!(parse_port_range("1,2,3"), Err(ConfigError::InvalidPortRange));
    assert_eq!(parse_port_range("1000,70000"), Err(ConfigError::InvalidPort));
    assert_eq!(parse_port_range("a,2"), Err(ConfigError::InvalidPort));
    assert_eq!(parse_port_range(",2"), Err(ConfigError::InvalidPort));
    assert_eq!(parse_port_range("2000,1000"), Err(ConfigError::EmptyPortRange));
}

#[test]
fn protocol_names() {
    assert_eq!(parse_protocol("TCP"), Ok(Protocol::TCP));
    assert_eq!(parse_protocol("ICMP"), Ok(Protocol::ICMP));
    assert_eq!(Protocol::from_name("ICMP"), Ok(Protocol::ICMP));
    assert_eq!(
        parse_protocol("UDP"),
        Err(ConfigError::UnsupportedProtocol("UDP".to_string()))
    );
    assert_eq!(
        parse_protocol("tcp"),
        Err(ConfigError::UnsupportedProtocol("tcp".to_string()))
    );
    assert_eq!(Protocol::TCP.number(), 6);
    assert_eq!(Protocol::ICMP.number(), 1);
    assert_eq!(Protocol::TCP.name(), "TCP");
    assert_eq!(Protocol::ICMP.name(), "ICMP");
}

#[test]
fn port_options_choose_range_first() {
    let range = PortRange::new(10, 20).unwrap();
    let both = SrcPort { port: Some(5), port_range: Some(range) };
    assert_eq!(both.ports(), Ok(range));
    let single = DstPort { port: Some(5), port_range: None };
    assert_eq!(single.ports(), Ok(PortRange::single(5)));
    let none = SrcPort { port: None, port_range: None };
    assert_eq!(none.ports(), Err(ConfigError::MissingPort));
    let none = DstPort { port: None, port_range: None };
    assert_eq!(none.ports(), Err(ConfigError::MissingPort));
}

#[test]
fn strategy_options() {
    let s = TemplateSyncStrategy { once: false, interleve: true, every: None };
    assert_eq!(s.policy(), Ok(SyncPolicy::Interleve(Interleve)));
    let s = TemplateSyncStrategy { once: true, interleve: false, every: None };
    assert_eq!(s.policy(), Ok(SyncPolicy::Once(Once { template_sent: false })));
    let s = TemplateSyncStrategy { once: false, interleve: false, every: Some(4) };
    assert_eq!(s.policy(), Ok(SyncPolicy::Every(Every(4))));
    let s = TemplateSyncStrategy { once: false, interleve: false, every: Some(0) };
    assert_eq!(s.policy(), Err(ConfigError::ZeroTemplatePeriod));
    let s = TemplateSyncStrategy { once: false, interleve: false, every: None };
    assert_eq!(s.policy(), Err(ConfigError::MissingStrategy));
}
