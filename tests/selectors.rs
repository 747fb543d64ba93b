use flowgen::{Ipv4Subnet, NetAddr, PortRange};

const fn ip(a: u32, b: u32, c: u32, d: u32) -> u32 {
    (a << 24) | (b << 16) | (c << 8) | d
}

#[test]
fn fixed_address_is_deterministic() {
    let mut rng = rand::rng();
    let spec = NetAddr::Address(ip(10, 0, 0, 1));
    for _ in 0..50 {
        assert_eq!(spec.get_one(&mut rng), ip(10, 0, 0, 1));
    }
}

#[test]
fn fixed_port_is_deterministic() {
    let mut rng = rand::rng();
    let ports = PortRange::single(1000);
    for _ in 0..50 {
        assert_eq!(ports.get_one(&mut rng), 1000);
    }
}

#[test]
fn subnet_samples_stay_in_usable_hosts() {
    let mut rng = rand::rng();
    let net = Ipv4Subnet::new(ip(172, 16, 5, 0), 24).unwrap();
    let spec = NetAddr::Subnet(net);
    for _ in 0..1000 {
        let a = spec.get_one(&mut rng);
        assert!(a >= ip(172, 16, 5, 1) && a <= ip(172, 16, 5, 254));
    }
}

#[test]
fn subnet_slash30_yields_both_hosts() {
    let mut rng = rand::rng();
    let net = Ipv4Subnet::new(ip(192, 168, 1, 0), 30).unwrap();
    let spec = NetAddr::Subnet(net);
    let mut seen_first = false;
    let mut seen_second = false;
    for _ in 0..100 {
        let a = spec.get_one(&mut rng);
        assert!(a == ip(192, 168, 1, 1) || a == ip(192, 168, 1, 2));
        seen_first |= a == ip(192, 168, 1, 1);
        seen_second |= a == ip(192, 168, 1, 2);
    }
    assert!(seen_first && seen_second);
}

#[test]
fn port_range_samples_stay_in_bounds() {
    let mut rng = rand::rng();
    let ports = PortRange::new(1000, 1010).unwrap();
    let mut seen = [false; 11];
    for _ in 0..2000 {
        let p = ports.get_one(&mut rng);
        assert!((1000..=1010).contains(&p));
        seen[(p - 1000) as usize] = true;
    }
    assert!(seen.iter().all(|s| *s));
}

#[test]
fn port_range_rejects_reversed_bounds() {
    assert!(PortRange::new(2000, 1000).is_none());
    let r = PortRange::new(7, 7).unwrap();
    assert_eq!((r.start(), r.end()), (7, 7));
}

#[test]
fn subnet_host_bounds() {
    let n = Ipv4Subnet::new(ip(192, 168, 1, 77), 24).unwrap();
    assert_eq!(n.network(), ip(192, 168, 1, 0));
    assert_eq!(n.broadcast(), ip(192, 168, 1, 255));
    assert_eq!(n.first_host(), ip(192, 168, 1, 1));
    assert_eq!(n.last_host(), ip(192, 168, 1, 254));
    assert_eq!(n.addr(), ip(192, 168, 1, 77));
    assert_eq!(n.prefix_len(), 24);

    let n31 = Ipv4Subnet::new(ip(10, 0, 0, 5), 31).unwrap();
    assert_eq!((n31.first_host(), n31.last_host()), (ip(10, 0, 0, 4), ip(10, 0, 0, 5)));

    let n32 = Ipv4Subnet::new(ip(10, 0, 0, 5), 32).unwrap();
    assert_eq!((n32.first_host(), n32.last_host()), (ip(10, 0, 0, 5), ip(10, 0, 0, 5)));

    let all = Ipv4Subnet::new(ip(8, 8, 8, 8), 0).unwrap();
    assert_eq!((all.network(), all.broadcast()), (0, u32::MAX));
    assert_eq!((all.first_host(), all.last_host()), (1, u32::MAX - 1));
}

#[test]
fn single_host_subnet_always_gives_that_host() {
    let mut rng = rand::rng();
    let spec = NetAddr::Subnet(Ipv4Subnet::new(ip(10, 1, 2, 3), 32).unwrap());
    for _ in 0..20 {
        assert_eq!(spec.get_one(&mut rng), ip(10, 1, 2, 3));
    }
}

#[test]
fn subnet_rejects_long_prefix() {
    assert!(Ipv4Subnet::new(ip(10, 0, 0, 0), 33).is_none());
}
