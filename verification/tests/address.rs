use p2p_handshake::{extract_ip, Ip, SockAddr};

const OBSERVED: Ip = Ip::V4(203, 0, 113, 5);

fn v4(a: u8, b: u8, c: u8, d: u8, port: u16) -> SockAddr {
    SockAddr { ip: Ip::V4(a, b, c, d), port }
}

#[test]
fn loopback_takes_the_observed_ip_and_keeps_its_port() {
    let got = extract_ip(&v4(127, 0, 0, 1, 7000), Some(OBSERVED));
    assert_eq!(got, v4(203, 0, 113, 5, 7000));
}

#[test]
fn unspecified_takes_the_observed_ip_and_keeps_its_port() {
    let got = extract_ip(&v4(0, 0, 0, 0, 7000), Some(OBSERVED));
    assert_eq!(got, v4(203, 0, 113, 5, 7000));
}

#[test]
fn routable_address_is_kept() {
    let got = extract_ip(&v4(198, 51, 100, 9, 7000), Some(OBSERVED));
    assert_eq!(got, v4(198, 51, 100, 9, 7000));
}

#[test]
fn whole_loopback_block_is_replaced() {
    let got = extract_ip(&v4(127, 255, 255, 254, 13414), Some(OBSERVED));
    assert_eq!(got, v4(203, 0, 113, 5, 13414));
    let got = extract_ip(&v4(127, 0, 0, 0, 1), Some(OBSERVED));
    assert_eq!(got, v4(203, 0, 113, 5, 1));
}

#[test]
fn neighbours_of_the_special_addresses_are_kept() {
    for kept in [v4(126, 0, 0, 1, 9), v4(128, 0, 0, 1, 9), v4(0, 0, 0, 1, 9), v4(1, 0, 0, 0, 9)] {
        assert_eq!(extract_ip(&kept, Some(OBSERVED)), kept);
    }
}

#[test]
fn v6_loopback_and_unspecified_are_replaced() {
    let loopback = SockAddr { ip: Ip::V6(1), port: 7000 };
    let unspecified = SockAddr { ip: Ip::V6(0), port: 7001 };
    assert_eq!(extract_ip(&loopback, Some(OBSERVED)), v4(203, 0, 113, 5, 7000));
    assert_eq!(extract_ip(&unspecified, Some(OBSERVED)), v4(203, 0, 113, 5, 7001));
    let seen = Ip::V6(0x2001_0db8_0000_0000_0000_0000_0000_0005);
    assert_eq!(
        extract_ip(&loopback, Some(seen)),
        SockAddr { ip: seen, port: 7000 }
    );
}

#[test]
fn v6_routable_and_mapped_loopback_are_kept() {
    let routable = SockAddr { ip: Ip::V6(0x2001_0db8_0000_0000_0000_0000_0000_0009), port: 7000 };
    assert_eq!(extract_ip(&routable, Some(OBSERVED)), routable);
    let mapped = SockAddr { ip: Ip::V6(0x0000_0000_0000_0000_0000_ffff_7f00_0001), port: 7000 };
    assert_eq!(extract_ip(&mapped, Some(OBSERVED)), mapped);
    let two = SockAddr { ip: Ip::V6(2), port: 7000 };
    assert_eq!(extract_ip(&two, Some(OBSERVED)), two);
}

#[test]
fn without_an_observed_ip_the_advertised_address_is_kept() {
    assert_eq!(extract_ip(&v4(127, 0, 0, 1, 7000), None), v4(127, 0, 0, 1, 7000));
    assert_eq!(extract_ip(&v4(0, 0, 0, 0, 7000), None), v4(0, 0, 0, 0, 7000));
    assert_eq!(extract_ip(&v4(198, 51, 100, 9, 7000), None), v4(198, 51, 100, 9, 7000));
}

#[test]
fn observed_loopback_is_taken_as_it_is() {
    let got = extract_ip(&v4(127, 0, 0, 1, 7000), Some(Ip::V4(127, 0, 0, 1)));
    assert_eq!(got, v4(127, 0, 0, 1, 7000));
    let got = extract_ip(&v4(0, 0, 0, 0, 65535), Some(Ip::V4(127, 0, 0, 1)));
    assert_eq!(got, v4(127, 0, 0, 1, 65535));
}

#[test]
fn loopback_and_unspecified_are_told_apart() {
    assert!(Ip::V4(127, 0, 0, 1).is_loopback());
    assert!(Ip::V4(127, 9, 8, 7).is_loopback());
    assert!(!Ip::V4(127, 0, 0, 1).is_unspecified());
    assert!(Ip::V4(0, 0, 0, 0).is_unspecified());
    assert!(!Ip::V4(0, 0, 0, 0).is_loopback());
    assert!(!Ip::V4(0, 0, 1, 0).is_unspecified());
    assert!(!Ip::V4(10, 0, 0, 1).is_loopback());
    assert!(Ip::V6(1).is_loopback());
    assert!(!Ip::V6(1).is_unspecified());
    assert!(Ip::V6(0).is_unspecified());
    assert!(!Ip::V6(0).is_loopback());
    assert!(!Ip::V6(1 << 64).is_loopback());
    assert!(!Ip::V6(1 << 64).is_unspecified());
}
