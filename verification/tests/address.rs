use ddns::address::Ipv4Address;
use ddns::address::MAX_TEXT_LEN;

#[test]
fn text_of_plain_address() {
    assert_eq!(Ipv4Address::new(1, 2, 3, 4).to_text(), "1.2.3.4");
}

#[test]
fn text_of_blank_address() {
    assert_eq!(Ipv4Address::blank().to_text(), "0.0.0.0");
    assert_eq!(Ipv4Address::blank(), Ipv4Address::new(0, 0, 0, 0));
}

#[test]
fn text_of_widest_address() {
    let text = Ipv4Address::new(255, 255, 255, 255).to_text();
    assert_eq!(text, "255.255.255.255");
    assert_eq!(text.len(), MAX_TEXT_LEN);
}

#[test]
fn text_has_no_leading_zeros() {
    assert_eq!(Ipv4Address::new(10, 100, 9, 101).to_text(), "10.100.9.101");
    assert_eq!(Ipv4Address::new(208, 67, 222, 222).to_text(), "208.67.222.222");
    assert_eq!(Ipv4Address::new(99, 0, 200, 7).to_text(), "99.0.200.7");
}

#[test]
fn is_blank_only_for_zero() {
    assert!(Ipv4Address::blank().is_blank());
    assert!(Ipv4Address::new(0, 0, 0, 0).is_blank());
    assert!(!Ipv4Address::new(0, 0, 0, 1).is_blank());
    assert!(!Ipv4Address::new(1, 0, 0, 0).is_blank());
}

#[test]
fn parse_plain_address() {
    assert_eq!(Ipv4Address::parse("1.2.3.4"), Some(Ipv4Address::new(1, 2, 3, 4)));
    assert_eq!(Ipv4Address::parse("5.6.7.8"), Some(Ipv4Address::new(5, 6, 7, 8)));
}

#[test]
fn parse_edges_of_the_range() {
    assert_eq!(Ipv4Address::parse("0.0.0.0"), Some(Ipv4Address::new(0, 0, 0, 0)));
    assert_eq!(
        Ipv4Address::parse("255.255.255.255"),
        Some(Ipv4Address::new(255, 255, 255, 255))
    );
    assert_eq!(Ipv4Address::parse("192.168.10.199"), Some(Ipv4Address::new(192, 168, 10, 199)));
}

#[test]
fn parse_refuses_octet_above_255() {
    assert_eq!(Ipv4Address::parse("256.1.1.1"), None);
    assert_eq!(Ipv4Address::parse("1.1.1.256"), None);
    assert_eq!(Ipv4Address::parse("1.999.1.1"), None);
    assert_eq!(Ipv4Address::parse("1.1.300.1"), None);
}

#[test]
fn parse_refuses_leading_zero() {
    assert_eq!(Ipv4Address::parse("01.2.3.4"), None);
    assert_eq!(Ipv4Address::parse("1.2.3.04"), None);
    assert_eq!(Ipv4Address::parse("1.00.3.4"), None);
    assert_eq!(Ipv4Address::parse("1.2.003.4"), None);
}

#[test]
fn parse_refuses_wrong_number_of_octets() {
    assert_eq!(Ipv4Address::parse(""), None);
    assert_eq!(Ipv4Address::parse("1"), None);
    assert_eq!(Ipv4Address::parse("1.2"), None);
    assert_eq!(Ipv4Address::parse("1.2.3"), None);
    assert_eq!(Ipv4Address::parse("1.2.3.4.5"), None);
}

#[test]
fn parse_refuses_stray_characters() {
    assert_eq!(Ipv4Address::parse("1.2.3.4."), None);
    assert_eq!(Ipv4Address::parse(".1.2.3.4"), None);
    assert_eq!(Ipv4Address::parse("1..2.3"), None);
    assert_eq!(Ipv4Address::parse(" 1.2.3.4"), None);
    assert_eq!(Ipv4Address::parse("1.2.3.4 "), None);
    assert_eq!(Ipv4Address::parse("1.2.3.4\n"), None);
    assert_eq!(Ipv4Address::parse("+1.2.3.4"), None);
    assert_eq!(Ipv4Address::parse("-1.2.3.4"), None);
    assert_eq!(Ipv4Address::parse("1.2.3.a"), None);
    assert_eq!(Ipv4Address::parse("0x1.2.3.4"), None);
    assert_eq!(Ipv4Address::parse("1,2,3,4"), None);
}

#[test]
fn parse_refuses_four_digit_octet() {
    assert_eq!(Ipv4Address::parse("1000.1.1.1"), None);
    assert_eq!(Ipv4Address::parse("1.1.1.0000"), None);
    assert_eq!(Ipv4Address::parse("1.1.1.1000"), None);
}

#[test]
fn parse_refuses_long_text() {
    assert_eq!(Ipv4Address::parse("255.255.255.2555"), None);
    assert_eq!(Ipv4Address::parse("1.2.3.4.5.6.7.8.9.10.11.12"), None);
    let long = "1".repeat(10_000);
    assert_eq!(Ipv4Address::parse(&long), None);
}

#[test]
fn parse_refuses_digits_outside_ascii() {
    assert_eq!(Ipv4Address::parse("\u{0661}.2.3.4"), None);
    assert_eq!(Ipv4Address::parse("1.2.3.\u{ff14}"), None);
    assert_eq!(Ipv4Address::parse("1\u{3002}2.3.4"), None);
}

#[test]
fn parse_accepts_exactly_the_written_addresses() {
    let accepted = [
        ("1.2.3.4", [1u8, 2, 3, 4]),
        ("10.0.0.1", [10, 0, 0, 1]),
        ("127.0.0.1", [127, 0, 0, 1]),
        ("99.99.99.99", [99, 99, 99, 99]),
        ("100.200.100.200", [100, 200, 100, 200]),
        ("25.5.255.25", [25, 5, 255, 25]),
    ];
    for (text, octets) in accepted {
        let expected = Ipv4Address::new(octets[0], octets[1], octets[2], octets[3]);
        assert_eq!(Ipv4Address::parse(text), Some(expected));
    }
    let refused = ["a.b.c.d", "1.2..4", "00.0.0.0", "0.0.0.00", "2555.1.1.1", "1.2.3.4/24"];
    for text in refused {
        assert_eq!(Ipv4Address::parse(text), None);
    }
}

#[test]
fn parse_reads_back_every_text() {
    let octets = [0u8, 1, 9, 10, 11, 99, 100, 101, 199, 200, 249, 250, 255];
    for a in octets {
        for b in octets {
            for c in [0u8, 7, 42, 255] {
                for d in octets {
                    let addr = Ipv4Address::new(a, b, c, d);
                    assert_eq!(Ipv4Address::parse(&addr.to_text()), Some(addr));
                }
            }
        }
    }
}

#[test]
fn different_addresses_have_different_texts() {
    let first = Ipv4Address::new(1, 21, 3, 4);
    let second = Ipv4Address::new(12, 1, 3, 4);
    assert_ne!(first.to_text(), second.to_text());
    assert_ne!(Ipv4Address::new(1, 2, 3, 4).to_text(), Ipv4Address::new(1, 2, 3, 5).to_text());
}
