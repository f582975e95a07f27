use dhcp::addr::Ipv4Addr;
use dhcp::option::{DhcpOption, NetBiosOverTcpIpNodeType};

#[test]
fn decode_empty_buffer_fails() {
    let data: Vec<u8> = vec![];
    let err = DhcpOption::deserialize(&data).unwrap_err();
    assert_eq!(err.message(), "No option code found");
}

#[test]
fn decode_missing_length_byte_fails() {
    let data = vec![3];
    let err = DhcpOption::deserialize(&data).unwrap_err();
    assert_eq!(err.message(), "Could not parse router");
}

#[test]
fn decode_value_shorter_than_declared_fails() {
    // Declares four value bytes but carries only two.
    let data = vec![1, 4, 255, 255];
    assert!(DhcpOption::deserialize(&data).is_err());
}

#[test]
fn decode_fixed_length_mismatch_fails() {
    // A subnet mask must declare exactly four value bytes.
    let data = vec![1, 5, 255, 255, 255, 0, 7];
    assert!(DhcpOption::deserialize(&data).is_err());
    let data = vec![51, 3, 1, 2, 3];
    assert!(DhcpOption::deserialize(&data).is_err());
}

#[test]
fn decode_address_list_length_not_multiple_of_four_fails() {
    let data = vec![3, 5, 192, 168, 0, 1, 9];
    assert!(DhcpOption::deserialize(&data).is_err());
}

#[test]
fn decode_empty_address_list_fails() {
    // Only the mobile IP home agent list may be empty.
    let data = vec![3, 0];
    assert!(DhcpOption::deserialize(&data).is_err());
}

#[test]
fn decode_pair_list_length_not_multiple_of_eight_fails() {
    let data = vec![21, 12, 1, 2, 3, 4, 5, 6, 7, 8, 9, 10, 11, 12];
    assert!(DhcpOption::deserialize(&data).is_err());
    let data = vec![33, 4, 1, 2, 3, 4];
    assert!(DhcpOption::deserialize(&data).is_err());
}

#[test]
fn decode_word_list_length_not_multiple_of_two_fails() {
    let data = vec![25, 3, 1, 2, 3];
    assert!(DhcpOption::deserialize(&data).is_err());
}

#[test]
fn decode_unknown_tag_fails() {
    let data = vec![200, 1, 0];
    let err = DhcpOption::deserialize(&data).unwrap_err();
    assert_eq!(err.message(), "Unknown option code");
    let data = vec![77];
    assert!(DhcpOption::deserialize(&data).is_err());
}

#[test]
fn decode_invalid_node_type_fails() {
    let data = vec![46, 1, 3];
    assert!(DhcpOption::deserialize(&data).is_err());
}

#[test]
fn decode_node_type_values() {
    for (byte, node) in [
        (1, NetBiosOverTcpIpNodeType::BNode),
        (2, NetBiosOverTcpIpNodeType::PNode),
        (4, NetBiosOverTcpIpNodeType::MNode),
        (8, NetBiosOverTcpIpNodeType::HNode),
    ] {
        let data = vec![46, 1, byte];
        let (option, rest) = DhcpOption::deserialize(&data).unwrap();
        assert_eq!(option, DhcpOption::NetBiosOverTcpIpNodeType(node));
        assert_eq!(rest, &[]);
    }
}

#[test]
fn decode_flag_treats_any_nonzero_byte_as_true() {
    let data = vec![19, 1, 2];
    let (option, _) = DhcpOption::deserialize(&data).unwrap();
    assert_eq!(option, DhcpOption::IpForwarding(true));
    let data = vec![34, 1, 255];
    let (option, _) = DhcpOption::deserialize(&data).unwrap();
    assert_eq!(option, DhcpOption::TrailerEncapsulation(true));
}

#[test]
fn decode_invalid_utf8_host_name_fails() {
    let data = vec![12, 2, 0xff, 0xfe];
    assert!(DhcpOption::deserialize(&data).is_err());
}

#[test]
fn decode_non_ascii_host_name() {
    // The two bytes are the UTF-8 encoding of a single accented character.
    let data = vec![12, 2, 0xc3, 0xa9, 7];
    let (option, rest) = DhcpOption::deserialize(&data).unwrap();
    assert_eq!(option, DhcpOption::HostName("\u{e9}".to_string()));
    assert_eq!(rest, &[7]);
}

#[test]
fn decode_empty_host_name_fails() {
    let data = vec![12, 0];
    assert!(DhcpOption::deserialize(&data).is_err());
}

#[test]
fn decode_empty_domain_name_is_accepted() {
    let data = vec![15, 0, 9];
    let (option, rest) = DhcpOption::deserialize(&data).unwrap();
    assert_eq!(option, DhcpOption::DomainName(String::new()));
    assert_eq!(rest, &[9]);
}

#[test]
fn decode_empty_scope_fails() {
    let data = vec![47, 0];
    assert!(DhcpOption::deserialize(&data).is_err());
}

#[test]
fn decode_empty_vendor_information_is_accepted() {
    let data = vec![43, 0];
    let (option, rest) = DhcpOption::deserialize(&data).unwrap();
    assert_eq!(option, DhcpOption::VendorSpecificInformation(vec![]));
    assert_eq!(rest, &[]);
}

#[test]
fn round_trip_largest_address_list() {
    // 63 addresses fill the length byte: 252 value bytes.
    let addrs: Vec<Ipv4Addr> = (0..63).map(|i| Ipv4Addr::new(10, 0, 0, i as u8)).collect();
    let option = DhcpOption::Router(addrs);
    let bytes = option.serialize();
    assert_eq!(bytes.len(), 254);
    assert_eq!(bytes[1], 252);
    let (decoded, rest) = DhcpOption::deserialize(&bytes).unwrap();
    assert_eq!(decoded, option);
    assert_eq!(rest, &[]);
}

#[test]
fn round_trip_with_trailing_bytes() {
    let option = DhcpOption::PolicyFilter(vec![
        (Ipv4Addr::new(10, 0, 0, 1), Ipv4Addr::new(255, 255, 255, 0)),
        (Ipv4Addr::new(10, 0, 0, 2), Ipv4Addr::new(255, 255, 0, 0)),
    ]);
    let mut bytes = option.serialize();
    bytes.extend_from_slice(&[99, 98, 97]);
    let (decoded, rest) = DhcpOption::deserialize(&bytes).unwrap();
    assert_eq!(decoded, option);
    assert_eq!(rest, &[99, 98, 97]);
}

#[test]
fn round_trip_every_family() {
    let options = vec![
        DhcpOption::SubnetMask(Ipv4Addr::new(255, 255, 0, 0)),
        DhcpOption::TimeOffset(0xdead_beef),
        DhcpOption::Router(vec![Ipv4Addr::new(192, 168, 0, 1)]),
        DhcpOption::HostName("host".to_string()),
        DhcpOption::BootFileSize(0x0102),
        DhcpOption::IpForwarding(false),
        DhcpOption::PolicyFilter(vec![(
            Ipv4Addr::new(10, 0, 0, 1),
            Ipv4Addr::new(255, 0, 0, 0),
        )]),
        DhcpOption::DefaultIpTimeToLive(64),
        DhcpOption::PathMtuPlateauTable(vec![68, 296, 508, 1006, 1492]),
        DhcpOption::VendorSpecificInformation(vec![1, 2, 3]),
        DhcpOption::NetBiosOverTcpIpNodeType(NetBiosOverTcpIpNodeType::HNode),
        DhcpOption::NetBiosOverTcpIpScope(vec![9]),
        DhcpOption::MobileIpHomeAgent(vec![]),
        DhcpOption::IpAddressLeaseTime(86400),
        DhcpOption::Pad,
        DhcpOption::End,
    ];
    for option in options {
        let bytes = option.serialize();
        let (decoded, rest) = DhcpOption::deserialize(&bytes).unwrap();
        assert_eq!(decoded, option);
        assert_eq!(rest, &[]);
    }
}

#[test]
fn decode_sequence_of_options() {
    // Two options back to back, then the end marker: each decode consumes
    // exactly one option and leaves the slice at the start of the next.
    let data = vec![1, 4, 255, 255, 255, 0, 3, 4, 192, 168, 0, 1, 255];
    let (first, rest) = DhcpOption::deserialize(&data).unwrap();
    assert_eq!(first, DhcpOption::SubnetMask(Ipv4Addr::new(255, 255, 255, 0)));
    let (second, rest) = DhcpOption::deserialize(rest).unwrap();
    assert_eq!(second, DhcpOption::Router(vec![Ipv4Addr::new(192, 168, 0, 1)]));
    let (third, rest) = DhcpOption::deserialize(rest).unwrap();
    assert_eq!(third, DhcpOption::End);
    assert_eq!(rest, &[]);
}

#[test]
fn octets_returns_the_four_parts() {
    let a = Ipv4Addr::new(192, 168, 1, 2);
    assert_eq!(a.octets(), (192, 168, 1, 2));
}
