use sn_node_manager::addresses::{Ipv4Address, SocketAddress};
use sn_node_manager::numerals::{parse_u16, u64_to_decimal};

#[test]
fn decimal_text_is_canonical() {
    assert_eq!(u64_to_decimal(0), "0".to_string());
    assert_eq!(u64_to_decimal(7), "7".to_string());
    assert_eq!(u64_to_decimal(65535), "65535".to_string());
    assert_eq!(u64_to_decimal(1000), "1000".to_string());
}

#[test]
fn parse_u16_reads_numerals_back() {
    assert_eq!(parse_u16("0"), Some(0));
    assert_eq!(parse_u16("65535"), Some(65535));
    assert_eq!(parse_u16("65536"), None);
    assert_eq!(parse_u16(""), None);
    assert_eq!(parse_u16("12a"), None);
    assert_eq!(parse_u16("00042"), Some(42));
}

#[test]
fn host_text_is_dotted_decimal() {
    let ip = Ipv4Address { octet0: 192, octet1: 168, octet2: 1, octet3: 1 };
    assert_eq!(ip.to_text(), "192.168.1.1".to_string());
}

#[test]
fn socket_text_joins_host_and_port() {
    let socket = SocketAddress {
        ip: Ipv4Address { octet0: 127, octet1: 0, octet2: 0, octet3: 1 },
        port: 8080,
    };
    assert_eq!(socket.to_text(), "127.0.0.1:8080".to_string());
}
