use service_harness::address::{format_decimal, http_url, SocketAddress};

fn v6_localhost(port: u16) -> SocketAddress {
    SocketAddress { host: "::1".to_string(), port, v6: true }
}

#[test]
fn decimal_of_zero() {
    assert_eq!(format_decimal(0), "0");
}

#[test]
fn decimal_of_one_digit() {
    assert_eq!(format_decimal(7), "7");
}

#[test]
fn decimal_of_round_number() {
    assert_eq!(format_decimal(8080), "8080");
}

#[test]
fn decimal_of_largest_port() {
    assert_eq!(format_decimal(65535), "65535");
}

#[test]
fn text_of_v6_address_is_bracketed() {
    let address = v6_localhost(50051);
    assert_eq!(address.to_text(), "[::1]:50051");
}

#[test]
fn text_of_v4_address_is_bare() {
    let address = SocketAddress { host: "127.0.0.1".to_string(), port: 80, v6: false };
    assert_eq!(address.to_text(), "127.0.0.1:80");
}

#[test]
fn url_of_v6_address() {
    let address = v6_localhost(50051);
    assert_eq!(http_url(&address), "http://[::1]:50051");
}

#[test]
fn url_of_v4_address() {
    let address = SocketAddress { host: "127.0.0.1".to_string(), port: 8080, v6: false };
    assert_eq!(http_url(&address), "http://127.0.0.1:8080");
}

#[test]
fn duplicate_preserves_every_field() {
    let address = v6_localhost(443);
    let copy = address.duplicate();
    assert_eq!(copy, address);
}
