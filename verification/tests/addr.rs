use net_transport::addr::{IpAddress, SocketAddress};
use net_transport::text::{push_decimal, push_hex};

fn v6(segments: [u16; 8]) -> String {
    IpAddress::V6(segments).to_text()
}

#[test]
fn decimal_has_no_leading_zeros() {
    let mut out = String::from("x");
    push_decimal(&mut out, 0);
    out.push(' ');
    push_decimal(&mut out, 7);
    out.push(' ');
    push_decimal(&mut out, 10);
    out.push(' ');
    push_decimal(&mut out, 8080);
    out.push(' ');
    push_decimal(&mut out, 65535);
    assert_eq!(out, "x0 7 10 8080 65535");
}

#[test]
fn hex_has_no_leading_zeros() {
    let mut out = String::new();
    push_hex(&mut out, 0);
    out.push(' ');
    push_hex(&mut out, 0xf);
    out.push(' ');
    push_hex(&mut out, 0x10);
    out.push(' ');
    push_hex(&mut out, 0xdb8);
    out.push(' ');
    push_hex(&mut out, 0xffff);
    out.push(' ');
    push_hex(&mut out, 0xabcd);
    out.push(' ');
    push_hex(&mut out, 0x9e);
    assert_eq!(out, "0 f 10 db8 ffff abcd 9e");
}

#[test]
fn v4_is_dotted_decimal() {
    assert_eq!(IpAddress::V4([127, 0, 0, 1]).to_text(), "127.0.0.1");
    assert_eq!(IpAddress::V4([0, 0, 0, 0]).to_text(), "0.0.0.0");
    assert_eq!(IpAddress::V4([255, 255, 255, 255]).to_text(), "255.255.255.255");
    assert_eq!(IpAddress::V4([192, 168, 10, 9]).to_text(), "192.168.10.9");
}

#[test]
fn v6_all_zero_is_two_colons() {
    assert_eq!(v6([0, 0, 0, 0, 0, 0, 0, 0]), "::");
}

#[test]
fn v6_loopback() {
    assert_eq!(v6([0, 0, 0, 0, 0, 0, 0, 1]), "::1");
}

#[test]
fn v6_compresses_the_longest_run() {
    assert_eq!(v6([0x2001, 0xdb8, 0, 0, 0, 0, 0, 1]), "2001:db8::1");
    assert_eq!(v6([0x2001, 0xdb8, 0, 1, 0, 0, 0, 1]), "2001:db8:0:1::1");
    assert_eq!(v6([0xfe80, 0, 0, 0, 0, 0, 0, 0]), "fe80::");
    assert_eq!(v6([0, 0, 0, 0, 0, 0, 1, 2]), "::1:2");
}

#[test]
fn v6_compresses_the_first_of_equal_runs() {
    assert_eq!(v6([0x2001, 0, 0, 1, 0, 0, 5, 1]), "2001::1:0:0:5:1");
}

#[test]
fn v6_leaves_single_zeros() {
    assert_eq!(v6([1, 0, 2, 0, 3, 0, 4, 0]), "1:0:2:0:3:0:4:0");
    assert_eq!(v6([1, 2, 3, 4, 5, 6, 7, 8]), "1:2:3:4:5:6:7:8");
}

#[test]
fn v6_mapped_v4_is_dotted() {
    assert_eq!(v6([0, 0, 0, 0, 0, 0xffff, 0xc000, 0x0280]), "::ffff:192.0.2.128");
    assert_eq!(v6([0, 0, 0, 0, 0, 0xffff, 0, 0]), "::ffff:0.0.0.0");
}

#[test]
fn constructors_keep_their_parts() {
    let a = SocketAddress::v4(10, 1, 2, 3, 443);
    assert_eq!(a.ip, IpAddress::V4([10, 1, 2, 3]));
    assert_eq!(a.port, 443);
    let b = SocketAddress::new(IpAddress::V6([0, 0, 0, 0, 0, 0, 0, 1]), 80);
    assert_eq!(b.ip, IpAddress::V6([0, 0, 0, 0, 0, 0, 0, 1]));
    assert_eq!(b.port, 80);
    let u = SocketAddress::unspecified();
    assert_eq!(u, SocketAddress::v4(0, 0, 0, 0, 0));
}

#[test]
fn resolution_that_found_addresses_keeps_them() {
    let a = SocketAddress::v4(10, 1, 2, 3, 443);
    let b = SocketAddress::v4(10, 1, 2, 4, 443);
    assert_eq!(net_transport::addr::resolved(Ok(vec![a, b])).unwrap(), vec![a, b]);
}

#[test]
fn resolution_that_found_nothing_fails() {
    let err = net_transport::addr::resolved(Ok(Vec::new())).unwrap_err();
    assert_eq!(err.kind(), net_transport::error::ErrorKind::ResolveFailed);
    assert_eq!(err.detail, "");
}

#[test]
fn resolution_that_failed_keeps_its_message() {
    let err = net_transport::addr::resolved(Err("no such host".to_string())).unwrap_err();
    assert_eq!(err.kind(), net_transport::error::ErrorKind::ResolveFailed);
    assert_eq!(err.detail, "no such host");
}
