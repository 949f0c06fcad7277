//! Unit checks of the pieces: address text, endpoint parsing, the method
//! and CONNECT parsers, the status extraction, and the write contract.

use proxychain::addr::{dec_u16, dec_u32, ipv4_text, ipv6_text};
use proxychain::datatype::Target;
use proxychain::event::{ReadEnd, ReadOutcome, WriteEnd};
use proxychain::http::client::HttpClient;
use proxychain::proxy::{Proxy, ProxyProtocol};
use proxychain::socks::handler::{Socks5Handler, Socks5State};
use proxychain::socks::server_protocol::{connection_request, method_request};

fn drained(data: &[u8]) -> ReadOutcome {
    ReadOutcome { data: data.to_vec(), end: ReadEnd::Drained }
}

fn upstream() -> Proxy {
    Proxy::parse(b"http", b"10.0.0.2".to_vec(), Some(8080), None, None).unwrap()
}

fn handler() -> Socks5Handler {
    Socks5Handler::new(7, vec![upstream()])
}

#[test]
fn decimal_text() {
    assert_eq!(dec_u16(0).as_slice(), b"0");
    assert_eq!(dec_u16(80).as_slice(), b"80");
    assert_eq!(dec_u16(65535).as_slice(), b"65535");
    assert_eq!(dec_u32(1000000).as_slice(), b"1000000");
}

#[test]
fn ipv4_dotted_quad() {
    assert_eq!(ipv4_text(127, 0, 0, 1).as_slice(), b"127.0.0.1");
    assert_eq!(ipv4_text(255, 255, 255, 255).as_slice(), b"255.255.255.255");
    assert_eq!(ipv4_text(0, 0, 0, 0).as_slice(), b"0.0.0.0");
}

#[test]
fn ipv6_group_text() {
    let mut loopback = [0u8; 16];
    loopback[15] = 1;
    assert_eq!(ipv6_text(&loopback).as_slice(), b"::1");
    assert_eq!(ipv6_text(&[0u8; 16]).as_slice(), b"::");
    let mut sample = [0u8; 16];
    sample[0] = 0x20;
    sample[1] = 0x01;
    sample[2] = 0x0d;
    sample[3] = 0xb8;
    sample[14] = 0xbe;
    sample[15] = 0xef;
    assert_eq!(ipv6_text(&sample).as_slice(), b"2001:db8::beef");
    // no run of two: nothing is elided
    let full: [u8; 16] = [0, 1, 0, 0, 0, 1, 0, 1, 0, 1, 0, 1, 0, 1, 0, 1];
    assert_eq!(ipv6_text(&full).as_slice(), b"1:0:1:1:1:1:1:1");
    // two equal runs: the leftmost is elided
    let tie: [u8; 16] = [0, 0, 0, 0, 0, 1, 0, 0, 0, 0, 0, 1, 0, 1, 0, 1];
    assert_eq!(ipv6_text(&tie).as_slice(), b"::1:0:0:1:1:1");
    // an IPv4-mapped address keeps its dotted quad
    let mut mapped = [0u8; 16];
    mapped[10] = 0xff;
    mapped[11] = 0xff;
    mapped[12] = 192;
    mapped[13] = 0;
    mapped[14] = 2;
    mapped[15] = 7;
    assert_eq!(ipv6_text(&mapped).as_slice(), b"::ffff:192.0.2.7");
}

#[test]
fn proxy_parse_schemes_and_defaults() {
    let p = Proxy::parse(b"http", b"proxy.example".to_vec(), None, None, None).unwrap();
    assert!(matches!(p.protocol, ProxyProtocol::HTTPProxy));
    assert_eq!(p.port, 80);
    let p = Proxy::parse(b"socks", b"localhost".to_vec(), None, None, None).unwrap();
    assert!(matches!(p.protocol, ProxyProtocol::SOCKS5Proxy));
    assert_eq!(p.port, 1080);
    let p = Proxy::parse(b"socks5", b"localhost".to_vec(), Some(9), None, None).unwrap();
    assert_eq!(p.port, 9);
    assert!(Proxy::parse(b"ftp", b"x".to_vec(), None, None, None).is_none());
}

#[test]
fn method_request_rules() {
    // too short
    let mut h = handler();
    assert!(method_request(&mut h, &drained(&[5, 1])));
    assert!(matches!(h.state, Socks5State::Closed));
    // wrong version
    let mut h = handler();
    assert!(method_request(&mut h, &drained(&[4, 1, 0])));
    // count does not match
    let mut h = handler();
    assert!(method_request(&mut h, &drained(&[5, 2, 0])));
    // no-auth absent
    let mut h = handler();
    assert!(method_request(&mut h, &drained(&[5, 1, 2])));
    // no-auth among several methods
    let mut h = handler();
    assert!(!method_request(&mut h, &drained(&[5, 2, 2, 0])));
    assert!(matches!(h.state, Socks5State::MethodResponse));
}

#[test]
fn connection_request_rules() {
    // reserved byte must be zero
    let mut h = handler();
    let step = connection_request(&mut h, &drained(&[5, 1, 1, 1, 127, 0, 0, 1, 0, 80]));
    assert!(step.done);
    // unknown address form
    let mut h = handler();
    let step = connection_request(&mut h, &drained(&[5, 1, 0, 9, 0, 0, 0, 0, 0, 80]));
    assert!(step.done);
    // truncated IPv4
    let mut h = handler();
    let step = connection_request(&mut h, &drained(&[5, 1, 0, 1, 127, 0]));
    assert!(step.done);
    // truncated domain: the length octet promises more than arrived
    let mut h = handler();
    let step = connection_request(&mut h, &drained(&[5, 1, 0, 3, 200, 97, 98, 99, 0, 80]));
    assert!(step.done);
    // a sound IPv4 request fixes the destination
    let mut h = handler();
    let step = connection_request(&mut h, &drained(&[5, 1, 0, 1, 10, 1, 2, 3, 1, 187]));
    assert!(!step.done);
    assert!(step.resolve.is_none());
    assert_eq!(h.target.ip.as_slice(), b"10.1.2.3");
    assert_eq!(h.target.domain.as_slice(), b"10.1.2.3");
    assert_eq!(h.target.port, 443);
    assert!(matches!(h.state, Socks5State::ClientConnectionRequest));
    // a sound IPv6 request fixes the group text
    let mut h = handler();
    let mut req = vec![5u8, 1, 0, 4];
    let mut addr = [0u8; 16];
    addr[15] = 1;
    req.extend_from_slice(&addr);
    req.extend_from_slice(&[0, 80]);
    let step = connection_request(&mut h, &drained(&req));
    assert!(!step.done);
    assert_eq!(h.target.domain.as_slice(), b"::1");
    assert_eq!(h.target.port, 80);
}

#[test]
fn status_extraction() {
    let target = Target::new();
    let mut c = HttpClient::new(upstream(), target);
    assert!(!c.read_buffer(&drained(b"HTTP/1.1 407 Proxy Authentication Required\r\n\r\n")));
    assert_eq!(c.extract_statuscode(), Some(407));
    let mut c = HttpClient::new(upstream(), Target::new());
    assert!(!c.read_buffer(&drained(b"HTTP/1.1 200 OK\r\n\r\n")));
    assert_eq!(c.extract_statuscode(), Some(200));
    // too short for a status line
    let mut c = HttpClient::new(upstream(), Target::new());
    assert!(!c.read_buffer(&drained(b"HTTP/1.1 2")));
    assert_eq!(c.extract_statuscode(), None);
    // the status bytes are no digits
    let mut c = HttpClient::new(upstream(), Target::new());
    assert!(!c.read_buffer(&drained(b"HTTP/1.1 a00 Bad\r\n\r\n")));
    assert_eq!(c.extract_statuscode(), None);
}

#[test]
fn client_write_contract() {
    let mut c = HttpClient::new(upstream(), Target::new());
    assert!(!c.read_buffer(&drained(b"abcd")));
    // a full write consumes the size
    assert!(!c.write_buffer(&WriteEnd::Wrote(4)));
    assert_eq!(c.size, 0);
    // a short write is fatal
    let mut c = HttpClient::new(upstream(), Target::new());
    assert!(!c.read_buffer(&drained(b"abcd")));
    assert!(c.write_buffer(&WriteEnd::Wrote(2)));
    // would-block waits
    let mut c = HttpClient::new(upstream(), Target::new());
    assert!(!c.read_buffer(&drained(b"abcd")));
    assert!(!c.write_buffer(&WriteEnd::WouldBlock));
    assert_eq!(c.size, 4);
    // an interrupt closes, an error ends
    assert!(c.write_buffer(&WriteEnd::Interrupted));
    let mut c = HttpClient::new(upstream(), Target::new());
    assert!(c.write_buffer(&WriteEnd::Failed));
}

#[test]
fn read_eof_and_failure() {
    let mut c = HttpClient::new(upstream(), Target::new());
    assert!(c.read_buffer(&ReadOutcome { data: Vec::new(), end: ReadEnd::Eof }));
    let mut c = HttpClient::new(upstream(), Target::new());
    assert!(c.read_buffer(&ReadOutcome { data: b"partial".to_vec(), end: ReadEnd::Failed }));
    assert_eq!(c.size, 7);
}
