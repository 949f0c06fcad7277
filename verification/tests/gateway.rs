//! End-to-end scenarios driven through the server: full handshakes, the
//! protocol rejections, and the relay, with exact wire bytes.

use proxychain::event::{Action, Drain, ReadEnd, ReadOutcome, WriteEnd};
use proxychain::proxy::Proxy;
use proxychain::socks::server::Socks5Server;

fn drained(data: &[u8]) -> ReadOutcome {
    ReadOutcome { data: data.to_vec(), end: ReadEnd::Drained }
}

fn eof() -> ReadOutcome {
    ReadOutcome { data: Vec::new(), end: ReadEnd::Eof }
}

fn server() -> Socks5Server {
    let inbound = Proxy::parse(b"socks5", b"127.0.0.1".to_vec(), Some(1080), None, None).unwrap();
    let upstream = Proxy::parse(b"http", b"10.0.0.2".to_vec(), Some(8080), None, None).unwrap();
    let mut srv = Socks5Server::new(inbound);
    srv.subproxy(upstream);
    srv
}

/// Runs the handshake up to the point where the upstream child token
/// exists, for an IPv4 CONNECT to 127.0.0.1:80.
fn handshake_ipv4(srv: &mut Socks5Server) -> (u64, u64) {
    let t = srv.accept_session().unwrap();

    // method negotiation: 05 01 00 in, 05 00 out
    let step = srv.dispatch(t, true, false, Some(&drained(&[5, 1, 0])));
    assert!(step.closed.is_none());
    assert!(matches!(step.action, Action::Idle));
    let step = srv.dispatch(t, false, true, None);
    match &step.action {
        Action::ReplyInbound(out) => assert_eq!(out.as_slice(), &[5u8, 0u8]),
        _ => panic!("expected the method reply"),
    }
    let step = srv.note_write(t, &WriteEnd::Wrote(2));
    assert!(step.closed.is_none());

    // CONNECT 127.0.0.1:80
    let req = [5u8, 1, 0, 1, 127, 0, 0, 1, 0, 80];
    let step = srv.dispatch(t, true, false, Some(&drained(&req)));
    let child = match step.action {
        Action::OpenUpstream { child_token } => child_token,
        _ => panic!("expected the upstream spawn"),
    };
    assert!(step.closed.is_none());
    (t, child)
}

/// Completes the upstream handshake with a 200 answer and checks the
/// SOCKS success reply.
fn upstream_ok(srv: &mut Socks5Server, t: u64, child: u64, line: &[u8]) {
    let step = srv.dispatch(child, false, true, None);
    match &step.action {
        Action::SendUpstream(out) => assert_eq!(out.as_slice(), line),
        _ => panic!("expected the CONNECT line"),
    }
    let step = srv.note_write(child, &WriteEnd::Wrote(line.len()));
    assert!(step.closed.is_none());

    let step = srv.dispatch(child, true, true, Some(&drained(b"HTTP/1.1 200 OK\r\n\r\n")));
    match &step.action {
        Action::ReplyInbound(out) => {
            assert_eq!(out.as_slice(), &[5u8, 0, 0, 1, 0, 0, 0, 0, 0, 0]);
        },
        _ => panic!("expected the SOCKS success reply"),
    }
    assert!(step.closed.is_none());
    let step = srv.note_write(t, &WriteEnd::Wrote(10));
    assert!(step.closed.is_none());
}

#[test]
fn ipv4_happy_path() {
    let mut srv = server();
    let (t, child) = handshake_ipv4(&mut srv);
    let line: &[u8] = b"CONNECT 127.0.0.1:80 HTTP/1.1\r\nProxy-Connection: keep-alive\r\nConnection: keep-alive\r\nHost: 127.0.0.1:80\r\n\r\n";
    upstream_ok(&mut srv, t, child, line);

    // relay: client bytes appear upstream verbatim
    assert_eq!(srv.plan(t, true), Drain::Inbound);
    let step = srv.dispatch(t, true, false, Some(&drained(b"payload bytes")));
    match &step.action {
        Action::SendUpstream(out) => assert_eq!(out.as_slice(), b"payload bytes"),
        _ => panic!("expected the relayed payload"),
    }
    assert!(step.closed.is_none());

    // and upstream bytes come back verbatim
    assert_eq!(srv.plan(child, true), Drain::Upstream);
    let step = srv.dispatch(child, true, false, Some(&drained(b"answer")));
    match &step.action {
        Action::ReplyInbound(out) => assert_eq!(out.as_slice(), b"answer"),
        _ => panic!("expected the relayed answer"),
    }
    assert!(step.closed.is_none());
}

#[test]
fn domain_path_keeps_name() {
    let mut srv = server();
    let t = srv.accept_session().unwrap();
    srv.dispatch(t, true, false, Some(&drained(&[5, 1, 0])));
    srv.dispatch(t, false, true, None);
    srv.note_write(t, &WriteEnd::Wrote(2));

    // CONNECT example.com:443
    let mut req = vec![5u8, 1, 0, 3, 11];
    req.extend_from_slice(b"example.com");
    req.extend_from_slice(&[1, 0xBB]);
    let step = srv.dispatch(t, true, false, Some(&drained(&req)));
    match &step.action {
        Action::Resolve { domain, port } => {
            assert_eq!(domain.as_slice(), b"example.com");
            assert_eq!(*port, 443);
        },
        _ => panic!("expected a resolution request"),
    }

    let step = srv.resolve_done(t, Some(b"93.184.216.34".to_vec()));
    let child = match step.action {
        Action::OpenUpstream { child_token } => child_token,
        _ => panic!("expected the upstream spawn"),
    };

    // the original name, not the resolved address, stands in the line
    let line: &[u8] = b"CONNECT example.com:443 HTTP/1.1\r\nProxy-Connection: keep-alive\r\nConnection: keep-alive\r\nHost: example.com:443\r\n\r\n";
    let step = srv.dispatch(child, false, true, None);
    match &step.action {
        Action::SendUpstream(out) => assert_eq!(out.as_slice(), line),
        _ => panic!("expected the CONNECT line"),
    }
}

#[test]
fn ipv6_path_uses_elided_text() {
    let mut srv = server();
    let t = srv.accept_session().unwrap();
    srv.dispatch(t, true, false, Some(&drained(&[5, 1, 0])));
    srv.dispatch(t, false, true, None);
    srv.note_write(t, &WriteEnd::Wrote(2));

    // CONNECT [::1]:80, sent as 16 address octets
    let mut req = vec![5u8, 1, 0, 4];
    let mut addr = [0u8; 16];
    addr[15] = 1;
    req.extend_from_slice(&addr);
    req.extend_from_slice(&[0, 80]);
    let step = srv.dispatch(t, true, false, Some(&drained(&req)));
    let child = match step.action {
        Action::OpenUpstream { child_token } => child_token,
        _ => panic!("expected the upstream spawn"),
    };
    let line: &[u8] = b"CONNECT ::1:80 HTTP/1.1\r\nProxy-Connection: keep-alive\r\nConnection: keep-alive\r\nHost: ::1:80\r\n\r\n";
    let step = srv.dispatch(child, false, true, None);
    match &step.action {
        Action::SendUpstream(out) => assert_eq!(out.as_slice(), line),
        _ => panic!("expected the CONNECT line"),
    }
}

#[test]
fn failed_resolution_closes_session() {
    let mut srv = server();
    let t = srv.accept_session().unwrap();
    srv.dispatch(t, true, false, Some(&drained(&[5, 1, 0])));
    srv.dispatch(t, false, true, None);
    srv.note_write(t, &WriteEnd::Wrote(2));
    let mut req = vec![5u8, 1, 0, 3, 7];
    req.extend_from_slice(b"no.such");
    req.extend_from_slice(&[0, 80]);
    srv.dispatch(t, true, false, Some(&drained(&req)));
    let step = srv.resolve_done(t, None);
    let closed = step.closed.expect("the session must close");
    assert_eq!(closed.parent, t);
    assert!(closed.child.is_none());
}

#[test]
fn unsupported_command_closes_session() {
    let mut srv = server();
    let t = srv.accept_session().unwrap();
    srv.dispatch(t, true, false, Some(&drained(&[5, 1, 0])));
    srv.dispatch(t, false, true, None);
    srv.note_write(t, &WriteEnd::Wrote(2));

    // BIND is refused; no reply beyond the earlier 05 00
    let req = [5u8, 2, 0, 1, 127, 0, 0, 1, 0, 80];
    let step = srv.dispatch(t, true, false, Some(&drained(&req)));
    assert!(matches!(step.action, Action::Idle));
    let closed = step.closed.expect("the session must close");
    assert_eq!(closed.parent, t);
    assert!(closed.child.is_none());

    // the token routes nowhere afterwards
    let step = srv.dispatch(t, true, false, Some(&drained(b"x")));
    assert!(step.session.is_none());
    assert!(matches!(step.action, Action::Idle));
}

#[test]
fn upstream_refusal_closes_session() {
    let mut srv = server();
    let (t, child) = handshake_ipv4(&mut srv);
    let line: &[u8] = b"CONNECT 127.0.0.1:80 HTTP/1.1\r\nProxy-Connection: keep-alive\r\nConnection: keep-alive\r\nHost: 127.0.0.1:80\r\n\r\n";
    let step = srv.dispatch(child, false, true, None);
    match &step.action {
        Action::SendUpstream(out) => assert_eq!(out.as_slice(), line),
        _ => panic!("expected the CONNECT line"),
    }
    srv.note_write(child, &WriteEnd::Wrote(line.len()));

    let answer = b"HTTP/1.1 407 Proxy Authentication Required\r\n\r\n";
    let step = srv.dispatch(child, true, true, Some(&drained(answer)));
    assert!(matches!(step.action, Action::Idle));
    let closed = step.closed.expect("the session must close");
    assert_eq!(closed.parent, t);
    assert_eq!(closed.child, Some(child));
}

#[test]
fn wrong_socks_version_closes_session() {
    let mut srv = server();
    let t = srv.accept_session().unwrap();
    let step = srv.dispatch(t, true, false, Some(&drained(&[4, 1, 0])));
    assert!(matches!(step.action, Action::Idle));
    let closed = step.closed.expect("the session must close");
    assert_eq!(closed.parent, t);
}

#[test]
fn relay_eof_tears_whole_session_down() {
    let mut srv = server();
    let (t, child) = handshake_ipv4(&mut srv);
    let line: &[u8] = b"CONNECT 127.0.0.1:80 HTTP/1.1\r\nProxy-Connection: keep-alive\r\nConnection: keep-alive\r\nHost: 127.0.0.1:80\r\n\r\n";
    upstream_ok(&mut srv, t, child, line);

    // upstream closes: the whole session is torn down in this step
    let step = srv.dispatch(child, true, false, Some(&eof()));
    let closed = step.closed.expect("the session must close");
    assert_eq!(closed.parent, t);
    assert_eq!(closed.child, Some(child));

    // both tokens route nowhere afterwards
    let step = srv.dispatch(t, false, true, None);
    assert!(step.session.is_none());
    let step = srv.dispatch(child, true, false, Some(&drained(b"x")));
    assert!(step.session.is_none());
}

#[test]
fn short_write_is_fatal() {
    let mut srv = server();
    let t = srv.accept_session().unwrap();
    srv.dispatch(t, true, false, Some(&drained(&[5, 1, 0])));
    let step = srv.dispatch(t, false, true, None);
    match &step.action {
        Action::ReplyInbound(out) => assert_eq!(out.as_slice(), &[5u8, 0u8]),
        _ => panic!("expected the method reply"),
    }
    // the kernel accepted only one of the two bytes
    let step = srv.note_write(t, &WriteEnd::Wrote(1));
    let closed = step.closed.expect("the session must close");
    assert_eq!(closed.parent, t);
}

#[test]
fn echoing_upstream_returns_bytes_unchanged() {
    let mut srv = server();
    let (t, child) = handshake_ipv4(&mut srv);
    let line: &[u8] = b"CONNECT 127.0.0.1:80 HTTP/1.1\r\nProxy-Connection: keep-alive\r\nConnection: keep-alive\r\nHost: 127.0.0.1:80\r\n\r\n";
    upstream_ok(&mut srv, t, child, line);

    let burst: &[u8] = b"any byte sequence \x00\xff\x7f goes through";
    let step = srv.dispatch(t, true, false, Some(&drained(burst)));
    let sent = match step.action {
        Action::SendUpstream(out) => out,
        _ => panic!("expected the burst to go upstream"),
    };
    assert_eq!(sent.as_slice(), burst);
    // the upstream echoes the very bytes back
    let step = srv.dispatch(child, true, false, Some(&drained(&sent)));
    match &step.action {
        Action::ReplyInbound(back) => assert_eq!(back.as_slice(), burst),
        _ => panic!("expected the echoed burst back"),
    }
}

#[test]
fn combined_event_answers_method_request_at_once() {
    // one readiness event carrying both bits: the request is read and the
    // reply emitted in the same step
    let mut srv = server();
    let t = srv.accept_session().unwrap();
    let step = srv.dispatch(t, true, true, Some(&drained(&[5, 1, 0])));
    assert!(step.closed.is_none());
    match &step.action {
        Action::ReplyInbound(out) => assert_eq!(out.as_slice(), &[5u8, 0u8]),
        _ => panic!("expected the method reply in the same step"),
    }
}

#[test]
fn both_tokens_route_to_the_session() {
    let mut srv = server();
    let (t, child) = handshake_ipv4(&mut srv);
    let line: &[u8] = b"CONNECT 127.0.0.1:80 HTTP/1.1\r\nProxy-Connection: keep-alive\r\nConnection: keep-alive\r\nHost: 127.0.0.1:80\r\n\r\n";
    upstream_ok(&mut srv, t, child, line);
    let step = srv.dispatch(t, true, false, Some(&drained(b"a")));
    assert_eq!(step.session, Some(t));
    let step = srv.dispatch(child, true, false, Some(&drained(b"b")));
    assert_eq!(step.session, Some(t));
    // an unrelated token routes nowhere
    let step = srv.dispatch(child + 1000, true, false, Some(&drained(b"c")));
    assert!(step.session.is_none());
}

#[test]
fn inbound_eof_closes_session() {
    let mut srv = server();
    let t = srv.accept_session().unwrap();
    let step = srv.dispatch(t, true, false, Some(&eof()));
    let closed = step.closed.expect("the session must close");
    assert_eq!(closed.parent, t);
}
