//! The inbound wire protocol: method negotiation, the CONNECT request with
//! its three address forms, the success reply, and the two relay steps.

use vstd::prelude::*;

use crate::addr::{
    ipv4_spec, ipv4_text, ipv6_spec, ipv6_text, lemma_ipv4_text_len, lemma_ipv6_text_len,
};
use crate::buffer::{buf_clone_from, buf_to_vec, BUF_LIMIT};
use crate::datatype::{Target, TargetView};
use crate::event::{copy_bytes, ReadOutcome};
use crate::http::client::HttpClientState;
use crate::socks::handler::{client_wf, sat_add, HandlerView, Socks5Handler, Socks5State};

verus! {

/// A well-formed method-selection message: version 5, a correct count of
/// method octets, and no-auth among them.
pub open spec fn method_ok(d: Seq<u8>) -> bool {
    &&& d.len() >= 3
    &&& d[0] == 5
    &&& d.len() == 2 + (d[1] as int)
    &&& exists|i: int| 2 <= i < d.len() && d[i] == 0
}

/// What reading the method request leaves behind: the drained bytes sit
/// in the buffer, and only a drained, well-formed message carries the
/// session to `MethodResponse`.
pub open spec fn method_request_post(
    pre: HandlerView,
    post: HandlerView,
    input: ReadOutcome,
    done: bool,
) -> bool {
    &&& post == (HandlerView {
        buffer: input.data@,
        size: input.data@.len(),
        intotal: sat_add(pre.intotal, input.data@.len()),
        state: if input.end is Eof {
            Socks5State::Closed
        } else if input.end is Failed {
            pre.state
        } else if method_ok(input.data@) {
            Socks5State::MethodResponse
        } else {
            Socks5State::Closed
        },
        ..pre
    })
    &&& done == !(input.end is Drained && method_ok(input.data@))
}

/// Reads the client's method selection. The message must offer the
/// no-auth method; anything else ends the session.
pub fn method_request(handler: &mut Socks5Handler, input: &ReadOutcome) -> (done: bool)
    requires
        input.data@.len() <= BUF_LIMIT,
    ensures
        method_request_post(old(handler)@, final(handler)@, *input, done),
{
    handler.clear_buffer();
    if handler.read_stream(input) {
        return true;
    }
    let d = buf_to_vec(&handler.buffer);
    if d.len() < 3 {
        handler.set_state(Socks5State::Closed);
        return true;
    }
    let version = d[0];
    let nmethod = d[1];
    if version != 5 {
        handler.set_state(Socks5State::Closed);
        return true;
    }
    if d.len() != 2 + nmethod as usize {
        handler.set_state(Socks5State::Closed);
        return true;
    }
    let mut support_no_auth = false;
    let mut i: usize = 2;
    while i < d.len()
        invariant
            2 <= i <= d@.len(),
            support_no_auth == (exists|j: int| 2 <= j < i && d@[j] == 0),
        decreases d@.len() - i,
    {
        if d[i] == 0 {
            support_no_auth = true;
            assert(d@[i as int] == 0);
        }
        i += 1;
    }
    if !support_no_auth {
        handler.set_state(Socks5State::Closed);
        return true;
    }
    handler.set_state(Socks5State::MethodResponse);
    false
}

/// The two-byte method reply: version 5, no authentication.
pub open spec fn method_reply() -> Seq<u8> {
    seq![5u8, 0u8]
}

/// Writes the method reply into the buffer, hands it out for the inbound
/// write, and awaits the CONNECT request.
pub fn method_response(handler: &mut Socks5Handler) -> (out: Vec<u8>)
    ensures
        out@ == method_reply(),
        final(handler)@ == (HandlerView {
            buffer: method_reply(),
            size: 2,
            state: Socks5State::ConnectionRequest,
            ..old(handler)@
        }),
{
    handler.reset_buffer();
    handler.put_buffer(5);
    handler.put_buffer(0);
    handler.set_state(Socks5State::ConnectionRequest);
    let out = buf_to_vec(&handler.buffer);
    proof {
        assert(final(handler)@.buffer =~= method_reply());
    }
    out
}

/// A CONNECT request head: version 5, command CONNECT, reserved zero.
pub open spec fn conn_head_ok(d: Seq<u8>) -> bool {
    d.len() >= 4 && d[0] == 5 && d[1] == 1 && d[2] == 0
}

/// A complete IPv4 CONNECT request.
pub open spec fn conn_ipv4_ok(d: Seq<u8>) -> bool {
    conn_head_ok(d) && d[3] == 1 && d.len() >= 10
}

/// A complete IPv6 CONNECT request.
pub open spec fn conn_ipv6_ok(d: Seq<u8>) -> bool {
    conn_head_ok(d) && d[3] == 4 && d.len() >= 22
}

/// A complete domain CONNECT request: the length octet's worth of name
/// bytes must be present.
pub open spec fn conn_domain_ok(d: Seq<u8>) -> bool {
    conn_head_ok(d) && d[3] == 3 && d.len() >= 8 && 5 + (d[4] as int) <= d.len()
}

/// The requested port, network byte order, at the position its address
/// form dictates.
pub open spec fn conn_port(d: Seq<u8>) -> u16 {
    if d[3] == 1 {
        ((d[8] as int) * 256 + (d[9] as int)) as u16
    } else if d[3] == 4 {
        ((d[20] as int) * 256 + (d[21] as int)) as u16
    } else {
        ((d[d.len() - 2] as int) * 256 + (d[d.len() - 1] as int)) as u16
    }
}

/// The requested name in a domain request.
pub open spec fn conn_domain(d: Seq<u8>) -> Seq<u8> {
    d.subrange(5, 5 + (d[4] as int))
}

/// The dotted-quad text of an IPv4 request's address.
pub open spec fn conn_ipv4_text(d: Seq<u8>) -> Seq<u8> {
    ipv4_spec(d[4], d[5], d[6], d[7])
}

/// The group text of an IPv6 request's address.
pub open spec fn conn_ipv6_text(d: Seq<u8>) -> Seq<u8> {
    ipv6_spec(d.subrange(4, 20))
}

/// A resolution request handed back to the reactor.
pub struct ResolveReq {
    pub domain: Vec<u8>,
    pub port: u16,
}

/// What reading a CONNECT request asks of the reactor.
pub struct ConnStep {
    pub done: bool,
    pub resolve: Option<ResolveReq>,
}

/// What reading the CONNECT request leaves behind, by address form: an
/// IPv4 or IPv6 request fixes the destination and carries the session to
/// `ClientConnectionRequest`; a domain request fixes name and port and
/// asks for resolution; anything else ends the session.
pub open spec fn conn_request_post(
    pre: HandlerView,
    post: HandlerView,
    input: ReadOutcome,
    r: ConnStep,
) -> bool {
    let d = input.data@;
    let fed = HandlerView {
        buffer: d,
        size: d.len(),
        intotal: sat_add(pre.intotal, d.len()),
        ..pre
    };
    if !(input.end is Drained) {
        &&& r.done
        &&& r.resolve is None
        &&& post == (HandlerView {
            state: if input.end is Eof {
                Socks5State::Closed
            } else {
                pre.state
            },
            ..fed
        })
    } else if conn_ipv4_ok(d) {
        &&& !r.done
        &&& r.resolve is None
        &&& post.target.domain.len() <= 255
        &&& post == (HandlerView {
            state: Socks5State::ClientConnectionRequest,
            target: TargetView {
                ip: conn_ipv4_text(d),
                port: conn_port(d),
                domain: conn_ipv4_text(d),
            },
            ..fed
        })
    } else if conn_ipv6_ok(d) {
        &&& !r.done
        &&& r.resolve is None
        &&& post.target.domain.len() <= 255
        &&& post == (HandlerView {
            state: Socks5State::ClientConnectionRequest,
            target: TargetView {
                ip: conn_ipv6_text(d),
                port: conn_port(d),
                domain: conn_ipv6_text(d),
            },
            ..fed
        })
    } else if conn_domain_ok(d) {
        &&& !r.done
        &&& (r.resolve matches Some(rq) && rq.domain@ == conn_domain(d) && rq.port == conn_port(d))
        &&& post == (HandlerView {
            target: TargetView {
                ip: Seq::<u8>::empty(),
                port: conn_port(d),
                domain: conn_domain(d),
            },
            ..fed
        })
    } else {
        &&& r.done
        &&& r.resolve is None
        &&& post == (HandlerView { state: Socks5State::Closed, ..fed })
    }
}

/// Reads and validates the CONNECT request, fixing the session's
/// destination or asking for a name resolution.
pub fn connection_request(handler: &mut Socks5Handler, input: &ReadOutcome) -> (r: ConnStep)
    requires
        input.data@.len() <= BUF_LIMIT,
    ensures
        conn_request_post(old(handler)@, final(handler)@, *input, r),
{
    handler.clear_buffer();
    if handler.read_stream(input) {
        return ConnStep { done: true, resolve: None };
    }
    let d = buf_to_vec(&handler.buffer);
    if d.len() < 4 {
        handler.set_state(Socks5State::Closed);
        return ConnStep { done: true, resolve: None };
    }
    if d[0] != 5 || d[1] != 1 || d[2] != 0 {
        handler.set_state(Socks5State::Closed);
        return ConnStep { done: true, resolve: None };
    }
    let atyp = d[3];
    if atyp == 1 {
        if d.len() < 10 {
            handler.set_state(Socks5State::Closed);
            return ConnStep { done: true, resolve: None };
        }
        let port: u16 = (d[8] as u16) * 256 + (d[9] as u16);
        let text = ipv4_text(d[4], d[5], d[6], d[7]);
        proof {
            lemma_ipv4_text_len(d@[4], d@[5], d@[6], d@[7]);
        }
        let domain = copy_bytes(&text);
        handler.set_target(Target { ip: text, port, domain });
        handler.set_state(Socks5State::ClientConnectionRequest);
        ConnStep { done: false, resolve: None }
    } else if atyp == 4 {
        if d.len() < 22 {
            handler.set_state(Socks5State::Closed);
            return ConnStep { done: true, resolve: None };
        }
        let port: u16 = (d[20] as u16) * 256 + (d[21] as u16);
        let mut ip16: Vec<u8> = Vec::new();
        let mut i: usize = 0;
        while i < 16
            invariant
                i <= 16,
                d@.len() >= 22,
                ip16@ == d@.subrange(4, 4 + i as int),
            decreases 16 - i,
        {
            ip16.push(d[4 + i]);
            i += 1;
            proof {
                assert(ip16@ =~= d@.subrange(4, 4 + i as int));
            }
        }
        let text = ipv6_text(ip16.as_slice());
        proof {
            lemma_ipv6_text_len(d@.subrange(4, 20));
        }
        let domain = copy_bytes(&text);
        handler.set_target(Target { ip: text, port, domain });
        handler.set_state(Socks5State::ClientConnectionRequest);
        ConnStep { done: false, resolve: None }
    } else if atyp == 3 {
        if d.len() < 8 {
            handler.set_state(Socks5State::Closed);
            return ConnStep { done: true, resolve: None };
        }
        let l = d[4] as usize;
        if 5 + l > d.len() {
            handler.set_state(Socks5State::Closed);
            return ConnStep { done: true, resolve: None };
        }
        let mut domain: Vec<u8> = Vec::new();
        let mut i: usize = 0;
        while i < l
            invariant
                i <= l,
                l <= 255,
                5 + l <= d@.len(),
                domain@ == d@.subrange(5, 5 + i as int),
            decreases l - i,
        {
            domain.push(d[5 + i]);
            i += 1;
            proof {
                assert(domain@ =~= d@.subrange(5, 5 + i as int));
            }
        }
        let port: u16 = (d[d.len() - 2] as u16) * 256 + (d[d.len() - 1] as u16);
        let kept = copy_bytes(&domain);
        handler.set_target(Target { ip: Vec::new(), port, domain: kept });
        ConnStep { done: false, resolve: Some(ResolveReq { domain, port }) }
    } else {
        handler.set_state(Socks5State::Closed);
        ConnStep { done: true, resolve: None }
    }
}

/// Completes a domain CONNECT request once the reactor resolved the name:
/// a resolved address text fills the destination and carries the session
/// to `ClientConnectionRequest`; a failed resolution ends the session.
pub fn resolve_done(handler: &mut Socks5Handler, ip: Option<Vec<u8>>) -> (done: bool)
    ensures
        match ip {
            None => done && final(handler)@ == (HandlerView {
                state: Socks5State::Closed,
                ..old(handler)@
            }),
            Some(a) => !done && final(handler)@ == (HandlerView {
                state: Socks5State::ClientConnectionRequest,
                target: TargetView { ip: a@, ..old(handler)@.target },
                ..old(handler)@
            }),
        },
{
    match ip {
        None => {
            handler.set_state(Socks5State::Closed);
            true
        },
        Some(a) => {
            handler.set_target_ip(a);
            handler.set_state(Socks5State::ClientConnectionRequest);
            false
        },
    }
}

/// The ten-byte success reply: version 5, success, IPv4 form, all-zero
/// bound address and port.
pub open spec fn socks_reply() -> Seq<u8> {
    seq![5u8, 0u8, 0u8, 1u8, 0u8, 0u8, 0u8, 0u8, 0u8, 0u8]
}

/// Writes the success reply into the buffer, hands it out for the inbound
/// write, and enters the relay.
pub fn connection_response(handler: &mut Socks5Handler) -> (out: Vec<u8>)
    ensures
        out@ == socks_reply(),
        final(handler)@ == (HandlerView {
            buffer: socks_reply(),
            size: 10,
            state: Socks5State::Relaying,
            ..old(handler)@
        }),
{
    handler.reset_buffer();
    handler.put_buffer(5);
    handler.put_buffer(0);
    handler.put_buffer(0);
    handler.put_buffer(1);
    handler.put_buffer(0);
    handler.put_buffer(0);
    handler.put_buffer(0);
    handler.put_buffer(0);
    handler.put_buffer(0);
    handler.put_buffer(0);
    handler.set_state(Socks5State::Relaying);
    let out = buf_to_vec(&handler.buffer);
    proof {
        assert(final(handler)@.buffer =~= socks_reply());
    }
    out
}

/// What one relay step asks of the reactor.
pub struct RelayStep {
    pub done: bool,
    pub output: Option<Vec<u8>>,
}

/// Relays inbound bytes toward the upstream: drains the inbound side into
/// the handler's buffer, copies them to the child, and hands them out for
/// the upstream write. End of stream or an error ends the session.
pub fn relay_in(handler: &mut Socks5Handler, input: &ReadOutcome) -> (r: RelayStep)
    requires
        old(handler)@.client is Some,
        input.data@.len() <= BUF_LIMIT,
    ensures
        r.done == !(input.end is Drained),
        final(handler)@.buffer == input.data@,
        final(handler)@.size == input.data@.len(),
        final(handler)@.intotal == sat_add(old(handler)@.intotal, input.data@.len()),
        final(handler)@.token == old(handler)@.token,
        final(handler)@.child_token == old(handler)@.child_token,
        final(handler)@.subproxy == old(handler)@.subproxy,
        final(handler)@.target == old(handler)@.target,
        final(handler)@.state == (if input.end is Eof {
            Socks5State::Closed
        } else {
            old(handler)@.state
        }),
        r.done ==> (r.output is None && final(handler)@.client == old(handler)@.client
            && final(handler)@.relayed_in == old(handler)@.relayed_in
            && final(handler)@.relayed_up == old(handler)@.relayed_up),
        !r.done ==> {
            &&& (r.output matches Some(out) && out@ == input.data@)
            &&& (final(handler)@.client matches Some(c) && c.buffer == input.data@ && c.size
                == input.data@.len() && c.state == old(handler)@.client->Some_0.state
                && c.remote == old(handler)@.client->Some_0.remote && c.target == old(handler)@.client->Some_0.target)
            &&& final(handler)@.relayed_in == old(handler)@.relayed_in + input.data@.len()
            &&& final(handler)@.relayed_up == old(handler)@.relayed_up + input.data@.len()
        },
        final(handler)@.relayed_down == old(handler)@.relayed_down,
        final(handler)@.relayed_back == old(handler)@.relayed_back,
{
    handler.clear_buffer();
    if handler.read_stream(input) {
        return RelayStep { done: true, output: None };
    }
    let out = buf_to_vec(&handler.buffer);
    match handler.client.as_mut() {
        Some(c) => {
            c.reset_buffer();
            c.clone_buffer(&handler.buffer);
        },
        None => {
            return vstd::pervasive::unreached();
        },
    }
    let n = out.len();
    handler.note_relay_in(n);
    RelayStep { done: false, output: Some(out) }
}

/// Relays upstream bytes back toward the client: drains the upstream side
/// into the child's buffer, copies them over, and hands them out for the
/// inbound write. Upstream end of stream or an error ends the session.
pub fn relay_out(handler: &mut Socks5Handler, input: &ReadOutcome) -> (r: RelayStep)
    requires
        (old(handler)@.client matches Some(c) && client_wf(c)),
        input.data@.len() <= BUF_LIMIT,
    ensures
        r.done == !(input.end is Drained),
        final(handler)@.token == old(handler)@.token,
        final(handler)@.child_token == old(handler)@.child_token,
        final(handler)@.subproxy == old(handler)@.subproxy,
        final(handler)@.target == old(handler)@.target,
        final(handler)@.intotal == old(handler)@.intotal,
        final(handler)@.state == old(handler)@.state,
        (final(handler)@.client matches Some(c) && c.buffer == input.data@ && c.size
            == input.data@.len() && c.state == (if input.end is Eof {
            HttpClientState::Closed
        } else {
            old(handler)@.client->Some_0.state
        }) && c.remote == old(handler)@.client->Some_0.remote && c.target == old(handler)@.client->Some_0.target),
        r.done || input.data@.len() == 0 ==> (r.output is None && final(handler)@.buffer
            == Seq::<u8>::empty() && final(handler)@.size == 0 && final(handler)@.relayed_down
            == old(handler)@.relayed_down && final(handler)@.relayed_back == old(handler)@.relayed_back),
        !r.done && input.data@.len() > 0 ==> {
            &&& (r.output matches Some(out) && out@ == input.data@)
            &&& final(handler)@.buffer == input.data@
            &&& final(handler)@.size == 0
            &&& final(handler)@.relayed_down == old(handler)@.relayed_down + input.data@.len()
            &&& final(handler)@.relayed_back == old(handler)@.relayed_back + input.data@.len()
        },
        final(handler)@.relayed_in == old(handler)@.relayed_in,
        final(handler)@.relayed_up == old(handler)@.relayed_up,
{
    handler.reset_buffer();
    let done: bool;
    match handler.client.as_mut() {
        Some(c) => {
            c.clear_buffer();
            done = c.read_buffer(input);
        },
        None => {
            return vstd::pervasive::unreached();
        },
    }
    if done {
        return RelayStep { done: true, output: None };
    }
    let n = match handler.client.as_ref() {
        Some(c) => c.size,
        None => {
            return vstd::pervasive::unreached();
        },
    };
    if n == 0 {
        return RelayStep { done: false, output: None };
    }
    match handler.client.as_ref() {
        Some(c) => {
            buf_clone_from(&mut handler.buffer, &c.buffer);
        },
        None => {
            return vstd::pervasive::unreached();
        },
    }
    let out = buf_to_vec(&handler.buffer);
    let m = out.len();
    handler.note_relay_out(m);
    RelayStep { done: false, output: Some(out) }
}

} // verus!
