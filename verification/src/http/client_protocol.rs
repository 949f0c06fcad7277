//! The upstream wire protocol: the exact CONNECT request line, the status
//! line of the proxy's answer, and the two relay steps of the client.

use vstd::prelude::*;

use crate::addr::{dec_spec, dec_u16, lemma_dec_len, pow10};
use crate::buffer::buf_to_vec;
use crate::event::{copy_bytes, ReadOutcome};
use crate::http::client::{ClientStep, HttpClient, HttpClientState};

verus! {

/// The opening of the request line: `CONNECT `.
pub open spec fn line_head() -> Seq<u8> {
    seq![67u8, 79u8, 78u8, 78u8, 69u8, 67u8, 84u8, 32u8]
}

/// Between the two `host:port` copies: the HTTP version, the keep-alive
/// headers, and the opening of the `Host` header.
pub open spec fn line_mid() -> Seq<u8> {
    seq![
        32u8, 72u8, 84u8, 84u8, 80u8, 47u8, 49u8, 46u8, 49u8, 13u8, 10u8, 80u8,
        114u8, 111u8, 120u8, 121u8, 45u8, 67u8, 111u8, 110u8, 110u8, 101u8, 99u8, 116u8,
        105u8, 111u8, 110u8, 58u8, 32u8, 107u8, 101u8, 101u8, 112u8, 45u8, 97u8, 108u8,
        105u8, 118u8, 101u8, 13u8, 10u8, 67u8, 111u8, 110u8, 110u8, 101u8, 99u8, 116u8,
        105u8, 111u8, 110u8, 58u8, 32u8, 107u8, 101u8, 101u8, 112u8, 45u8, 97u8, 108u8,
        105u8, 118u8, 101u8, 13u8, 10u8, 72u8, 111u8, 115u8, 116u8, 58u8, 32u8,
    ]
}

/// The closing empty line: `\r\n\r\n`.
pub open spec fn line_tail() -> Seq<u8> {
    seq![13u8, 10u8, 13u8, 10u8]
}

/// `host:port` with the port in decimal.
pub open spec fn host_port(host: Seq<u8>, port: u16) -> Seq<u8> {
    host + seq![58u8] + dec_spec(port as nat)
}

/// The whole CONNECT request:
/// `CONNECT host:port HTTP/1.1\r\nProxy-Connection: keep-alive\r\n`
/// `Connection: keep-alive\r\nHost: host:port\r\n\r\n`.
pub open spec fn connect_line_spec(host: Seq<u8>, port: u16) -> Seq<u8> {
    line_head() + host_port(host, port) + line_mid() + host_port(host, port) + line_tail()
}

/// Whether `b` is an ASCII decimal digit.
pub open spec fn is_digit(b: u8) -> bool {
    48 <= b <= 57
}

/// The status code of an HTTP answer: the three bytes at offsets 9 to 11
/// read as decimal digits, absent if the answer is shorter than 12 bytes
/// or any of the three is no digit.
pub open spec fn status_of(d: Seq<u8>) -> Option<u16> {
    if d.len() >= 12 && is_digit(d[9]) && is_digit(d[10]) && is_digit(d[11]) {
        Some((((d[9] - 48) * 100 + (d[10] - 48) * 10 + (d[11] - 48)) as u16))
    } else {
        None
    }
}

fn head_bytes() -> (r: Vec<u8>)
    ensures
        r@ == line_head(),
{
    let mut r: Vec<u8> = Vec::new();
    r.push(67);
    r.push(79);
    r.push(78);
    r.push(78);
    r.push(69);
    r.push(67);
    r.push(84);
    r.push(32);
    assert(r@ =~= line_head());
    r
}

fn mid_bytes() -> (r: Vec<u8>)
    ensures
        r@ == line_mid(),
{
    let mut r: Vec<u8> = Vec::new();
    r.push(32);
    r.push(72);
    r.push(84);
    r.push(84);
    r.push(80);
    r.push(47);
    r.push(49);
    r.push(46);
    r.push(49);
    r.push(13);
    r.push(10);
    r.push(80);
    r.push(114);
    r.push(111);
    r.push(120);
    r.push(121);
    r.push(45);
    r.push(67);
    r.push(111);
    r.push(110);
    r.push(110);
    r.push(101);
    r.push(99);
    r.push(116);
    r.push(105);
    r.push(111);
    r.push(110);
    r.push(58);
    r.push(32);
    r.push(107);
    r.push(101);
    r.push(101);
    r.push(112);
    r.push(45);
    r.push(97);
    r.push(108);
    r.push(105);
    r.push(118);
    r.push(101);
    r.push(13);
    r.push(10);
    r.push(67);
    r.push(111);
    r.push(110);
    r.push(110);
    r.push(101);
    r.push(99);
    r.push(116);
    r.push(105);
    r.push(111);
    r.push(110);
    r.push(58);
    r.push(32);
    r.push(107);
    r.push(101);
    r.push(101);
    r.push(112);
    r.push(45);
    r.push(97);
    r.push(108);
    r.push(105);
    r.push(118);
    r.push(101);
    r.push(13);
    r.push(10);
    r.push(72);
    r.push(111);
    r.push(115);
    r.push(116);
    r.push(58);
    r.push(32);
    assert(r@ =~= line_mid());
    r
}

fn tail_bytes() -> (r: Vec<u8>)
    ensures
        r@ == line_tail(),
{
    let mut r: Vec<u8> = Vec::new();
    r.push(13);
    r.push(10);
    r.push(13);
    r.push(10);
    assert(r@ =~= line_tail());
    r
}

/// Builds the CONNECT request for one destination.
pub fn build_connect_line(host: &Vec<u8>, port: u16) -> (r: Vec<u8>)
    requires
        host@.len() <= 255,
    ensures
        r@ == connect_line_spec(host@, port),
        r@.len() <= 605,
{
    proof {
        assert(pow10(0) == 1);
        assert(pow10(1) == 10);
        assert(pow10(2) == 100);
        assert(pow10(3) == 1000);
        assert(pow10(4) == 10000);
        assert(pow10(5) == 100000);
        lemma_dec_len(port as nat, 5);
    }
    let mut r = head_bytes();
    let mut h1 = copy_bytes(host);
    r.append(&mut h1);
    r.push(58);
    let mut p1 = dec_u16(port);
    r.append(&mut p1);
    let mut m = mid_bytes();
    r.append(&mut m);
    let mut h2 = copy_bytes(host);
    r.append(&mut h2);
    r.push(58);
    let mut p2 = dec_u16(port);
    r.append(&mut p2);
    let mut t = tail_bytes();
    r.append(&mut t);
    assert(r@ =~= connect_line_spec(host@, port));
    r
}

/// Sends the CONNECT line: writes it into the client's buffer, hands it
/// out for the upstream write, and awaits the proxy's answer.
pub fn connection_request(client: &mut HttpClient) -> (out: Vec<u8>)
    requires
        old(client).wf(),
        old(client)@.target.domain.len() <= 255,
    ensures
        final(client).wf(),
        out@ == connect_line_spec(old(client)@.target.domain, old(client)@.target.port),
        final(client)@.buffer == out@,
        final(client)@.size == out@.len(),
        final(client)@.state == HttpClientState::ConnectionEstablished,
        final(client)@.remote == old(client)@.remote,
        final(client)@.target == old(client)@.target,
{
    client.reset_buffer();
    let line = build_connect_line(&client.target.domain, client.target.port);
    client.put_buff(line.as_slice());
    client.set_state(HttpClientState::ConnectionEstablished);
    line
}

/// Reads the proxy's answer: only a drained, non-empty answer with status
/// 200 opens the tunnel; anything else ends the session.
pub fn connection_response(client: &mut HttpClient, input: &ReadOutcome) -> (done: bool)
    requires
        old(client).wf(),
        input.data@.len() <= crate::buffer::BUF_LIMIT,
    ensures
        final(client).wf(),
        crate::http::client::connection_response_post(old(client)@, final(client)@, *input, done),
        final(client)@.remote == old(client)@.remote,
        final(client)@.target == old(client)@.target,
{
    client.clear_buffer();
    if client.read_buffer(input) {
        return true;
    }
    if client.size == 0 {
        return true;
    }
    match client.extract_statuscode() {
        Some(status) => {
            if status != 200 {
                true
            } else {
                client.set_state(HttpClientState::RelayingOUT);
                false
            }
        },
        None => true,
    }
}

/// Takes in what the upstream socket yielded: end of stream closes the
/// machine, otherwise the bytes await their flush to the inbound side.
pub fn relay_in(client: &mut HttpClient, input: &ReadOutcome) -> (done: bool)
    requires
        old(client).wf(),
        input.data@.len() <= crate::buffer::BUF_LIMIT,
    ensures
        final(client).wf(),
        crate::http::client::relay_in_post(old(client)@, final(client)@, *input, done),
        final(client)@.remote == old(client)@.remote,
        final(client)@.target == old(client)@.target,
{
    client.clear_buffer();
    if client.read_buffer(input) {
        return true;
    }
    client.set_state(HttpClientState::RelayingOUT);
    false
}

/// Hands the buffered client payload out for the upstream write; an empty
/// buffer ends the session.
pub fn relay_out(client: &mut HttpClient) -> (r: ClientStep)
    requires
        old(client).wf(),
        old(client)@.size == old(client)@.buffer.len(),
    ensures
        final(client).wf(),
        final(client)@.buffer == old(client)@.buffer,
        final(client)@.size == old(client)@.size,
        final(client)@.remote == old(client)@.remote,
        final(client)@.target == old(client)@.target,
        r.done == (old(client)@.size == 0),
        r.done ==> (r.output is None && final(client)@.state == old(client)@.state),
        !r.done ==> (r.output matches Some(out) && out@ == old(client)@.buffer
            && final(client)@.state == HttpClientState::RelayingIN),
{
    if client.size == 0 {
        return ClientStep { done: true, output: None };
    }
    client.set_state(HttpClientState::RelayingIN);
    let out = buf_to_vec(&client.buffer);
    ClientStep { done: false, output: Some(out) }
}

} // verus!
