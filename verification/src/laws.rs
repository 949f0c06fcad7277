//! The global laws of the gateway, stated over the views that the session
//! and server contracts use, and proved from them.

use vstd::prelude::*;

use crate::event::{Action, ReadOutcome};
use crate::socks::handler::{
    handle_case_post, relay_in_arm_post, relay_out_arm_post, state_order, HandlerStep,
    HandlerView, Socks5Handler, Socks5State,
};
use crate::socks::server::Socks5Server;

verus! {

/// A closed session never moves again: an event dispatched to a handler
/// in `Closed` leaves it exactly as it was and asks nothing of the
/// reactor. Together with the forward bound `state_order` in `handle`'s
/// contract, every session's state progression is an increasing walk
/// along the handshake chain that stops at `Closed`.
pub proof fn lemma_closed_is_terminal(
    pre: HandlerView,
    post: HandlerView,
    token: u64,
    readable: bool,
    writable: bool,
    input: Option<&ReadOutcome>,
    counter: u64,
    r: HandlerStep,
)
    requires
        handle_case_post(pre, post, token, readable, writable, input, counter, r),
        pre.state == Socks5State::Closed,
    ensures
        post == pre,
        !r.done,
        state_order(pre.state) <= state_order(post.state),
{
}

/// A session that has reached the relay owns exactly two live tokens: its
/// own, found in the token table, and its child's, found in the child
/// table — one entry in each, and no other entry of either table leads to
/// this session.
pub proof fn lemma_relaying_session_entries(srv: Socks5Server, s: int)
    requires
        srv.wf(),
        0 <= s < srv.handlers@.len(),
        srv.handlers@[s] is Some,
        (srv.handlers@[s]->Some_0)@.state == Socks5State::Relaying,
    ensures
        ({
            let h = (srv.handlers@[s]->Some_0)@;
            &&& srv.handler_map@.contains_key(h.token) && srv.handler_map@[h.token] == s
            &&& h.child_token is Some
            &&& srv.subtoken@.contains_key(h.child_token->Some_0)
                && srv.subtoken@[h.child_token->Some_0] == h.token
            &&& (forall|t: u64|
                srv.handler_map@.contains_key(t) && srv.handler_map@[t] == s ==> t == h.token)
            &&& (forall|c: u64|
                srv.subtoken@.contains_key(c) && srv.subtoken@[c] == h.token ==> Some(c)
                    == h.child_token)
        }),
{
    let h = (srv.handlers@[s]->Some_0)@;
    assert(srv.handlers@[s] is Some);
    assert forall|c: u64|
        srv.subtoken@.contains_key(c) && srv.subtoken@[c] == h.token implies Some(c)
        == h.child_token by {
        assert(srv.handler_map@.contains_key(srv.subtoken@[c]));
        assert(srv.handler_map@[h.token] == s);
    }
}

/// Round trip through the relay: a burst read from the inbound side is
/// handed to the upstream writer byte for byte, and a burst the upstream
/// side yields is handed back to the inbound writer byte for byte. With
/// an upstream that echoes, every byte sequence sent through the gateway
/// returns exactly as it was sent.
pub proof fn lemma_relay_round_trip(
    pre_in: HandlerView,
    post_in: HandlerView,
    input_in: ReadOutcome,
    r_in: HandlerStep,
    pre_out: HandlerView,
    post_out: HandlerView,
    input_out: ReadOutcome,
    r_out: HandlerStep,
)
    requires
        relay_in_arm_post(pre_in, post_in, input_in, r_in),
        !r_in.done,
        input_in.data@.len() > 0,
        relay_out_arm_post(pre_out, post_out, input_out, r_out),
        !r_out.done,
        input_out.data@ == input_in.data@,
    ensures
        (r_in.action matches Action::SendUpstream(up) && up@ == input_in.data@),
        (r_out.action matches Action::ReplyInbound(back) && back@ == input_in.data@),
{
}

/// Byte-count conservation in the relay: a well-formed session has handed
/// the upstream writer exactly as many bytes as it has read from the
/// inbound socket, and the inbound writer exactly as many as it has read
/// from the upstream socket. The relay contracts advance each pair of
/// counts together, so the balance holds after every step.
pub proof fn lemma_relay_byte_conservation(h: Socks5Handler)
    requires
        h.wf(),
    ensures
        h@.relayed_up == h@.relayed_in,
        h@.relayed_back == h@.relayed_down,
{
}

} // verus!
