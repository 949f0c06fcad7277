//! The SOCKS5 session handler: one inbound connection, its scratch buffer,
//! its destination, and at most one HTTP CONNECT client child. The handler
//! is a state machine driven by readiness events on two tokens — its own
//! inbound socket and the child's upstream socket.

use std::collections::HashMap;

use vstd::prelude::*;

use crate::buffer::{
    buf_at, buf_clear, buf_extend, buf_put_u8, buf_resize, buf_with_capacity, bytes_of, BUF_LIMIT,
};
use crate::datatype::{Target, TargetView};
use crate::event::{Action, Drain, ReadEnd, ReadOutcome, WriteEnd};
use crate::http::client::{HttpClient, HttpClientState, HttpClientView};
use crate::proxy::{Proxy, ProxyView};
use crate::socks::server_protocol::{
    conn_request_post, connection_request, connection_response, method_reply, method_request,
    method_request_post, method_response, relay_in, relay_out, socks_reply,
};

verus! {

broadcast use vstd::std_specs::hash::group_hash_axioms;

/// Where the inbound handshake stands.
#[derive(Clone, Copy, Debug, PartialEq, Eq, Structural)]
pub enum Socks5State {
    MethodRequest,
    MethodResponse,
    ConnectionRequest,
    ClientConnectionRequest,
    ClientConnectionResponse,
    ConnectionResponse,
    Relaying,
    Closed,
}

/// The position of a state along the handshake chain; transitions only
/// ever move forward along it.
pub open spec fn state_order(s: Socks5State) -> int {
    match s {
        Socks5State::MethodRequest => 0,
        Socks5State::MethodResponse => 1,
        Socks5State::ConnectionRequest => 2,
        Socks5State::ClientConnectionRequest => 3,
        Socks5State::ClientConnectionResponse => 4,
        Socks5State::ConnectionResponse => 5,
        Socks5State::Relaying => 6,
        Socks5State::Closed => 7,
    }
}

/// One inbound session.
pub struct Socks5Handler {
    pub token: u64,
    pub buffer: bytes::BytesMut,
    pub size: usize,
    pub intotal: usize,
    pub target: Target,
    pub state: Socks5State,
    pub subproxy: Vec<Proxy>,
    pub client: Option<HttpClient>,
    pub child_token: Option<u64>,
    pub relayed_in: Ghost<int>,
    pub relayed_up: Ghost<int>,
    pub relayed_down: Ghost<int>,
    pub relayed_back: Ghost<int>,
}

/// Mathematical image of a handler.
pub struct HandlerView {
    pub token: u64,
    pub buffer: Seq<u8>,
    pub size: nat,
    pub intotal: nat,
    pub target: TargetView,
    pub state: Socks5State,
    pub subproxy: Seq<ProxyView>,
    pub client: Option<HttpClientView>,
    pub child_token: Option<u64>,
    pub relayed_in: int,
    pub relayed_up: int,
    pub relayed_down: int,
    pub relayed_back: int,
}

impl View for Socks5Handler {
    type V = HandlerView;

    open spec fn view(&self) -> HandlerView {
        HandlerView {
            token: self.token,
            buffer: bytes_of(self.buffer),
            size: self.size as nat,
            intotal: self.intotal as nat,
            target: self.target@,
            state: self.state,
            subproxy: self.subproxy@.map_values(|p: Proxy| p@),
            client: match self.client {
                Some(c) => Some(c@),
                None => None,
            },
            child_token: self.child_token,
            relayed_in: self.relayed_in@,
            relayed_up: self.relayed_up@,
            relayed_down: self.relayed_down@,
            relayed_back: self.relayed_back@,
        }
    }
}

/// A child in good shape: its size within its buffer, both within reach,
/// and its destination short enough for a CONNECT line.
pub open spec fn client_wf(c: HttpClientView) -> bool {
    &&& c.size <= c.buffer.len()
    &&& c.buffer.len() <= BUF_LIMIT
    &&& c.target.domain.len() <= 255
}

/// What one handler step asks of the reactor.
pub struct HandlerStep {
    pub done: bool,
    pub action: Action,
}

/// Which socket the handler will consume on this event: in the relay,
/// whichever socket the event names; during the handshake, the inbound
/// side for its read states and the upstream side while the child's
/// answer is awaited.
pub open spec fn plan_spec(h: HandlerView, token: u64, readable: bool) -> Drain {
    if h.state == Socks5State::Relaying {
        if token == h.token {
            Drain::Inbound
        } else {
            Drain::Upstream
        }
    } else if readable && h.state == Socks5State::MethodRequest && token == h.token {
        Drain::Inbound
    } else if readable && h.state == Socks5State::ConnectionRequest && token == h.token {
        Drain::Inbound
    } else if readable && h.state == Socks5State::ClientConnectionResponse {
        Drain::Upstream
    } else {
        Drain::Nothing
    }
}

impl Socks5Handler {
    /// Bookkeeping in range: size within the buffer, both within reach, a
    /// short enough destination, a configured upstream hop, a well-formed
    /// child, and conserved relay byte counts.
    pub open spec fn core_wf(&self) -> bool {
        &&& self@.size <= self@.buffer.len()
        &&& self@.buffer.len() <= BUF_LIMIT
        &&& self@.target.domain.len() <= 255
        &&& self@.subproxy.len() >= 1
        &&& (self@.client matches Some(c) ==> client_wf(c))
        &&& self@.relayed_in == self@.relayed_up
        &&& self@.relayed_down == self@.relayed_back
    }

    /// The session invariant: the core bookkeeping, and the child exactly
    /// in step with the parent — absent before the CONNECT request is
    /// parsed, fresh while its connection is opened, awaiting the answer
    /// while the parent does, and past its own handshake thereafter.
    pub open spec fn wf(&self) -> bool {
        &&& self.core_wf()
        &&& (self@.client is Some <==> self@.child_token is Some)
        &&& (state_order(self@.state) < 3 ==> self@.client is None)
        &&& (self@.state == Socks5State::ClientConnectionRequest ==> (self@.client matches Some(c)
            && c.state == HttpClientState::ConnectionRequest && c.size == 0))
        &&& (self@.state == Socks5State::ClientConnectionResponse ==> (self@.client matches Some(c)
            && c.state == HttpClientState::ConnectionEstablished))
        &&& (self@.state == Socks5State::ConnectionResponse || self@.state
            == Socks5State::Relaying ==> (self@.client matches Some(c) && c.state
            != HttpClientState::ConnectionRequest))
    }

    /// A fresh session on an accepted connection.
    pub fn new(token: u64, subproxy: Vec<Proxy>) -> (r: Self)
        requires
            subproxy@.len() >= 1,
        ensures
            r.wf(),
            r@.token == token,
            r@.buffer == Seq::new(4096, |i: int| 0u8),
            r@.size == 0,
            r@.intotal == 0,
            r@.state == Socks5State::MethodRequest,
            r@.target.ip == Seq::<u8>::empty(),
            r@.target.port == 8080,
            r@.target.domain == Seq::<u8>::empty(),
            r@.subproxy == subproxy@.map_values(|p: Proxy| p@),
            r@.client is None,
            r@.child_token is None,
            r@.relayed_in == 0 && r@.relayed_up == 0,
            r@.relayed_down == 0 && r@.relayed_back == 0,
    {
        let mut buffer = buf_with_capacity(4096);
        buf_resize(&mut buffer, 4096, 0);
        proof {
            assert(bytes_of(buffer) =~= Seq::new(4096, |i: int| 0u8));
        }
        Socks5Handler {
            token,
            buffer,
            size: 0,
            intotal: 0,
            target: Target::new(),
            state: Socks5State::MethodRequest,
            subproxy,
            client: None,
            child_token: None,
            relayed_in: Ghost(0),
            relayed_up: Ghost(0),
            relayed_down: Ghost(0),
            relayed_back: Ghost(0),
        }
    }

    /// Applies the outcome of draining the inbound socket: the buffer now
    /// holds what was read, the running inbound total grows by it, and end
    /// of stream closes the session.
    pub fn read_stream(&mut self, input: &ReadOutcome) -> (done: bool)
        requires
            input.data@.len() <= BUF_LIMIT,
        ensures
            final(self)@ == (HandlerView {
                buffer: input.data@,
                size: input.data@.len(),
                intotal: sat_add(old(self)@.intotal, input.data@.len()),
                state: if input.end is Eof {
                    Socks5State::Closed
                } else {
                    old(self)@.state
                },
                ..old(self)@
            }),
            done == !(input.end is Drained),
    {
        buf_clear(&mut self.buffer);
        buf_extend(&mut self.buffer, input.data.as_slice());
        self.size = input.data.len();
        if self.intotal <= usize::MAX - input.data.len() {
            self.intotal = self.intotal + input.data.len();
        } else {
            self.intotal = usize::MAX;
        }
        match input.end {
            ReadEnd::Drained => false,
            ReadEnd::Eof => {
                self.state = Socks5State::Closed;
                true
            },
            ReadEnd::Failed => true,
        }
    }

    /// Applies the outcome of one write attempt on the inbound socket: a
    /// short write or an error ends the session, `WouldBlock` waits, an
    /// interrupt closes it.
    pub fn write_stream(&mut self, end: &WriteEnd) -> (done: bool)
        ensures
            final(self)@ == (HandlerView {
                state: if end is Interrupted {
                    Socks5State::Closed
                } else {
                    old(self)@.state
                },
                ..old(self)@
            }),
            done == (match *end {
                WriteEnd::Wrote(n) => n < old(self)@.size,
                WriteEnd::WouldBlock => false,
                WriteEnd::Interrupted => true,
                WriteEnd::Failed => true,
            }),
    {
        match *end {
            WriteEnd::Wrote(n) => n < self.size,
            WriteEnd::WouldBlock => false,
            WriteEnd::Interrupted => {
                self.state = Socks5State::Closed;
                true
            },
            WriteEnd::Failed => true,
        }
    }

    /// Moves the session to `state`.
    pub fn set_state(&mut self, state: Socks5State)
        ensures
            final(self)@ == (HandlerView { state, ..old(self)@ }),
    {
        self.state = state;
    }

    /// Replaces the session's destination.
    pub fn set_target(&mut self, value: Target)
        ensures
            final(self)@ == (HandlerView { target: value@, ..old(self)@ }),
    {
        self.target = value;
    }

    /// Fills in the resolved address text of the destination.
    pub fn set_target_ip(&mut self, ip: Vec<u8>)
        ensures
            final(self)@ == (HandlerView {
                target: TargetView { ip: ip@, ..old(self)@.target },
                ..old(self)@
            }),
    {
        self.target.ip = ip;
    }

    /// Appends one meaningful byte to the buffer.
    pub fn put_buffer(&mut self, value: u8)
        requires
            old(self)@.buffer.len() < BUF_LIMIT,
            old(self)@.size < BUF_LIMIT,
        ensures
            final(self)@ == (HandlerView {
                buffer: old(self)@.buffer.push(value),
                size: old(self)@.size + 1,
                ..old(self)@
            }),
    {
        self.size = self.size + 1;
        buf_put_u8(&mut self.buffer, value);
    }

    /// Empties the buffer and restores its 4096-byte zeroed shape.
    pub fn clear_buffer(&mut self)
        ensures
            final(self)@ == (HandlerView {
                buffer: Seq::new(4096, |i: int| 0u8),
                size: 0,
                ..old(self)@
            }),
    {
        buf_clear(&mut self.buffer);
        buf_resize(&mut self.buffer, 4096, 0);
        self.size = 0;
        proof {
            assert(bytes_of(self.buffer) =~= Seq::new(4096, |i: int| 0u8));
        }
    }

    /// Empties the buffer and its size count.
    pub fn reset_buffer(&mut self)
        ensures
            final(self)@ == (HandlerView {
                buffer: Seq::<u8>::empty(),
                size: 0,
                ..old(self)@
            }),
    {
        buf_clear(&mut self.buffer);
        self.size = 0;
    }

    /// The bytes at `start..start + n` of the buffer, copied out; the
    /// counterpart of reading a fixed window of the request.
    pub fn extract_buffer(&self, start: usize, n: usize) -> (r: Vec<u8>)
        requires
            start + n <= self@.buffer.len(),
            self@.buffer.len() <= BUF_LIMIT,
        ensures
            r@ == self@.buffer.subrange(start as int, start as int + n as int),
    {
        let mut r: Vec<u8> = Vec::new();
        let mut i: usize = 0;
        while i < n
            invariant
                i <= n,
                start + n <= self@.buffer.len(),
                self@.buffer.len() <= BUF_LIMIT,
                r@ == self@.buffer.subrange(start as int, start as int + i as int),
            decreases n - i,
        {
            r.push(buf_at(&self.buffer, start + i));
            i += 1;
            proof {
                assert(r@ =~= self@.buffer.subrange(start as int, start as int + i as int));
            }
        }
        r
    }

    /// Counts one inbound burst handed to the upstream writer.
    pub fn note_relay_in(&mut self, n: usize)
        ensures
            final(self)@ == (HandlerView {
                relayed_in: old(self)@.relayed_in + n,
                relayed_up: old(self)@.relayed_up + n,
                ..old(self)@
            }),
    {
        let ghost m = n as int;
        self.relayed_in = Ghost(self.relayed_in@ + m);
        self.relayed_up = Ghost(self.relayed_up@ + m);
    }

    /// Counts one upstream burst handed to the inbound writer.
    pub fn note_relay_out(&mut self, n: usize)
        ensures
            final(self)@ == (HandlerView {
                relayed_down: old(self)@.relayed_down + n,
                relayed_back: old(self)@.relayed_back + n,
                ..old(self)@
            }),
    {
        let ghost m = n as int;
        self.relayed_down = Ghost(self.relayed_down@ + m);
        self.relayed_back = Ghost(self.relayed_back@ + m);
    }

    /// Creates the upstream client for the parsed destination, mints its
    /// token, and records it in the child-to-parent table. Refused only
    /// when the token counter is exhausted.
    pub fn spawn_client(&mut self, unique_token: &mut u64, subtoken: &mut HashMap<u64, u64>) -> (r:
        Option<u64>)
        requires
            old(self)@.subproxy.len() >= 1,
            old(self)@.client is None,
            old(self)@.target.domain.len() <= 255,
        ensures
            match r {
                None => {
                    &&& *old(unique_token) == u64::MAX
                    &&& final(self)@ == old(self)@
                    &&& *final(unique_token) == *old(unique_token)
                    &&& final(subtoken)@ == old(subtoken)@
                },
                Some(t) => {
                    &&& *old(unique_token) < u64::MAX
                    &&& t == *old(unique_token)
                    &&& *final(unique_token) == *old(unique_token) + 1
                    &&& final(subtoken)@ == old(subtoken)@.insert(t, old(self)@.token)
                    &&& final(self)@ == (HandlerView {
                        client: Some(HttpClientView {
                            remote: old(self)@.subproxy[0],
                            target: old(self)@.target,
                            buffer: Seq::new(4096, |i: int| 0u8),
                            size: 0,
                            state: HttpClientState::ConnectionRequest,
                        }),
                        child_token: Some(t),
                        ..old(self)@
                    })
                },
            },
    {
        if *unique_token == u64::MAX {
            return None;
        }
        let t: u64 = *unique_token;
        *unique_token = t + 1;
        let proxy = self.subproxy[0].duplicate();
        let client = HttpClient::new(proxy, self.target.duplicate());
        self.client = Some(client);
        self.child_token = Some(t);
        subtoken.insert(t, self.token);
        Some(t)
    }

    /// Which socket this event will make the handler consume.
    pub fn plan(&self, token: u64, readable: bool) -> (d: Drain)
        ensures
            d == plan_spec(self@, token, readable),
    {
        if matches!(self.state, Socks5State::Relaying) {
            if token == self.token {
                Drain::Inbound
            } else {
                Drain::Upstream
            }
        } else if readable && matches!(self.state, Socks5State::MethodRequest) && token
            == self.token {
            Drain::Inbound
        } else if readable && matches!(self.state, Socks5State::ConnectionRequest) && token
            == self.token {
            Drain::Inbound
        } else if readable && matches!(self.state, Socks5State::ClientConnectionResponse) {
            Drain::Upstream
        } else {
            Drain::Nothing
        }
    }

    /// Advances the session one step on a readiness event: reads drive the
    /// handshake and the relay, writes emit the buffered replies, and the
    /// child is driven through its own steps on its token's events. The
    /// state only ever moves forward along the handshake chain.
    pub fn handle(
        &mut self,
        token: u64,
        readable: bool,
        writable: bool,
        input: Option<&ReadOutcome>,
        unique_token: &mut u64,
        subtoken: &mut HashMap<u64, u64>,
    ) -> (r: HandlerStep)
        requires
            old(self).wf(),
            (input matches Some(i) ==> i.data@.len() <= BUF_LIMIT),
            plan_spec(old(self)@, token, readable) != Drain::Nothing ==> input is Some,
        ensures
            final(self).wf(),
            state_order(old(self)@.state) <= state_order(final(self)@.state),
            final(self)@.token == old(self)@.token,
            final(self)@.subproxy == old(self)@.subproxy,
            (r.action matches Action::OpenUpstream { child_token } ==> {
                &&& *old(unique_token) < u64::MAX
                &&& child_token == *old(unique_token)
                &&& *final(unique_token) == *old(unique_token) + 1
                &&& final(subtoken)@ == old(subtoken)@.insert(child_token, old(self)@.token)
                &&& final(self)@.child_token == Some(child_token)
                &&& final(self)@.state == Socks5State::ClientConnectionRequest
                &&& !r.done
            }),
            !(r.action is OpenUpstream) ==> (*final(unique_token) == *old(unique_token)
                && final(subtoken)@ == old(subtoken)@ && final(self)@.child_token == old(self)@.child_token),
            handle_case_post(
                old(self)@,
                final(self)@,
                token,
                readable,
                writable,
                input,
                *old(unique_token),
                r,
            ),
    {
        if readable {
            if matches!(self.state, Socks5State::MethodRequest) && token == self.token {
                let done = method_request(self, input.unwrap());
                if done {
                    return HandlerStep { done: true, action: Action::Idle };
                }
            } else if matches!(self.state, Socks5State::ConnectionRequest) && token == self.token {
                let step = connection_request(self, input.unwrap());
                if step.done {
                    return HandlerStep { done: true, action: Action::Idle };
                }
                match step.resolve {
                    Some(rq) => {
                        return HandlerStep {
                            done: false,
                            action: Action::Resolve { domain: rq.domain, port: rq.port },
                        };
                    },
                    None => {
                        match self.spawn_client(unique_token, subtoken) {
                            Some(t) => {
                                return HandlerStep {
                                    done: false,
                                    action: Action::OpenUpstream { child_token: t },
                                };
                            },
                            None => {
                                self.set_state(Socks5State::Closed);
                                return HandlerStep { done: true, action: Action::Idle };
                            },
                        }
                    },
                }
            } else if matches!(self.state, Socks5State::ClientConnectionResponse) {
                self.set_state(Socks5State::ConnectionResponse);
                let done: bool;
                match self.client.as_mut() {
                    Some(c) => {
                        let step = c.handle(input, None);
                        done = step.done;
                    },
                    None => {
                        return vstd::pervasive::unreached();
                    },
                }
                if done {
                    return HandlerStep { done: true, action: Action::Idle };
                }
            }
        }
        if writable {
            if matches!(self.state, Socks5State::MethodResponse) {
                let out = method_response(self);
                return HandlerStep { done: false, action: Action::ReplyInbound(out) };
            } else if matches!(self.state, Socks5State::ClientConnectionRequest) {
                self.set_state(Socks5State::ClientConnectionResponse);
                match self.client.as_mut() {
                    Some(c) => {
                        let step = c.handle(None, None);
                        match step.output {
                            Some(line) => {
                                return HandlerStep {
                                    done: false,
                                    action: Action::SendUpstream(line),
                                };
                            },
                            None => {
                                return vstd::pervasive::unreached();
                            },
                        }
                    },
                    None => {
                        return vstd::pervasive::unreached();
                    },
                }
            } else if matches!(self.state, Socks5State::ConnectionResponse) {
                let out = connection_response(self);
                return HandlerStep { done: false, action: Action::ReplyInbound(out) };
            }
        }
        if matches!(self.state, Socks5State::Relaying) {
            if token != self.token {
                let step = relay_out(self, input.unwrap());
                let action = match step.output {
                    Some(data) => Action::ReplyInbound(data),
                    None => Action::Idle,
                };
                return HandlerStep { done: step.done, action };
            } else {
                let step = relay_in(self, input.unwrap());
                let action = match step.output {
                    Some(data) => Action::SendUpstream(data),
                    None => Action::Idle,
                };
                return HandlerStep { done: step.done, action };
            }
        }
        HandlerStep { done: false, action: Action::Idle }
    }
}

/// Addition on the inbound total, capped as the machine caps it.
pub open spec fn sat_add(a: nat, b: nat) -> nat {
    if a + b <= usize::MAX {
        a + b
    } else {
        usize::MAX as nat
    }
}

/// The exact per-event outcome of `handle`, case by case over the state
/// the event met and the sockets it named.
pub open spec fn handle_case_post(
    pre: HandlerView,
    post: HandlerView,
    token: u64,
    readable: bool,
    writable: bool,
    input: Option<&ReadOutcome>,
    counter: u64,
    r: HandlerStep,
) -> bool {
    let rd_method = readable && pre.state == Socks5State::MethodRequest && token == pre.token;
    let rd_conn = readable && pre.state == Socks5State::ConnectionRequest && token == pre.token;
    let rd_child = readable && pre.state == Socks5State::ClientConnectionResponse;
    let wr_method = pre.state == Socks5State::MethodResponse && writable;
    let wr_child = pre.state == Socks5State::ClientConnectionRequest && writable;
    let wr_conn = pre.state == Socks5State::ConnectionResponse && writable;
    let relaying = pre.state == Socks5State::Relaying;
    &&& (rd_method ==> method_arm_post(pre, post, *input->Some_0, writable, r))
    &&& (rd_conn ==> conn_arm_post(pre, post, *input->Some_0, counter, r))
    &&& (rd_child ==> child_response_arm_post(pre, post, *input->Some_0, writable, r))
    &&& (wr_method ==> {
        &&& !r.done
        &&& (r.action matches Action::ReplyInbound(out) && out@ == method_reply())
        &&& post == (HandlerView {
            buffer: method_reply(),
            size: 2,
            state: Socks5State::ConnectionRequest,
            ..pre
        })
    })
    &&& (wr_child ==> {
        &&& !r.done
        &&& (r.action matches Action::SendUpstream(line) && line@
            == crate::http::client_protocol::connect_line_spec(
            pre.client->Some_0.target.domain,
            pre.client->Some_0.target.port,
        ))
        &&& post == (HandlerView {
            state: Socks5State::ClientConnectionResponse,
            client: Some(HttpClientView {
                buffer: crate::http::client_protocol::connect_line_spec(
                    pre.client->Some_0.target.domain,
                    pre.client->Some_0.target.port,
                ),
                size: crate::http::client_protocol::connect_line_spec(
                    pre.client->Some_0.target.domain,
                    pre.client->Some_0.target.port,
                ).len(),
                state: HttpClientState::ConnectionEstablished,
                ..pre.client->Some_0
            }),
            ..pre
        })
    })
    &&& (wr_conn ==> {
        &&& !r.done
        &&& (r.action matches Action::ReplyInbound(out) && out@ == socks_reply())
        &&& post == (HandlerView {
            buffer: socks_reply(),
            size: 10,
            state: Socks5State::Relaying,
            ..pre
        })
    })
    &&& (relaying && token == pre.token ==> relay_in_arm_post(pre, post, *input->Some_0, r))
    &&& (relaying && token != pre.token ==> relay_out_arm_post(pre, post, *input->Some_0, r))
    &&& (!rd_method && !rd_conn && !rd_child && !wr_method && !wr_child && !wr_conn && !relaying
        ==> (post == pre && !r.done && r.action is Idle))
}

/// The method-negotiation arm: on failure the session ends; on success
/// the reply is emitted at once when the event is also writable, else it
/// waits for the next writable event.
pub open spec fn method_arm_post(
    pre: HandlerView,
    post: HandlerView,
    input: ReadOutcome,
    writable: bool,
    r: HandlerStep,
) -> bool {
    let d = input.data@;
    let ok = input.end is Drained && crate::socks::server_protocol::method_ok(d);
    if !ok {
        &&& r.done
        &&& r.action is Idle
        &&& method_request_post(pre, post, input, true)
    } else if writable {
        &&& !r.done
        &&& (r.action matches Action::ReplyInbound(out) && out@ == method_reply())
        &&& post == (HandlerView {
            buffer: method_reply(),
            size: 2,
            intotal: sat_add(pre.intotal, d.len()),
            state: Socks5State::ConnectionRequest,
            ..pre
        })
    } else {
        &&& !r.done
        &&& r.action is Idle
        &&& method_request_post(pre, post, input, false)
    }
}

/// The CONNECT-request arm: a bad request ends the session, a domain
/// request asks for resolution, an address request spawns the upstream
/// client — or, exactly when no token is left to mint, ends the session.
pub open spec fn conn_arm_post(
    pre: HandlerView,
    post: HandlerView,
    input: ReadOutcome,
    counter: u64,
    r: HandlerStep,
) -> bool {
    let d = input.data@;
    let fed = HandlerView {
        buffer: d,
        size: d.len(),
        intotal: sat_add(pre.intotal, d.len()),
        ..pre
    };
    if !(input.end is Drained) || !(crate::socks::server_protocol::conn_ipv4_ok(d)
        || crate::socks::server_protocol::conn_ipv6_ok(d)
        || crate::socks::server_protocol::conn_domain_ok(d)) {
        &&& r.done
        &&& r.action is Idle
        &&& conn_request_post(pre, post, input, crate::socks::server_protocol::ConnStep {
            done: true,
            resolve: None,
        })
    } else if crate::socks::server_protocol::conn_domain_ok(d) {
        &&& !r.done
        &&& (r.action matches Action::Resolve { domain, port } && domain@
            == crate::socks::server_protocol::conn_domain(d) && port
            == crate::socks::server_protocol::conn_port(d))
        &&& post == (HandlerView {
            target: TargetView {
                ip: Seq::<u8>::empty(),
                port: crate::socks::server_protocol::conn_port(d),
                domain: crate::socks::server_protocol::conn_domain(d),
            },
            ..fed
        })
    } else {
        let text = if crate::socks::server_protocol::conn_ipv4_ok(d) {
            crate::socks::server_protocol::conn_ipv4_text(d)
        } else {
            crate::socks::server_protocol::conn_ipv6_text(d)
        };
        let target = TargetView {
            ip: text,
            port: crate::socks::server_protocol::conn_port(d),
            domain: text,
        };
        if counter == u64::MAX {
            // no token left to mint: parsed, but the session closes
            &&& r.done
            &&& r.action is Idle
            &&& post == (HandlerView { state: Socks5State::Closed, target, ..fed })
        } else {
            &&& !r.done
            &&& (r.action matches Action::OpenUpstream { child_token })
            &&& post == (HandlerView {
                state: Socks5State::ClientConnectionRequest,
                target,
                client: Some(HttpClientView {
                    remote: pre.subproxy[0],
                    target,
                    buffer: Seq::new(4096, |i: int| 0u8),
                    size: 0,
                    state: HttpClientState::ConnectionRequest,
                }),
                child_token: Some(r.action->OpenUpstream_child_token),
                ..fed
            })
        }
    }
}

/// The child-answer arm: the parent turns to its own reply step first, the
/// child validates the proxy's answer; failure ends the session, success
/// emits the SOCKS reply at once when the event is also writable.
pub open spec fn child_response_arm_post(
    pre: HandlerView,
    post: HandlerView,
    input: ReadOutcome,
    writable: bool,
    r: HandlerStep,
) -> bool {
    let d = input.data@;
    let ok = input.end is Drained && d.len() > 0 && crate::http::client_protocol::status_of(d)
        == Some(200u16);
    let stepped_client = HttpClientView {
        buffer: d,
        size: d.len(),
        state: if input.end is Eof {
            HttpClientState::Closed
        } else if !ok {
            HttpClientState::ConnectionEstablished
        } else {
            HttpClientState::RelayingOUT
        },
        ..pre.client->Some_0
    };
    if !ok {
        &&& r.done
        &&& r.action is Idle
        &&& post == (HandlerView {
            state: Socks5State::ConnectionResponse,
            client: Some(stepped_client),
            ..pre
        })
    } else if writable {
        &&& !r.done
        &&& (r.action matches Action::ReplyInbound(out) && out@ == socks_reply())
        &&& post == (HandlerView {
            buffer: socks_reply(),
            size: 10,
            state: Socks5State::Relaying,
            client: Some(stepped_client),
            ..pre
        })
    } else {
        &&& !r.done
        &&& r.action is Idle
        &&& post == (HandlerView {
            state: Socks5State::ConnectionResponse,
            client: Some(stepped_client),
            ..pre
        })
    }
}

/// The inbound relay arm: drained bytes go to the child and out to the
/// upstream writer; end of stream or an error ends the session.
pub open spec fn relay_in_arm_post(
    pre: HandlerView,
    post: HandlerView,
    input: ReadOutcome,
    r: HandlerStep,
) -> bool {
    let d = input.data@;
    &&& r.done == !(input.end is Drained)
    &&& post.buffer == d
    &&& post.size == d.len()
    &&& post.state == (if input.end is Eof {
        Socks5State::Closed
    } else {
        Socks5State::Relaying
    })
    &&& (r.done ==> r.action is Idle)
    &&& (!r.done ==> {
        &&& (r.action matches Action::SendUpstream(out) && out@ == d)
        &&& (post.client matches Some(c) && c.buffer == d && c.size == d.len())
        &&& post.relayed_in == pre.relayed_in + d.len()
        &&& post.relayed_up == pre.relayed_up + d.len()
    })
}

/// The upstream relay arm: drained bytes come back through the handler's
/// buffer to the inbound writer; upstream end of stream ends the session.
pub open spec fn relay_out_arm_post(
    pre: HandlerView,
    post: HandlerView,
    input: ReadOutcome,
    r: HandlerStep,
) -> bool {
    let d = input.data@;
    &&& r.done == !(input.end is Drained)
    &&& post.state == Socks5State::Relaying
    &&& (post.client matches Some(c) && c.buffer == d && c.size == d.len() && c.state == (
    if input.end is Eof {
        HttpClientState::Closed
    } else {
        pre.client->Some_0.state
    }))
    &&& (r.done ==> r.action is Idle)
    &&& (!r.done && d.len() == 0 ==> r.action is Idle)
    &&& (!r.done && d.len() > 0 ==> {
        &&& (r.action matches Action::ReplyInbound(out) && out@ == d)
        &&& post.buffer == d
        &&& post.size == 0
        &&& post.relayed_down == pre.relayed_down + d.len()
        &&& post.relayed_back == pre.relayed_back + d.len()
    })
}

} // verus!
