//! The HTTP CONNECT client: the per-session state machine that drives the
//! upstream proxy socket. It sends the CONNECT line, validates the `200`
//! answer, and then relays raw bytes. The socket itself lives with the
//! reactor; this machine consumes drain outcomes and produces payloads.

use vstd::prelude::*;

use crate::buffer::{
    buf_at, buf_clear, buf_clone_from, buf_extend, buf_len, buf_resize, buf_to_vec,
    buf_with_capacity, bytes_of, BUF_LIMIT,
};
use crate::datatype::{Target, TargetView};
use crate::event::ReadOutcome;
use crate::http::client_protocol::{
    connection_request, connection_response, relay_in, relay_out, status_of,
};
use crate::proxy::{Proxy, ProxyView};

verus! {

/// Where the upstream handshake stands.
#[derive(Clone, Copy, Debug, PartialEq, Eq, Structural)]
pub enum HttpClientState {
    ConnectionRequest,
    ConnectionEstablished,
    RelayingIN,
    RelayingOUT,
    Closed,
}

/// One upstream session: the configured proxy, the destination, a scratch
/// buffer with its count of meaningful bytes, and the state.
pub struct HttpClient {
    pub remote: Proxy,
    pub target: Target,
    pub buffer: bytes::BytesMut,
    pub size: usize,
    pub state: HttpClientState,
}

/// Mathematical image of an `HttpClient`.
pub struct HttpClientView {
    pub remote: ProxyView,
    pub target: TargetView,
    pub buffer: Seq<u8>,
    pub size: nat,
    pub state: HttpClientState,
}

impl View for HttpClient {
    type V = HttpClientView;

    open spec fn view(&self) -> HttpClientView {
        HttpClientView {
            remote: self.remote@,
            target: self.target@,
            buffer: bytes_of(self.buffer),
            size: self.size as nat,
            state: self.state,
        }
    }
}

/// What one step of the client asks of the reactor: whether the session is
/// over, and bytes to write upstream if any.
pub struct ClientStep {
    pub done: bool,
    pub output: Option<Vec<u8>>,
}

impl HttpClient {
    /// The buffer never outruns its meaningful size, and stays far from
    /// any overflow.
    pub open spec fn wf(&self) -> bool {
        &&& self@.size <= self@.buffer.len()
        &&& self@.buffer.len() <= BUF_LIMIT
    }

    /// A fresh client for one destination through one proxy.
    pub fn new(remote: Proxy, target: Target) -> (r: Self)
        ensures
            r@.remote == remote@,
            r@.target == target@,
            r@.buffer == Seq::new(4096, |i: int| 0u8),
            r@.size == 0,
            r@.state == HttpClientState::ConnectionRequest,
            r.wf(),
    {
        let mut buffer = buf_with_capacity(4096);
        buf_resize(&mut buffer, 4096, 0);
        proof {
            assert(bytes_of(buffer) =~= Seq::new(4096, |i: int| 0u8));
        }
        HttpClient { remote, target, buffer, size: 0, state: HttpClientState::ConnectionRequest }
    }

    /// Advances the machine one step on a readiness event. Drained bytes
    /// arrive in `input`; in `RelayingOUT` the parent's buffer arrives in
    /// `value`.
    pub fn handle(&mut self, input: Option<&ReadOutcome>, value: Option<&bytes::BytesMut>) -> (r:
        ClientStep)
        requires
            old(self).wf(),
            old(self)@.state == HttpClientState::ConnectionRequest
                ==> old(self)@.target.domain.len() <= 255,
            old(self)@.state == HttpClientState::ConnectionEstablished ==> input is Some,
            old(self)@.state == HttpClientState::RelayingIN ==> input is Some,
            input matches Some(i) ==> i.data@.len() <= BUF_LIMIT,
            old(self)@.state == HttpClientState::RelayingOUT ==> (value matches Some(v)
                && bytes_of(*v).len() <= BUF_LIMIT),
        ensures
            final(self).wf(),
            final(self)@.remote == old(self)@.remote,
            final(self)@.target == old(self)@.target,
            old(self)@.state == HttpClientState::ConnectionRequest ==> {
                &&& (r.output matches Some(out) && out@
                    == crate::http::client_protocol::connect_line_spec(
                    old(self)@.target.domain,
                    old(self)@.target.port,
                ))
                &&& !r.done
                &&& final(self)@ == (HttpClientView {
                    buffer: crate::http::client_protocol::connect_line_spec(
                        old(self)@.target.domain,
                        old(self)@.target.port,
                    ),
                    size: crate::http::client_protocol::connect_line_spec(
                        old(self)@.target.domain,
                        old(self)@.target.port,
                    ).len(),
                    state: HttpClientState::ConnectionEstablished,
                    ..old(self)@
                })
            },
            old(self)@.state == HttpClientState::ConnectionEstablished ==> {
                &&& r.output is None
                &&& connection_response_post(old(self)@, final(self)@, *input->Some_0, r.done)
            },
            old(self)@.state == HttpClientState::RelayingIN ==> {
                &&& r.output is None
                &&& relay_in_handle_post(old(self)@, final(self)@, *input->Some_0, r.done)
            },
            old(self)@.state == HttpClientState::RelayingOUT ==> relay_out_handle_post(
                old(self)@,
                final(self)@,
                bytes_of(*value->Some_0),
                r,
            ),
            old(self)@.state == HttpClientState::Closed ==> (!r.done && r.output is None
                && final(self)@ == old(self)@),
    {
        match self.state {
            HttpClientState::ConnectionRequest => {
                let out = connection_request(self);
                ClientStep { done: false, output: Some(out) }
            },
            HttpClientState::ConnectionEstablished => {
                let done = connection_response(self, input.unwrap());
                ClientStep { done, output: None }
            },
            HttpClientState::RelayingOUT => {
                self.clone_buffer(value.unwrap());
                let step = relay_out(self);
                ClientStep { done: step.done, output: step.output }
            },
            HttpClientState::RelayingIN => {
                let done = relay_in(self, input.unwrap());
                let over = done && self.size == 0;
                ClientStep { done: over, output: None }
            },
            HttpClientState::Closed => ClientStep { done: false, output: None },
        }
    }

    /// Applies the outcome of draining the upstream socket: the buffer now
    /// holds what was read, and end of stream closes the machine.
    pub fn read_buffer(&mut self, input: &ReadOutcome) -> (done: bool)
        requires
            old(self).wf(),
            input.data@.len() <= BUF_LIMIT,
        ensures
            final(self).wf(),
            final(self)@.buffer == input.data@,
            final(self)@.size == input.data@.len(),
            final(self)@.remote == old(self)@.remote,
            final(self)@.target == old(self)@.target,
            done == !(input.end is Drained),
            final(self)@.state == (if input.end is Eof {
                HttpClientState::Closed
            } else {
                old(self)@.state
            }),
    {
        buf_clear(&mut self.buffer);
        buf_extend(&mut self.buffer, input.data.as_slice());
        self.size = input.data.len();
        match input.end {
            crate::event::ReadEnd::Drained => false,
            crate::event::ReadEnd::Eof => {
                self.set_state(HttpClientState::Closed);
                true
            },
            crate::event::ReadEnd::Failed => true,
        }
    }

    /// Applies the outcome of one write attempt, as the write contract
    /// reads: a short write or an error ends the session, `WouldBlock` is
    /// left for a later event, an interrupt closes the machine.
    pub fn write_buffer(&mut self, end: &crate::event::WriteEnd) -> (done: bool)
        requires
            old(self).wf(),
        ensures
            final(self).wf(),
            final(self)@.buffer == old(self)@.buffer,
            final(self)@.remote == old(self)@.remote,
            final(self)@.target == old(self)@.target,
            write_buffer_post(old(self)@, final(self)@, *end, done),
    {
        match *end {
            crate::event::WriteEnd::Wrote(n) => {
                if n < self.size {
                    true
                } else {
                    self.size = 0;
                    false
                }
            },
            crate::event::WriteEnd::WouldBlock => false,
            crate::event::WriteEnd::Interrupted => {
                self.set_state(HttpClientState::Closed);
                true
            },
            crate::event::WriteEnd::Failed => true,
        }
    }

    /// Copies the parent's buffer in, replacing the own contents.
    pub fn clone_buffer(&mut self, source: &bytes::BytesMut)
        requires
            bytes_of(*source).len() <= BUF_LIMIT,
        ensures
            final(self).wf(),
            final(self)@.buffer == bytes_of(*source),
            final(self)@.size == bytes_of(*source).len(),
            final(self)@.state == old(self)@.state,
            final(self)@.remote == old(self)@.remote,
            final(self)@.target == old(self)@.target,
    {
        buf_clone_from(&mut self.buffer, source);
        self.size = buf_len(&self.buffer);
    }

    /// The status code of the buffered proxy answer, read as three ASCII
    /// digits at offsets 9 to 11; absent when the answer is shorter than
    /// 12 bytes or those offsets hold no digits.
    pub fn extract_statuscode(&self) -> (r: Option<u16>)
        requires
            self.wf(),
            self@.size == self@.buffer.len(),
        ensures
            r == status_of(self@.buffer),
    {
        if self.size < 12 {
            return None;
        }
        let a = buf_at(&self.buffer, 9);
        let b = buf_at(&self.buffer, 10);
        let c = buf_at(&self.buffer, 11);
        if 48 <= a && a <= 57 && 48 <= b && b <= 57 && 48 <= c && c <= 57 {
            Some(((a - 48) as u16) * 100 + ((b - 48) as u16) * 10 + ((c - 48) as u16))
        } else {
            None
        }
    }

    /// Empties the buffer and restores its 4096-byte zeroed shape.
    pub fn clear_buffer(&mut self)
        ensures
            final(self).wf(),
            final(self)@.buffer == Seq::new(4096, |i: int| 0u8),
            final(self)@.size == 0,
            final(self)@.state == old(self)@.state,
            final(self)@.remote == old(self)@.remote,
            final(self)@.target == old(self)@.target,
    {
        buf_clear(&mut self.buffer);
        buf_resize(&mut self.buffer, 4096, 0);
        self.size = 0;
        proof {
            assert(bytes_of(self.buffer) =~= Seq::new(4096, |i: int| 0u8));
        }
    }

    /// Empties the buffer and its size count.
    pub fn reset_buffer(&mut self)
        ensures
            final(self).wf(),
            final(self)@.buffer == Seq::<u8>::empty(),
            final(self)@.size == 0,
            final(self)@.state == old(self)@.state,
            final(self)@.remote == old(self)@.remote,
            final(self)@.target == old(self)@.target,
    {
        buf_clear(&mut self.buffer);
        self.size = 0;
    }

    /// Moves the machine to `state`.
    pub fn set_state(&mut self, state: HttpClientState)
        ensures
            final(self)@ == (HttpClientView { state, ..old(self)@ }),
    {
        self.state = state;
    }

    /// Appends `value` to the buffer, counting it as meaningful.
    pub fn put_buff(&mut self, value: &[u8])
        requires
            old(self).wf(),
            old(self)@.buffer.len() + value@.len() <= BUF_LIMIT,
        ensures
            final(self).wf(),
            final(self)@.buffer == old(self)@.buffer + value@,
            final(self)@.size == old(self)@.size + value@.len(),
            final(self)@.state == old(self)@.state,
            final(self)@.remote == old(self)@.remote,
            final(self)@.target == old(self)@.target,
    {
        buf_extend(&mut self.buffer, value);
        self.size = self.size + value.len();
    }
}

/// What `connection_response` leaves behind: the drained answer sits in
/// the buffer; the tunnel opens exactly on a drained, non-empty answer
/// whose status is 200.
pub open spec fn connection_response_post(
    pre: HttpClientView,
    post: HttpClientView,
    input: ReadOutcome,
    done: bool,
) -> bool {
    &&& post.buffer == input.data@
    &&& post.size == input.data@.len()
    &&& done == !(input.end is Drained && input.data@.len() > 0 && status_of(input.data@)
        == Some(200u16))
    &&& post.state == (if input.end is Eof {
        HttpClientState::Closed
    } else if done {
        pre.state
    } else {
        HttpClientState::RelayingOUT
    })
}

/// What `relay_in` leaves behind: the drained upstream bytes sit in the
/// buffer, end of stream closes the machine, otherwise it turns back to
/// `RelayingOUT`.
pub open spec fn relay_in_post(
    pre: HttpClientView,
    post: HttpClientView,
    input: ReadOutcome,
    done: bool,
) -> bool {
    &&& post.buffer == input.data@
    &&& post.size == input.data@.len()
    &&& done == !(input.end is Drained)
    &&& post.state == (if input.end is Eof {
        HttpClientState::Closed
    } else if input.end is Failed {
        pre.state
    } else {
        HttpClientState::RelayingOUT
    })
}

/// What the `RelayingIN` arm of `handle` leaves behind: the relay step of
/// `relay_in`, but the session is over only when the upstream side both
/// stopped draining cleanly and yielded nothing.
pub open spec fn relay_in_handle_post(
    pre: HttpClientView,
    post: HttpClientView,
    input: ReadOutcome,
    done: bool,
) -> bool {
    &&& post.buffer == input.data@
    &&& post.size == input.data@.len()
    &&& done == (!(input.end is Drained) && input.data@.len() == 0)
    &&& post.state == (if input.end is Eof {
        HttpClientState::Closed
    } else if input.end is Failed {
        pre.state
    } else {
        HttpClientState::RelayingOUT
    })
}

/// What the `RelayingOUT` arm of `handle` leaves behind: the parent's
/// bytes were copied in; an empty copy ends the session, otherwise they
/// are handed out for the upstream write and the machine turns to
/// `RelayingIN`.
pub open spec fn relay_out_handle_post(
    pre: HttpClientView,
    post: HttpClientView,
    value: Seq<u8>,
    r: ClientStep,
) -> bool {
    &&& post.buffer == value
    &&& post.size == value.len()
    &&& r.done == (value.len() == 0)
    &&& (r.done ==> r.output is None && post.state == pre.state)
    &&& (!r.done ==> (r.output matches Some(out) && out@ == value && post.state
        == HttpClientState::RelayingIN))
}

/// What applying one write attempt leaves behind: a full write consumes
/// the size, a short write or error ends the session, an interrupt closes
/// the machine, `WouldBlock` changes nothing.
pub open spec fn write_buffer_post(
    pre: HttpClientView,
    post: HttpClientView,
    end: crate::event::WriteEnd,
    done: bool,
) -> bool {
    match end {
        crate::event::WriteEnd::Wrote(n) => {
            if n < pre.size {
                done && post.size == pre.size && post.state == pre.state
            } else {
                !done && post.size == 0 && post.state == pre.state
            }
        },
        crate::event::WriteEnd::WouldBlock => !done && post.size == pre.size && post.state
            == pre.state,
        crate::event::WriteEnd::Interrupted => done && post.size == pre.size && post.state
            == HttpClientState::Closed,
        crate::event::WriteEnd::Failed => done && post.size == pre.size && post.state == pre.state,
    }
}

} // verus!
