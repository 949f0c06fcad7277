//! Plain values that cross the boundary between the verified sessions and
//! the reactor that runs them: what a socket drain produced, how a write
//! attempt ended, which socket a session wants drained, and the one action
//! a session hands back per readiness event.

use vstd::prelude::*;

verus! {

/// How a drain of a readable socket ended: cleanly blocked, end of stream,
/// or a fatal I/O error.
#[derive(Clone, Copy, Debug, PartialEq, Eq, Structural)]
pub enum ReadEnd {
    Drained,
    Eof,
    Failed,
}

/// Everything a drain of one socket yielded: the bytes read before the
/// loop stopped, and why it stopped.
pub struct ReadOutcome {
    pub data: Vec<u8>,
    pub end: ReadEnd,
}

/// How a single write attempt ended. `Wrote(n)` is a successful call that
/// accepted `n` bytes; the other ends mirror the kernel's refusals.
#[derive(Clone, Copy, Debug)]
pub enum WriteEnd {
    Wrote(usize),
    WouldBlock,
    Interrupted,
    Failed,
}

/// Which socket a session will consume on its next step, so the reactor
/// drains exactly what will be read.
#[derive(Clone, Copy, Debug, PartialEq, Eq, Structural)]
pub enum Drain {
    Nothing,
    Inbound,
    Upstream,
}

/// The one outward action a step asks of the reactor.
pub enum Action {
    /// Nothing to perform.
    Idle,
    /// Write these bytes to the session's inbound socket.
    ReplyInbound(Vec<u8>),
    /// Write these bytes to the session's upstream socket.
    SendUpstream(Vec<u8>),
    /// Resolve this host name, then report the address text back.
    Resolve { domain: Vec<u8>, port: u16 },
    /// Open the upstream proxy connection and register it under this token.
    OpenUpstream { child_token: u64 },
}

/// An exact copy of a byte vector.
pub fn copy_bytes(v: &Vec<u8>) -> (r: Vec<u8>)
    ensures
        r@ == v@,
{
    let mut r: Vec<u8> = Vec::new();
    let mut i: usize = 0;
    while i < v.len()
        invariant
            i <= v@.len(),
            r@ == v@.take(i as int),
        decreases v@.len() - i,
    {
        r.push(v[i]);
        i += 1;
        assert(r@ =~= v@.take(i as int));
    }
    assert(r@ =~= v@);
    r
}

/// Whether two byte strings are equal.
pub fn bytes_eq(a: &[u8], b: &[u8]) -> (r: bool)
    ensures
        r == (a@ == b@),
{
    if a.len() != b.len() {
        assert(a@.len() != b@.len());
        return false;
    }
    let mut i: usize = 0;
    while i < a.len()
        invariant
            i <= a@.len(),
            a@.len() == b@.len(),
            forall|j: int| 0 <= j < i ==> a@[j] == b@[j],
        decreases a@.len() - i,
    {
        if a[i] != b[i] {
            return false;
        }
        i += 1;
    }
    proof {
        assert(a@ =~= b@);
    }
    true
}

} // verus!
