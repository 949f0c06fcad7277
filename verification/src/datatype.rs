//! The destination a SOCKS5 client asked for. The resolved address text and
//! the original host name are kept apart: the upstream CONNECT line must
//! carry the name the client sent, never the address it resolved to.

use vstd::prelude::*;

verus! {

/// Destination of one session: the resolved address as ASCII text, the
/// port, and the host exactly as the client named it (a dotted quad, an
/// IPv6 group string, or a DNS name kept verbatim).
pub struct Target {
    pub ip: Vec<u8>,
    pub port: u16,
    pub domain: Vec<u8>,
}

/// Mathematical image of a `Target`.
pub struct TargetView {
    pub ip: Seq<u8>,
    pub port: u16,
    pub domain: Seq<u8>,
}

impl View for Target {
    type V = TargetView;

    open spec fn view(&self) -> TargetView {
        TargetView { ip: self.ip@, port: self.port, domain: self.domain@ }
    }
}

impl Target {
    /// The placeholder destination a session starts with.
    pub fn new() -> (r: Self)
        ensures
            r@.ip == Seq::<u8>::empty(),
            r@.port == 8080,
            r@.domain == Seq::<u8>::empty(),
    {
        Target { ip: Vec::new(), port: 8080, domain: Vec::new() }
    }

    /// A copy with the same fields.
    pub fn duplicate(&self) -> (r: Self)
        ensures
            r@ == self@,
    {
        Target {
            ip: crate::event::copy_bytes(&self.ip),
            port: self.port,
            domain: crate::event::copy_bytes(&self.domain),
        }
    }
}

} // verus!
