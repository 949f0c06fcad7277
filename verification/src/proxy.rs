//! A proxy endpoint: the local listener or the upstream hop. URL text is
//! taken apart by the caller; this module holds the rules — which schemes
//! name which protocol, and which port each scheme defaults to.

use vstd::prelude::*;

use crate::event::{bytes_eq, copy_bytes};

verus! {

/// The protocol spoken at an endpoint.
#[derive(Clone, Copy, Debug, PartialEq, Eq, Structural)]
pub enum ProxyProtocol {
    HTTPProxy,
    SOCKS5Proxy,
}

/// One configured endpoint.
pub struct Proxy {
    pub protocol: ProxyProtocol,
    pub host: Vec<u8>,
    pub port: u16,
    pub username: Option<Vec<u8>>,
    pub password: Option<Vec<u8>>,
}

/// Mathematical image of a `Proxy`.
pub struct ProxyView {
    pub protocol: ProxyProtocol,
    pub host: Seq<u8>,
    pub port: u16,
    pub username: Option<Seq<u8>>,
    pub password: Option<Seq<u8>>,
}

impl View for Proxy {
    type V = ProxyView;

    open spec fn view(&self) -> ProxyView {
        ProxyView {
            protocol: self.protocol,
            host: self.host@,
            port: self.port,
            username: match self.username {
                Some(u) => Some(u@),
                None => None,
            },
            password: match self.password {
                Some(p) => Some(p@),
                None => None,
            },
        }
    }
}

/// The bytes of the scheme `http`.
pub open spec fn scheme_http() -> Seq<u8> {
    seq![104u8, 116u8, 116u8, 112u8]
}

/// The bytes of the scheme `socks`.
pub open spec fn scheme_socks() -> Seq<u8> {
    seq![115u8, 111u8, 99u8, 107u8, 115u8]
}

/// The bytes of the scheme `socks5`.
pub open spec fn scheme_socks5() -> Seq<u8> {
    seq![115u8, 111u8, 99u8, 107u8, 115u8, 53u8]
}

/// An exact copy of a list of endpoints.
pub fn copy_proxies(v: &Vec<Proxy>) -> (r: Vec<Proxy>)
    ensures
        r@.map_values(|p: Proxy| p@) == v@.map_values(|p: Proxy| p@),
        r@.len() == v@.len(),
{
    let mut r: Vec<Proxy> = Vec::new();
    let mut i: usize = 0;
    while i < v.len()
        invariant
            i <= v@.len(),
            r@.len() == i,
            forall|j: int| 0 <= j < i ==> #[trigger] r@[j]@ == v@[j]@,
        decreases v@.len() - i,
    {
        r.push(v[i].duplicate());
        i += 1;
    }
    proof {
        assert(r@.map_values(|p: Proxy| p@) =~= v@.map_values(|p: Proxy| p@));
    }
    r
}

/// The protocol a URL scheme names, if any.
pub open spec fn protocol_of_scheme(scheme: Seq<u8>) -> Option<ProxyProtocol> {
    if scheme == scheme_http() {
        Some(ProxyProtocol::HTTPProxy)
    } else if scheme == scheme_socks() || scheme == scheme_socks5() {
        Some(ProxyProtocol::SOCKS5Proxy)
    } else {
        None
    }
}

/// The port an endpoint listens on when the URL names none.
pub open spec fn default_port(protocol: ProxyProtocol) -> u16 {
    match protocol {
        ProxyProtocol::HTTPProxy => 80,
        ProxyProtocol::SOCKS5Proxy => 1080,
    }
}

fn http_bytes() -> (r: Vec<u8>)
    ensures
        r@ == scheme_http(),
{
    let mut r: Vec<u8> = Vec::new();
    r.push(104);
    r.push(116);
    r.push(116);
    r.push(112);
    assert(r@ =~= scheme_http());
    r
}

fn socks_bytes() -> (r: Vec<u8>)
    ensures
        r@ == scheme_socks(),
{
    let mut r: Vec<u8> = Vec::new();
    r.push(115);
    r.push(111);
    r.push(99);
    r.push(107);
    r.push(115);
    assert(r@ =~= scheme_socks());
    r
}

fn socks5_bytes() -> (r: Vec<u8>)
    ensures
        r@ == scheme_socks5(),
{
    let mut r = socks_bytes();
    r.push(53);
    assert(r@ =~= scheme_socks5());
    r
}

impl Proxy {
    /// Builds an endpoint from the parts of its URL. `http` URLs name an
    /// HTTP proxy, `socks` and `socks5` URLs a SOCKS5 one; any other scheme
    /// is refused. A missing port falls back to the scheme's default.
    pub fn parse(
        scheme: &[u8],
        host: Vec<u8>,
        port: Option<u16>,
        username: Option<Vec<u8>>,
        password: Option<Vec<u8>>,
    ) -> (r: Option<Proxy>)
        ensures
            r is Some <==> protocol_of_scheme(scheme@) is Some,
            r matches Some(p) ==> {
                &&& Some(p@.protocol) == protocol_of_scheme(scheme@)
                &&& p@.host == host@
                &&& p@.port == (match port {
                    Some(q) => q,
                    None => default_port(p@.protocol),
                })
                &&& p@.username == (match username {
                    Some(u) => Some::<Seq<u8>>(u@),
                    None => None::<Seq<u8>>,
                })
                &&& p@.password == (match password {
                    Some(w) => Some::<Seq<u8>>(w@),
                    None => None::<Seq<u8>>,
                })
            },
    {
        let protocol: ProxyProtocol;
        if bytes_eq(scheme, http_bytes().as_slice()) {
            protocol = ProxyProtocol::HTTPProxy;
        } else if bytes_eq(scheme, socks_bytes().as_slice()) || bytes_eq(
            scheme,
            socks5_bytes().as_slice(),
        ) {
            protocol = ProxyProtocol::SOCKS5Proxy;
        } else {
            return None;
        }
        let port = match port {
            Some(q) => q,
            None => match protocol {
                ProxyProtocol::HTTPProxy => 80,
                ProxyProtocol::SOCKS5Proxy => 1080,
            },
        };
        Some(Proxy { protocol, host, port, username, password })
    }

    /// A copy with the same fields.
    pub fn duplicate(&self) -> (r: Self)
        ensures
            r@ == self@,
    {
        Proxy {
            protocol: self.protocol,
            host: copy_bytes(&self.host),
            port: self.port,
            username: match &self.username {
                Some(u) => Some(copy_bytes(u)),
                None => None,
            },
            password: match &self.password {
                Some(p) => Some(copy_bytes(p)),
                None => None,
            },
        }
    }
}

} // verus!
