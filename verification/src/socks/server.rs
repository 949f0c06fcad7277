//! The server: it owns the live sessions and the two lookup tables that
//! route readiness events to them — token to session slot, and child token
//! to parent token — together with the monotonic token counter. The
//! listening socket and the poller live with the reactor; the server takes
//! each event as plain values and answers with the session's action and,
//! when a session ends, with the tokens to deregister.

use std::collections::HashMap;

use vstd::prelude::*;

use crate::event::{Action, Drain, ReadOutcome, WriteEnd};
use crate::proxy::Proxy;
use crate::socks::handler::{
    handle_case_post, plan_spec, HandlerStep, HandlerView, Socks5Handler, Socks5State,
};

verus! {

broadcast use vstd::std_specs::hash::group_hash_axioms;

/// The two tokens of one closed session, for the reactor to deregister.
pub struct SessionTokens {
    pub parent: u64,
    pub child: Option<u64>,
}

/// What one server step asks of the reactor: the session the event
/// belonged to, the action to perform, and the tokens of the session if
/// this step closed it.
pub struct ServerStep {
    pub session: Option<u64>,
    pub action: Action,
    pub closed: Option<SessionTokens>,
}

/// The SOCKS5 server.
pub struct Socks5Server {
    pub host: Vec<u8>,
    pub port: u16,
    pub subproxy: Vec<Proxy>,
    pub handlers: Vec<Option<Socks5Handler>>,
    pub handler_map: HashMap<u64, usize>,
    pub subtoken: HashMap<u64, u64>,
    pub unique_token: u64,
}

impl Socks5Server {
    /// The server invariant: every table entry names a live session under
    /// its own token, every live session is found by its token, a child
    /// token maps to exactly its parent, the two key sets are disjoint,
    /// and every token ever handed out lies below the counter.
    pub open spec fn wf(&self) -> bool {
        &&& self.unique_token >= 1
        &&& (forall|t: u64| #[trigger] self.handler_map@.contains_key(t) ==> {
            &&& (self.handler_map@[t] as int) < self.handlers@.len()
            &&& self.handlers@[self.handler_map@[t] as int] is Some
            &&& (self.handlers@[self.handler_map@[t] as int]->Some_0)@.token == t
            &&& t < self.unique_token
        })
        &&& (forall|s: int|
            0 <= s < self.handlers@.len() && #[trigger] self.handlers@[s] is Some ==> {
                let h = self.handlers@[s]->Some_0;
                &&& h.wf()
                &&& 1 <= h@.token < self.unique_token
                &&& self.handler_map@.contains_key(h@.token)
                &&& self.handler_map@[h@.token] == s
                &&& (h@.child_token matches Some(c) ==> (1 <= c < self.unique_token
                    && self.subtoken@.contains_key(c) && self.subtoken@[c] == h@.token
                    && !self.handler_map@.contains_key(c)))
            })
        &&& (forall|c: u64| #[trigger] self.subtoken@.contains_key(c) ==> {
            &&& 1 <= c < self.unique_token
            &&& self.handler_map@.contains_key(self.subtoken@[c])
            &&& (self.handlers@[self.handler_map@[self.subtoken@[c]] as int]->Some_0)@.child_token
                == Some(c)
            &&& !self.handler_map@.contains_key(c)
        })
    }

    /// Where an event token leads: straight to its session's slot, or
    /// through the child table to the parent's slot, or nowhere.
    pub open spec fn route_spec(&self, token: u64) -> Option<int> {
        if self.handler_map@.contains_key(token) {
            Some(self.handler_map@[token] as int)
        } else if self.subtoken@.contains_key(token) && self.handler_map@.contains_key(
            self.subtoken@[token],
        ) {
            Some(self.handler_map@[self.subtoken@[token]] as int)
        } else {
            None
        }
    }

    /// A fresh server for one listener endpoint, with no upstream hop and
    /// no session yet. Token zero stays with the listener.
    pub fn new(proxy: Proxy) -> (r: Self)
        ensures
            r.wf(),
            r.host@ == proxy.host@,
            r.port == proxy.port,
            r.subproxy@.len() == 0,
            r.handlers@.len() == 0,
            r.handler_map@ == Map::<u64, usize>::empty(),
            r.subtoken@ == Map::<u64, u64>::empty(),
            r.unique_token == 1,
    {
        Socks5Server {
            host: proxy.host,
            port: proxy.port,
            subproxy: Vec::new(),
            handlers: Vec::new(),
            handler_map: HashMap::new(),
            subtoken: HashMap::new(),
            unique_token: 1,
        }
    }

    /// Adds the upstream hop each new session will connect through.
    pub fn subproxy(&mut self, proxy: Proxy)
        requires
            old(self).wf(),
        ensures
            final(self).wf(),
            final(self).subproxy@ == old(self).subproxy@.push(proxy),
            final(self).host@ == old(self).host@,
            final(self).port == old(self).port,
            final(self).handlers@ == old(self).handlers@,
            final(self).handler_map@ == old(self).handler_map@,
            final(self).subtoken@ == old(self).subtoken@,
            final(self).unique_token == old(self).unique_token,
    {
        self.subproxy.push(proxy);
    }

    /// Takes in one accepted connection: mints its token, creates its
    /// session in a free slot, and records it in the token table. The
    /// reactor then registers the socket under the returned token.
    /// Refused only when the token counter is exhausted.
    pub fn accept_session(&mut self) -> (r: Option<u64>)
        requires
            old(self).wf(),
            old(self).subproxy@.len() >= 1,
        ensures
            final(self).wf(),
            final(self).host@ == old(self).host@ && final(self).port == old(self).port && final(self).subproxy@ == old(self).subproxy@,
            match r {
                None => {
                    &&& old(self).unique_token == u64::MAX
                    &&& final(self).handler_map@ == old(self).handler_map@
                    &&& final(self).subtoken@ == old(self).subtoken@
                    &&& final(self).handlers@ == old(self).handlers@
                    &&& final(self).unique_token == old(self).unique_token
                },
                Some(t) => {
                    &&& t == old(self).unique_token
                    &&& !old(self).handler_map@.contains_key(t)
                    &&& !old(self).subtoken@.contains_key(t)
                    &&& final(self).unique_token == old(self).unique_token + 1
                    &&& final(self).subtoken@ == old(self).subtoken@
                    &&& (final(self).route_spec(t) matches Some(s)
                        && final(self).handlers@[s] is Some
                        && (final(self).handlers@[s]->Some_0)@.state == Socks5State::MethodRequest
                        && (final(self).handlers@[s]->Some_0)@.token == t)
                    &&& final(self).handler_map@ == old(self).handler_map@.insert(
                        t,
                        final(self).route_spec(t)->Some_0 as usize,
                    )
                },
            },
    {
        if self.unique_token == u64::MAX {
            return None;
        }
        let t: u64 = self.unique_token;
        self.unique_token = t + 1;
        let handler = Socks5Handler::new(t, crate::proxy::copy_proxies(&self.subproxy));
        let s = find_free_slot(&self.handlers);
        if s == self.handlers.len() {
            self.handlers.push(Some(handler));
        } else {
            let e = slot_mut(&mut self.handlers, s);
            *e = Some(handler);
        }
        self.handler_map.insert(t, s);
        proof {
            let post = *self;
            let pre = *old(self);
            assert(post.handlers@[s as int] is Some);
            assert((post.handlers@[s as int]->Some_0)@.token == t);
            assert forall|t2: u64| #[trigger] post.handler_map@.contains_key(t2) implies {
                &&& (post.handler_map@[t2] as int) < post.handlers@.len()
                &&& post.handlers@[post.handler_map@[t2] as int] is Some
                &&& (post.handlers@[post.handler_map@[t2] as int]->Some_0)@.token == t2
                &&& t2 < post.unique_token
            } by {
                if t2 != t {
                    assert(pre.handler_map@.contains_key(t2));
                    assert((pre.handler_map@[t2] as int) != s as int || (pre.handlers@[pre.handler_map@[t2] as int]->Some_0)@.token == t2);
                }
            }
            assert forall|j: int|
                0 <= j < post.handlers@.len() && #[trigger] post.handlers@[j] is Some implies {
                let h = post.handlers@[j]->Some_0;
                &&& h.wf()
                &&& 1 <= h@.token < post.unique_token
                &&& post.handler_map@.contains_key(h@.token)
                &&& post.handler_map@[h@.token] == j
                &&& (h@.child_token matches Some(c) ==> (1 <= c < post.unique_token
                    && post.subtoken@.contains_key(c) && post.subtoken@[c] == h@.token
                    && !post.handler_map@.contains_key(c)))
            } by {
                if j != s as int {
                    assert(pre.handlers@[j] is Some);
                    let h = pre.handlers@[j]->Some_0;
                    assert(h@.token < t);
                    if h@.child_token is Some {
                        let c = h@.child_token->Some_0;
                        assert(c < t);
                    }
                }
            }
            assert forall|c: u64| #[trigger] post.subtoken@.contains_key(c) implies {
                &&& 1 <= c < post.unique_token
                &&& post.handler_map@.contains_key(post.subtoken@[c])
                &&& (post.handlers@[post.handler_map@[post.subtoken@[c]] as int]->Some_0)@.child_token
                    == Some(c)
                &&& !post.handler_map@.contains_key(c)
            } by {
                assert(pre.subtoken@.contains_key(c));
                assert(pre.subtoken@[c] < t);
                assert(c < t);
                assert(pre.handler_map@[pre.subtoken@[c]] != s as int || (pre.handlers@[pre.handler_map@[pre.subtoken@[c]] as int]->Some_0)@.child_token == Some(c));
            }
        }
        Some(t)
    }

    /// Which socket, if any, the reactor should drain before dispatching
    /// this event.
    pub fn plan(&self, token: u64, readable: bool) -> (d: Drain)
        requires
            self.wf(),
        ensures
            d == (match self.route_spec(token) {
                Some(s) => plan_spec((self.handlers@[s]->Some_0)@, token, readable),
                None => Drain::Nothing,
            }),
    {
        let s: usize;
        match self.handler_map.get(&token) {
            Some(k) => {
                s = *k;
            },
            None => {
                match self.subtoken.get(&token) {
                    Some(p) => {
                        let parent = *p;
                        match self.handler_map.get(&parent) {
                            Some(k) => {
                                s = *k;
                            },
                            None => {
                                return Drain::Nothing;
                            },
                        }
                    },
                    None => {
                        return Drain::Nothing;
                    },
                }
            },
        }
        match &self.handlers[s] {
            Some(h) => h.plan(token, readable),
            None => vstd::pervasive::unreached(),
        }
    }

    /// Routes one readiness event to its session and advances it one
    /// step. A finished session is removed from the slot and from both
    /// tables before this returns, and its tokens are handed back for
    /// deregistration.
    pub fn dispatch(
        &mut self,
        token: u64,
        readable: bool,
        writable: bool,
        input: Option<&ReadOutcome>,
    ) -> (r: ServerStep)
        requires
            old(self).wf(),
            (input matches Some(i) ==> i.data@.len() <= crate::buffer::BUF_LIMIT),
            (match old(self).route_spec(token) {
                Some(s) => plan_spec((old(self).handlers@[s]->Some_0)@, token, readable)
                    != Drain::Nothing ==> input is Some,
                None => true,
            }),
        ensures
            final(self).wf(),
            final(self).host@ == old(self).host@ && final(self).port == old(self).port && final(self).subproxy@ == old(self).subproxy@,
            match old(self).route_spec(token) {
                None => {
                    &&& r.session is None
                    &&& r.action is Idle
                    &&& r.closed is None
                    &&& final(self).handlers@ == old(self).handlers@
                    &&& final(self).handler_map@ == old(self).handler_map@
                    &&& final(self).subtoken@ == old(self).subtoken@
                    &&& final(self).unique_token == old(self).unique_token
                },
                Some(s) => {
                    let pre = (old(self).handlers@[s]->Some_0)@;
                    &&& r.session == Some(pre.token)
                    &&& final(self).handlers@.len() == old(self).handlers@.len()
                    &&& (forall|j: int|
                        0 <= j < old(self).handlers@.len() && j != s ==> final(self).handlers@[j]
                            == old(self).handlers@[j])
                    &&& (r.closed is None ==> {
                        &&& (final(self).handlers@[s] matches Some(h) && handle_case_post(
                            pre,
                            h@,
                            token,
                            readable,
                            writable,
                            input,
                            old(self).unique_token,
                            HandlerStep { done: false, action: r.action },
                        ))
                        &&& final(self).handler_map@ == old(self).handler_map@
                        &&& (r.action matches Action::OpenUpstream { child_token } ==> {
                            &&& child_token == old(self).unique_token
                            &&& final(self).unique_token == old(self).unique_token + 1
                            &&& final(self).subtoken@ == old(self).subtoken@.insert(
                                child_token,
                                pre.token,
                            )
                        })
                        &&& (!(r.action is OpenUpstream) ==> final(self).subtoken@ == old(self).subtoken@ && final(self).unique_token == old(self).unique_token)
                    })
                    &&& (r.closed matches Some(st) ==> {
                        &&& st.parent == pre.token
                        &&& st.child == pre.child_token
                        &&& r.action is Idle
                        &&& final(self).handlers@[s] is None
                        &&& final(self).handler_map@ == old(self).handler_map@.remove(pre.token)
                        &&& final(self).subtoken@ == (match pre.child_token {
                            Some(c) => old(self).subtoken@.remove(c),
                            None => old(self).subtoken@,
                        })
                        &&& final(self).unique_token == old(self).unique_token
                    })
                },
            },
    {
        let s: usize;
        match self.handler_map.get(&token) {
            Some(k) => {
                s = *k;
            },
            None => {
                match self.subtoken.get(&token) {
                    Some(p) => {
                        let parent = *p;
                        match self.handler_map.get(&parent) {
                            Some(k) => {
                                s = *k;
                            },
                            None => {
                                return ServerStep {
                                    session: None,
                                    action: Action::Idle,
                                    closed: None,
                                };
                            },
                        }
                    },
                    None => {
                        return ServerStep { session: None, action: Action::Idle, closed: None };
                    },
                }
            },
        }
        let mut taken: Option<Socks5Handler> = None;
        let e = slot_mut(&mut self.handlers, s);
        core::mem::swap(e, &mut taken);
        let mut h = match taken {
            Some(h) => h,
            None => {
                return vstd::pervasive::unreached();
            },
        };
        let parent = h.token;
        let step = h.handle(
            token,
            readable,
            writable,
            input,
            &mut self.unique_token,
            &mut self.subtoken,
        );
        if step.done {
            let child = h.child_token;
            self.handler_map.remove(&parent);
            match child {
                Some(c) => {
                    self.subtoken.remove(&c);
                },
                None => {},
            }
            ServerStep {
                session: Some(parent),
                action: step.action,
                closed: Some(SessionTokens { parent, child }),
            }
        } else {
            let e2 = slot_mut(&mut self.handlers, s);
            *e2 = Some(h);
            ServerStep { session: Some(parent), action: step.action, closed: None }
        }
    }

    /// Completes a session's pending name resolution: a resolved address
    /// spawns the upstream client, a failed resolution — or an exhausted
    /// token counter — closes the session. An event for an unknown token
    /// or a session not awaiting resolution changes nothing.
    pub fn resolve_done(&mut self, token: u64, ip: Option<Vec<u8>>) -> (r: ServerStep)
        requires
            old(self).wf(),
        ensures
            final(self).wf(),
            final(self).host@ == old(self).host@ && final(self).port == old(self).port
                && final(self).subproxy@ == old(self).subproxy@,
            match old(self).route_spec(token) {
                None => {
                    &&& r.action is Idle
                    &&& r.closed is None
                    &&& final(self).handlers@ == old(self).handlers@
                    &&& final(self).handler_map@ == old(self).handler_map@
                    &&& final(self).subtoken@ == old(self).subtoken@
                    &&& final(self).unique_token == old(self).unique_token
                },
                Some(s) => {
                    let pre = (old(self).handlers@[s]->Some_0)@;
                    &&& r.session == Some(pre.token)
                    &&& final(self).handlers@.len() == old(self).handlers@.len()
                    &&& (forall|j: int|
                        0 <= j < old(self).handlers@.len() && j != s ==> final(self).handlers@[j]
                            == old(self).handlers@[j])
                    &&& (pre.state != Socks5State::ConnectionRequest ==> {
                        &&& r.action is Idle
                        &&& r.closed is None
                        &&& final(self).handlers@ == old(self).handlers@
                        &&& final(self).handler_map@ == old(self).handler_map@
                        &&& final(self).subtoken@ == old(self).subtoken@
                        &&& final(self).unique_token == old(self).unique_token
                    })
                    &&& (pre.state == Socks5State::ConnectionRequest && ip is None ==> {
                        &&& r.action is Idle
                        &&& (r.closed matches Some(st) && st.parent == pre.token && st.child
                            == pre.child_token)
                        &&& final(self).handlers@[s] is None
                        &&& final(self).handler_map@ == old(self).handler_map@.remove(pre.token)
                        &&& final(self).subtoken@ == old(self).subtoken@
                        &&& final(self).unique_token == old(self).unique_token
                    })
                    &&& ((pre.state == Socks5State::ConnectionRequest && ip is Some) ==> {
                        if old(self).unique_token < u64::MAX {
                            &&& (r.action matches Action::OpenUpstream { child_token }
                                && child_token == old(self).unique_token)
                            &&& r.closed is None
                            &&& final(self).unique_token == old(self).unique_token + 1
                            &&& final(self).subtoken@ == old(self).subtoken@.insert(
                                old(self).unique_token,
                                pre.token,
                            )
                            &&& final(self).handler_map@ == old(self).handler_map@
                            &&& (final(self).handlers@[s] matches Some(h) && h@.state
                                == Socks5State::ClientConnectionRequest && h@.target.ip
                                == ip->Some_0@
                                && h@.target.port == pre.target.port && h@.target.domain
                                == pre.target.domain && h@.child_token == Some(
                                old(self).unique_token,
                            ))
                        } else {
                            &&& r.action is Idle
                            &&& (r.closed matches Some(st) && st.parent == pre.token && st.child
                                == pre.child_token)
                            &&& final(self).handlers@[s] is None
                            &&& final(self).handler_map@ == old(self).handler_map@.remove(
                                pre.token,
                            )
                            &&& final(self).subtoken@ == old(self).subtoken@
                            &&& final(self).unique_token == old(self).unique_token
                        }
                    })
                },
            },
    {
        let s: usize;
        match self.handler_map.get(&token) {
            Some(k) => {
                s = *k;
            },
            None => {
                match self.subtoken.get(&token) {
                    Some(p) => {
                        let parent = *p;
                        match self.handler_map.get(&parent) {
                            Some(k) => {
                                s = *k;
                            },
                            None => {
                                return ServerStep {
                                    session: None,
                                    action: Action::Idle,
                                    closed: None,
                                };
                            },
                        }
                    },
                    None => {
                        return ServerStep { session: None, action: Action::Idle, closed: None };
                    },
                }
            },
        }
        let awaiting = match &self.handlers[s] {
            Some(h) => matches!(h.state, Socks5State::ConnectionRequest),
            None => {
                return vstd::pervasive::unreached();
            },
        };
        if !awaiting {
            let session = match &self.handlers[s] {
                Some(h) => h.token,
                None => {
                    return vstd::pervasive::unreached();
                },
            };
            return ServerStep { session: Some(session), action: Action::Idle, closed: None };
        }
        let mut taken: Option<Socks5Handler> = None;
        let e = slot_mut(&mut self.handlers, s);
        core::mem::swap(e, &mut taken);
        let mut h = match taken {
            Some(h) => h,
            None => {
                return vstd::pervasive::unreached();
            },
        };
        let parent = h.token;
        let failed = crate::socks::server_protocol::resolve_done(&mut h, ip);
        if failed {
            let child = h.child_token;
            self.handler_map.remove(&parent);
            return ServerStep {
                session: Some(parent),
                action: Action::Idle,
                closed: Some(SessionTokens { parent, child }),
            };
        }
        match h.spawn_client(&mut self.unique_token, &mut self.subtoken) {
            Some(t) => {
                let e2 = slot_mut(&mut self.handlers, s);
                *e2 = Some(h);
                ServerStep {
                    session: Some(parent),
                    action: Action::OpenUpstream { child_token: t },
                    closed: None,
                }
            },
            None => {
                let child = h.child_token;
                self.handler_map.remove(&parent);
                ServerStep {
                    session: Some(parent),
                    action: Action::Idle,
                    closed: Some(SessionTokens { parent, child }),
                }
            },
        }
    }

    /// Applies the outcome of a write the reactor performed on one of a
    /// session's sockets; a fatal outcome closes the session.
    pub fn note_write(&mut self, token: u64, end: &WriteEnd) -> (r: ServerStep)
        requires
            old(self).wf(),
        ensures
            final(self).wf(),
            final(self).host@ == old(self).host@ && final(self).port == old(self).port
                && final(self).subproxy@ == old(self).subproxy@,
            final(self).unique_token == old(self).unique_token,
            match old(self).route_spec(token) {
                None => {
                    &&& r.action is Idle
                    &&& r.closed is None
                    &&& final(self).handlers@ == old(self).handlers@
                    &&& final(self).handler_map@ == old(self).handler_map@
                    &&& final(self).subtoken@ == old(self).subtoken@
                },
                Some(s) => {
                    let pre = (old(self).handlers@[s]->Some_0)@;
                    &&& r.session == Some(pre.token)
                    &&& r.action is Idle
                    &&& final(self).handlers@.len() == old(self).handlers@.len()
                    &&& (forall|j: int|
                        0 <= j < old(self).handlers@.len() && j != s ==> final(self).handlers@[j]
                            == old(self).handlers@[j])
                    &&& (r.closed is None ==> {
                        &&& (final(self).handlers@[s] matches Some(h) && note_write_post(
                            pre,
                            h@,
                            token,
                            *end,
                        ))
                        &&& final(self).handler_map@ == old(self).handler_map@
                        &&& final(self).subtoken@ == old(self).subtoken@
                    })
                    &&& (r.closed matches Some(st) ==> {
                        &&& st.parent == pre.token
                        &&& st.child == pre.child_token
                        &&& final(self).handlers@[s] is None
                        &&& final(self).handler_map@ == old(self).handler_map@.remove(pre.token)
                        &&& final(self).subtoken@ == (match pre.child_token {
                            Some(c) => old(self).subtoken@.remove(c),
                            None => old(self).subtoken@,
                        })
                    })
                },
            },
    {
        let s: usize;
        match self.handler_map.get(&token) {
            Some(k) => {
                s = *k;
            },
            None => {
                match self.subtoken.get(&token) {
                    Some(p) => {
                        let parent = *p;
                        match self.handler_map.get(&parent) {
                            Some(k) => {
                                s = *k;
                            },
                            None => {
                                return ServerStep {
                                    session: None,
                                    action: Action::Idle,
                                    closed: None,
                                };
                            },
                        }
                    },
                    None => {
                        return ServerStep { session: None, action: Action::Idle, closed: None };
                    },
                }
            },
        }
        let mut taken: Option<Socks5Handler> = None;
        let e = slot_mut(&mut self.handlers, s);
        core::mem::swap(e, &mut taken);
        let mut h = match taken {
            Some(h) => h,
            None => {
                return vstd::pervasive::unreached();
            },
        };
        let parent = h.token;
        let done: bool;
        if token == parent {
            done = h.write_stream(end);
        } else {
            match h.client.as_mut() {
                Some(c) => {
                    done = c.write_buffer(end);
                },
                None => {
                    return vstd::pervasive::unreached();
                },
            }
        }
        if done {
            let child = h.child_token;
            self.handler_map.remove(&parent);
            match child {
                Some(c) => {
                    self.subtoken.remove(&c);
                },
                None => {},
            }
            ServerStep {
                session: Some(parent),
                action: Action::Idle,
                closed: Some(SessionTokens { parent, child }),
            }
        } else {
            let e2 = slot_mut(&mut self.handlers, s);
            *e2 = Some(h);
            ServerStep { session: Some(parent), action: Action::Idle, closed: None }
        }
    }

    /// Closes a session whose upstream connection could not be opened,
    /// removing it from the slot and from both tables.
    pub fn connect_failed(&mut self, token: u64) -> (r: ServerStep)
        requires
            old(self).wf(),
        ensures
            final(self).wf(),
            final(self).host@ == old(self).host@ && final(self).port == old(self).port
                && final(self).subproxy@ == old(self).subproxy@,
            final(self).unique_token == old(self).unique_token,
            match old(self).route_spec(token) {
                None => {
                    &&& r.action is Idle
                    &&& r.closed is None
                    &&& final(self).handlers@ == old(self).handlers@
                    &&& final(self).handler_map@ == old(self).handler_map@
                    &&& final(self).subtoken@ == old(self).subtoken@
                },
                Some(s) => {
                    let pre = (old(self).handlers@[s]->Some_0)@;
                    &&& r.session == Some(pre.token)
                    &&& r.action is Idle
                    &&& (r.closed matches Some(st) && st.parent == pre.token && st.child
                        == pre.child_token)
                    &&& final(self).handlers@.len() == old(self).handlers@.len()
                    &&& final(self).handlers@[s] is None
                    &&& (forall|j: int|
                        0 <= j < old(self).handlers@.len() && j != s ==> final(self).handlers@[j]
                            == old(self).handlers@[j])
                    &&& final(self).handler_map@ == old(self).handler_map@.remove(pre.token)
                    &&& final(self).subtoken@ == (match pre.child_token {
                        Some(c) => old(self).subtoken@.remove(c),
                        None => old(self).subtoken@,
                    })
                },
            },
    {
        let s: usize;
        match self.handler_map.get(&token) {
            Some(k) => {
                s = *k;
            },
            None => {
                match self.subtoken.get(&token) {
                    Some(p) => {
                        let parent = *p;
                        match self.handler_map.get(&parent) {
                            Some(k) => {
                                s = *k;
                            },
                            None => {
                                return ServerStep {
                                    session: None,
                                    action: Action::Idle,
                                    closed: None,
                                };
                            },
                        }
                    },
                    None => {
                        return ServerStep { session: None, action: Action::Idle, closed: None };
                    },
                }
            },
        }
        let mut taken: Option<Socks5Handler> = None;
        let e = slot_mut(&mut self.handlers, s);
        core::mem::swap(e, &mut taken);
        let h = match taken {
            Some(h) => h,
            None => {
                return vstd::pervasive::unreached();
            },
        };
        let parent = h.token;
        let child = h.child_token;
        self.handler_map.remove(&parent);
        match child {
            Some(c) => {
                self.subtoken.remove(&c);
            },
            None => {},
        }
        ServerStep {
            session: Some(parent),
            action: Action::Idle,
            closed: Some(SessionTokens { parent, child }),
        }
    }
}

/// What applying a write outcome leaves in the routed session: on its own
/// token the inbound write contract, on the child's token the upstream
/// write contract, the rest untouched.
pub open spec fn note_write_post(
    pre: HandlerView,
    post: HandlerView,
    token: u64,
    end: WriteEnd,
) -> bool {
    if token == pre.token {
        post == (HandlerView {
            state: if end is Interrupted {
                Socks5State::Closed
            } else {
                pre.state
            },
            ..pre
        })
    } else {
        &&& (post.client matches Some(c) && crate::http::client::write_buffer_post(
            pre.client->Some_0,
            c,
            end,
            false,
        ) && c.buffer == pre.client->Some_0.buffer && c.remote == pre.client->Some_0.remote
            && c.target == pre.client->Some_0.target)
        &&& post == (HandlerView { client: post.client, ..pre })
    }
}

/// The first free session slot, or the length when none is free.
fn find_free_slot(v: &Vec<Option<Socks5Handler>>) -> (s: usize)
    ensures
        s <= v@.len(),
        s < v@.len() ==> v@[s as int] is None,
{
    let mut s: usize = 0;
    while s < v.len()
        invariant
            s <= v@.len(),
        decreases v@.len() - s,
    {
        match &v[s] {
            Option::None => {
                return s;
            },
            Option::Some(_) => {},
        }
        s += 1;
    }
    s
}

/// A mutable hold on one session slot.
fn slot_mut(v: &mut Vec<Option<Socks5Handler>>, i: usize) -> (element: &mut Option<Socks5Handler>)
    requires
        i < old(v).len(),
    ensures
        *element == old(v)@[i as int],
        final(v)@ == old(v)@.update(i as int, *final(element)),
{
    &mut v[i]
}

} // verus!
