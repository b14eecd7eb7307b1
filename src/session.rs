use vstd::prelude::*;

use crate::request::{forwarded, rewrite, Request};

verus! {

/// The state of one client connection's session with the backend.
#[derive(Debug, Clone, Copy, PartialEq, Eq, Structural)]
pub enum SessionState {
    /// The backend connection is up and serves requests one at a time.
    Active,
    /// The backend or the client connection has ended; nothing more is sent.
    Closed,
}

/// The proxy: the address of the real agent that every session dials.
#[derive(Debug, Clone)]
pub struct Proxy {
    backend_socket_path: String,
}

impl View for Proxy {
    type V = Seq<char>;

    closed spec fn view(&self) -> Seq<char> {
        self.backend_socket_path@
    }
}

impl Proxy {
    /// A proxy for the agent listening at `backend_socket_path`.
    pub fn new(backend_socket_path: String) -> (r: Proxy)
        ensures
            r@ == backend_socket_path@,
    {
        Proxy { backend_socket_path }
    }

    /// The address of the real agent.
    pub fn backend_socket_path(&self) -> (r: &str)
        ensures
            r@ == self@,
    {
        self.backend_socket_path.as_str()
    }

    /// The session for a newly accepted client, given whether dialing the
    /// backend for it succeeded. A failed dial closes that one session
    /// only: the proxy goes on serving other clients.
    pub fn new_session(&self, dialed: bool) -> (r: ProxySession)
        ensures
            r.state() == (if dialed {
                SessionState::Active
            } else {
                SessionState::Closed
            }),
    {
        if dialed {
            ProxySession::new()
        } else {
            ProxySession { state: SessionState::Closed }
        }
    }
}

/// One client connection's session. The backend connection itself is held
/// by the caller, dialed once when the session is made and used for every
/// request of it; the session decides what is sent on it and when it is
/// done.
#[derive(Debug)]
pub struct ProxySession {
    state: SessionState,
}

impl ProxySession {
    pub closed spec fn state(&self) -> SessionState {
        self.state
    }

    /// A session whose backend connection has just been established.
    pub fn new() -> (r: ProxySession)
        ensures
            r.state() == SessionState::Active,
    {
        ProxySession { state: SessionState::Active }
    }

    pub fn is_active(&self) -> (r: bool)
        ensures
            r == (self.state() == SessionState::Active),
    {
        self.state == SessionState::Active
    }

    /// The request to send to the backend for a client's `request`, or
    /// `None` once the session is closed.
    pub fn handle<I, K, O>(&self, request: Request<I, K, O>) -> (r: Option<Request<I, K, O>>)
        ensures
            self.state() == SessionState::Closed ==> r is None,
            self.state() == SessionState::Active ==> r is Some && r->0@ == forwarded(request@),
    {
        match self.state {
            SessionState::Active => Some(rewrite(request)),
            SessionState::Closed => None,
        }
    }

    /// Hands the backend's answer back to the client unchanged. An error
    /// from the backend closes the session for good.
    pub fn relay<R, E>(&mut self, reply: Result<R, E>) -> (r: Result<R, E>)
        ensures
            r == reply,
            final(self).state() == (if reply is Ok {
                old(self).state()
            } else {
                SessionState::Closed
            }),
    {
        if reply.is_err() {
            self.state = SessionState::Closed;
        }
        reply
    }
}

} // verus!
