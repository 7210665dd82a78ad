use vstd::prelude::*;
use vstd::string::StringSliceAdditionalSpecFns;

verus! {

/// Why a port could not be opened.
pub struct ConnectError {
    /// What the operating system reported.
    pub reason: String,
}

/// Why a message could not be sent.
pub enum WriteError {
    /// No port is open.
    NotConnected,
    /// The write or the flush failed; the text says why.
    Io(String),
}

/// The session that follows `s`; never equal to `s`.
pub open spec fn next_session(s: u64) -> u64 {
    if s == u64::MAX {
        0
    } else {
        (s + 1) as u64
    }
}

/// Owner of at most one open port `P`. Each successful attach starts a new
/// session: a reader started for an older session sees that it is stale.
pub struct Connection<P> {
    port: Option<P>,
    session: u64,
}

impl<P> Connection<P> {
    /// The port held, if any.
    pub closed spec fn held(&self) -> Option<P> {
        self.port
    }

    /// The number of the current session.
    pub closed spec fn current(&self) -> u64 {
        self.session
    }

    /// The handle after an attach of the outcome `opened`.
    pub closed spec fn attached(self, opened: Result<P, String>) -> Self {
        match opened {
            Ok(p) => Connection { port: Some(p), session: next_session(self.session) },
            Err(_) => Connection { port: None, session: self.session },
        }
    }

    /// The handle after its port is released.
    pub closed spec fn released(self) -> Self {
        Connection { port: None, session: self.session }
    }

    pub open spec fn connected(&self) -> bool {
        self.held() is Some
    }

    /// Whether a reader started for `session` may still use the port.
    pub open spec fn serves(&self, session: u64) -> bool {
        self.connected() && self.current() == session
    }

    /// An empty handle: no port, session zero.
    pub fn new() -> (r: Self)
        ensures
            r.held() is None,
            r.current() == 0,
    {
        Connection { port: None, session: 0 }
    }

    pub fn is_connected(&self) -> (r: bool)
        ensures
            r == self.connected(),
    {
        self.port.is_some()
    }

    pub fn session(&self) -> (r: u64)
        ensures
            r == self.current(),
    {
        self.session
    }

    /// Whether a reader started for `session` may still use the port.
    pub fn is_serving(&self, session: u64) -> (r: bool)
        ensures
            r == self.serves(session),
    {
        self.port.is_some() && self.session == session
    }

    /// Releases the port, handing it back so that the caller closes it.
    /// Without a port this changes nothing.
    pub fn disconnect(&mut self) -> (released: Option<P>)
        ensures
            released == old(self).held(),
            final(self).held() is None,
            final(self).current() == old(self).current(),
            *final(self) == old(self).released(),
    {
        self.port.take()
    }

    /// Takes the outcome of opening a device. On success the new port is held
    /// under a new session, whose number is returned; the port held before
    /// is closed. On failure nothing is held and the reason is passed on.
    pub fn attach(&mut self, opened: Result<P, String>) -> (r: Result<u64, ConnectError>)
        ensures
            match opened {
                Ok(p) => {
                    &&& final(self).held() == Some(p)
                    &&& final(self).current() == next_session(old(self).current())
                    &&& r == Ok::<u64, ConnectError>(final(self).current())
                },
                Err(e) => {
                    &&& final(self).held() is None
                    &&& final(self).current() == old(self).current()
                    &&& r matches Err(c) && c.reason == e
                },
            },
            *final(self) == old(self).attached(opened),
    {
        // Close the port held before, ahead of installing the new one.
        let _ = self.port.take();
        match opened {
            Ok(p) => {
                let s: u64 = if self.session == u64::MAX {
                    0
                } else {
                    self.session + 1
                };
                self.port = Some(p);
                self.session = s;
                Ok(s)
            },
            Err(e) => Err(ConnectError { reason: e }),
        }
    }

    /// Access to the held port, for reading or writing it.
    pub fn port_mut(&mut self) -> (r: Option<&mut P>)
        ensures
            match old(self).held() {
                None => r is None && *final(self) == *old(self),
                Some(p) => {
                    &&& r is Some
                    &&& *r.unwrap() == p
                    &&& final(self).held() == Some(*final(r.unwrap()))
                    &&& final(self).current() == old(self).current()
                },
            },
    {
        self.port.as_mut()
    }

    /// The bytes to write for `message`; an error when no port is held.
    pub fn outgoing(&self, message: &str) -> (r: Result<Vec<u8>, WriteError>)
        ensures
            match r {
                Ok(b) => self.connected() && b@ == message.spec_bytes(),
                Err(e) => !self.connected() && e is NotConnected,
            },
    {
        if self.port.is_none() {
            return Err(WriteError::NotConnected);
        }
        let bytes = message.as_bytes();
        Ok(vstd::slice::slice_to_vec(bytes))
    }
}

/// A connect whose device could not be opened leaves the handle without a
/// port, whatever it held before.
pub proof fn failed_connect_leaves_nothing<P>(c: Connection<P>, reason: String)
    ensures
        !c.attached(Err(reason)).connected(),
{
}

/// After a successful connect the handle is connected; after a disconnect
/// that follows it is not, so that a send is then refused.
pub proof fn connect_then_disconnect<P>(c: Connection<P>, port: P)
    ensures
        c.attached(Ok(port)).connected(),
        c.attached(Ok(port)).current() != c.current(),
        !c.attached(Ok(port)).released().connected(),
{
}

/// A reader stops once its session has ended: after a disconnect, and after
/// a connect that replaced its port.
pub proof fn ended_session_stops_reader<P>(c: Connection<P>, session: u64, port: P)
    requires
        c.serves(session),
    ensures
        !c.released().serves(session),
        !c.attached(Ok(port)).serves(session),
{
}

/// A disconnect on a handle that holds no port changes nothing.
pub proof fn disconnect_when_idle<P>(c: Connection<P>)
    requires
        !c.connected(),
    ensures
        c.released() == c,
{
}

} // verus!
