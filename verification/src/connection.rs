//! The connection manager: at most one open session to the clipboard
//! service, kept with the address it was opened with.

use vstd::prelude::*;
use vstd::string::*;

verus! {

/// An open session to the clipboard service.
pub struct Connection<H> {
    /// The address the session was opened with, kept for display.
    pub endpoint_address: String,
    /// The handle on which remote calls are issued.
    pub session_handle: H,
}

/// Why a session could not be opened, in the transport's words.
#[derive(Clone, Debug, PartialEq, Eq)]
pub struct ConnectError {
    pub message: String,
}

/// Owner of the single active [`Connection`].
pub struct ConnectionManager<H> {
    current: Option<Connection<H>>,
}

impl<H> View for ConnectionManager<H> {
    /// The address and the handle of the active connection, if there is
    /// one.
    type V = Option<(Seq<char>, H)>;

    closed spec fn view(&self) -> Option<(Seq<char>, H)> {
        match self.current {
            Some(connection) => Some((connection.endpoint_address@, connection.session_handle)),
            None => None,
        }
    }
}

/// The state after a connection attempt to `address` that ended in
/// `attempt`: success replaces whatever was there, failure changes nothing.
pub open spec fn after_connect<H>(
    before: Option<(Seq<char>, H)>,
    address: Seq<char>,
    attempt: Result<H, ConnectError>,
) -> Option<(Seq<char>, H)> {
    match attempt {
        Ok(handle) => Some((address, handle)),
        Err(_) => before,
    }
}

/// The address in a manager's state, if a connection is active.
pub open spec fn link_address<H>(link: Option<(Seq<char>, H)>) -> Option<Seq<char>> {
    match link {
        Some(active) => Some(active.0),
        None => None,
    }
}

impl<H> ConnectionManager<H> {
    /// The address of the active connection, if there is one.
    pub open spec fn address(&self) -> Option<Seq<char>> {
        link_address(self@)
    }

    /// A manager that holds no connection.
    pub fn new() -> (manager: Self)
        ensures
            manager@ is None,
    {
        ConnectionManager { current: None }
    }

    /// Records the end of an attempt to open a session to `address`.
    ///
    /// A session that was opened becomes the active connection, and the
    /// one held before is dropped. A failed attempt leaves the manager as
    /// it was and hands the transport's error back.
    pub fn connect(&mut self, address: String, attempt: Result<H, ConnectError>) -> (result: Result<
        (),
        ConnectError,
    >)
        ensures
            final(self)@ == after_connect(old(self)@, address@, attempt),
            match attempt {
                Ok(_) => result is Ok,
                Err(error) => result == Err::<(), ConnectError>(error),
            },
    {
        match attempt {
            Ok(handle) => {
                self.current = Some(Connection { endpoint_address: address, session_handle: handle });
                Ok(())
            },
            Err(error) => Err(error),
        }
    }

    /// Drops the active connection, if there is one.
    pub fn disconnect(&mut self)
        ensures
            final(self)@ is None,
    {
        self.current = None;
    }

    /// Whether a connection is active.
    pub fn is_connected(&self) -> (connected: bool)
        ensures
            connected == self@ is Some,
    {
        self.current.is_some()
    }

    /// The address of the active connection, if there is one.
    pub fn describe(&self) -> (address: Option<String>)
        ensures
            match address {
                Some(text) => self.address() == Some(text@),
                None => self.address() is None,
            },
    {
        match &self.current {
            Some(connection) => Some(connection.endpoint_address.clone()),
            None => None,
        }
    }

    /// The active connection, for issuing a remote call on its handle.
    pub fn current(&mut self) -> (connection: Option<&mut Connection<H>>)
        ensures
            match connection {
                Some(active) => {
                    &&& old(self)@ == Some((active.endpoint_address@, active.session_handle))
                    &&& final(self)@ == Some(
                        (final(active).endpoint_address@, final(active).session_handle),
                    )
                },
                None => old(self)@ is None && final(self)@ is None,
            },
    {
        match &mut self.current {
            Some(connection) => Some(connection),
            None => None,
        }
    }
}

} // verus!
