//! The connection session: at most one live MIDI output, and the name of
//! whatever is connected, kept in lock-step.
use vstd::prelude::*;

verus! {

/// The ways an operation of the core can fail.
#[derive(Debug, Clone, Copy, PartialEq, Eq, Structural)]
pub enum CoreError {
    /// The port identifier matches no currently enumerated port.
    NotFound,
    /// The operation needs a live connection and none is open.
    NotConnected,
    /// The platform lacks virtual MIDI ports.
    Unsupported,
    /// The MIDI system could not be initialised.
    InitFailed,
    /// A port's name could not be read.
    PortInfoFailed,
    /// The device refused the connection.
    ConnectFailed,
    /// The device refused a message.
    TransmitError,
    /// A lock was poisoned, so the state may be inconsistent.
    StateCorrupted,
}

/// The abstract session: the live connection, if any, and its name.
pub struct SessionView<C> {
    pub link: Option<C>,
    pub name: Option<Seq<char>>,
}

/// The session holding `conn`, named `name`.
pub open spec fn installed<C>(conn: C, name: Seq<char>) -> SessionView<C> {
    SessionView { link: Some(conn), name: Some(name) }
}

/// The session with nothing connected.
pub open spec fn cleared<C>() -> SessionView<C> {
    SessionView { link: None, name: None }
}

/// What an operation that transmits finds before it transmits.
pub open spec fn send_gate<C>(v: SessionView<C>) -> Result<(), CoreError> {
    if v.link is Some {
        Ok(())
    } else {
        Err(CoreError::NotConnected)
    }
}

/// Once the session is cleared, by a disconnect after any connect, every
/// transmission finds no connection and fails with `NotConnected`.
pub proof fn lemma_disconnect_blocks_sending<C>(conn: C, name: Seq<char>)
    ensures
        installed(conn, name).link is Some,
        send_gate(cleared::<C>()) == Err::<(), CoreError>(CoreError::NotConnected),
{
}

/// Connecting twice leaves exactly one connection open: the second one,
/// under its own name; the first is no longer held.
pub proof fn lemma_reconnect_keeps_latest<C>(first: C, first_name: Seq<char>, second: C, second_name: Seq<char>)
    requires
        first != second,
    ensures
        installed(second, second_name).link == Some(second),
        installed(second, second_name).link != Some(first),
        installed(second, second_name).name == Some(second_name),
{
}

/// The session's state; `C` is the live output handle. Dropping a handle
/// closes its device.
pub struct MidiState<C> {
    connection: Option<C>,
    connected_name: Option<String>,
}

impl<C> View for MidiState<C> {
    type V = SessionView<C>;

    closed spec fn view(&self) -> SessionView<C> {
        SessionView {
            link: self.connection,
            name: match self.connected_name {
                Some(s) => Some(s@),
                None => None,
            },
        }
    }
}

impl<C> MidiState<C> {
    /// The connection and its name are both present or both absent.
    pub open spec fn wf(&self) -> bool {
        self@.link.is_some() == self@.name.is_some()
    }

    /// A session with nothing connected.
    pub fn new() -> (r: MidiState<C>)
        ensures
            r.wf(),
            r@ == cleared::<C>(),
    {
        MidiState { connection: None, connected_name: None }
    }

    /// Makes `conn`, named `name`, the one live connection. A connection
    /// that was open before is dropped, and so closed, here.
    pub fn install(&mut self, conn: C, name: String)
        ensures
            final(self).wf(),
            final(self)@ == installed(conn, name@),
    {
        self.connection = Some(conn);
        self.connected_name = Some(name);
    }

    /// Closes the live connection, if any; succeeds whatever the state.
    pub fn disconnect(&mut self)
        ensures
            final(self).wf(),
            final(self)@ == cleared::<C>(),
    {
        self.connection = None;
        self.connected_name = None;
    }

    /// Whether a connection is open.
    pub fn is_connected(&self) -> (r: bool)
        ensures
            r == self@.link.is_some(),
    {
        self.connection.is_some()
    }

    /// The name of the live connection.
    pub fn connected_name(&self) -> (r: Option<String>)
        ensures
            r.is_some() == self@.name.is_some(),
            r is Some ==> r.unwrap()@ == self@.name.unwrap(),
    {
        match &self.connected_name {
            Some(s) => Some(s.clone()),
            None => None,
        }
    }

    /// The live connection, for a transmission; `NotConnected` when none is
    /// open.
    pub fn connection_mut(&mut self) -> (r: Result<&mut C, CoreError>)
        requires
            old(self).wf(),
        ensures
            r is Err <==> send_gate(old(self)@) is Err,
            r is Err ==> r == Err::<&mut C, CoreError>(CoreError::NotConnected),
            r is Err ==> final(self)@ == old(self)@,
            r is Ok ==> old(self)@.link == Some(*r.unwrap()),
            final(self).wf(),
            final(self)@.name == old(self)@.name,
    {
        match &mut self.connection {
            Some(c) => Ok(c),
            None => Err(CoreError::NotConnected),
        }
    }
}

} // verus!
