use vstd::prelude::*;

verus! {

/// Where a streaming session stands.
#[derive(Clone, Copy, Debug, PartialEq, Eq, Structural)]
pub enum SessionState {
    Open,
    /// The handler has asked for the session to stop; the stop has not yet taken effect.
    Closing,
    Closed,
}

/// A frame received on a streaming session.
pub enum Inbound {
    Text(String),
    Binary(Vec<u8>),
    /// Ping, pong and the other control frames.
    Control,
    /// The client's close frame.
    Close,
    /// A frame that broke the protocol, with the decoder's account of it.
    Malformed(String),
}

/// What the handler has the connection do in answer to a frame.
pub enum Outbound {
    Text(String),
    Binary(Vec<u8>),
    Nothing,
    /// Terminate this session.
    Stop,
}

/// The state a session moves to on `msg` from `s`.
pub open spec fn next_state(s: SessionState, msg: Inbound) -> SessionState {
    if s != SessionState::Open {
        s
    } else {
        match msg {
            Inbound::Close => SessionState::Closed,
            Inbound::Malformed(_) => SessionState::Closing,
            _ => SessionState::Open,
        }
    }
}

/// The answer a session in state `s` gives to `msg`: text and binary payloads are echoed
/// verbatim, control frames are passed over, a close or a protocol error stops the session.
pub open spec fn reply(s: SessionState, msg: Inbound) -> Outbound {
    if s != SessionState::Open {
        Outbound::Nothing
    } else {
        match msg {
            Inbound::Text(t) => Outbound::Text(t),
            Inbound::Binary(b) => Outbound::Binary(b),
            Inbound::Control => Outbound::Nothing,
            Inbound::Close => Outbound::Stop,
            Inbound::Malformed(_) => Outbound::Stop,
        }
    }
}

/// One connection's echo session. Sessions share no state.
pub struct Session {
    state: SessionState,
}

impl Session {
    /// The state the session is in.
    pub closed spec fn view(&self) -> SessionState {
        self.state
    }

    /// A session of a connection just accepted.
    pub fn new() -> (r: Session)
        ensures
            r.view() == SessionState::Open,
    {
        Session { state: SessionState::Open }
    }

    /// The state the session is in.
    pub fn state(&self) -> (r: SessionState)
        ensures
            r == self.view(),
    {
        self.state
    }

    /// Handles one inbound frame: moves to the next state and says what to send.
    pub fn handle(&mut self, msg: Inbound) -> (r: Outbound)
        ensures
            final(self).view() == next_state(old(self).view(), msg),
            r == reply(old(self).view(), msg),
    {
        if self.state != SessionState::Open {
            return Outbound::Nothing;
        }
        match msg {
            Inbound::Text(t) => Outbound::Text(t),
            Inbound::Binary(b) => Outbound::Binary(b),
            Inbound::Control => Outbound::Nothing,
            Inbound::Close => {
                self.state = SessionState::Closed;
                Outbound::Stop
            },
            Inbound::Malformed(_) => {
                self.state = SessionState::Closing;
                Outbound::Stop
            },
        }
    }

    /// Records that the connection has ended, whatever state the session was in.
    pub fn finish(&mut self)
        ensures
            final(self).view() == SessionState::Closed,
    {
        self.state = SessionState::Closed;
    }
}

} // verus!
