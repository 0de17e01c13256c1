use vstd::prelude::*;
use crate::config::{delay_spec, Callbacks, Config, ConfigModel, ReconnectPolicy};

verus! {

/// Where a connection is in its life.
#[derive(Clone, Copy, Debug, PartialEq, Eq, Structural)]
pub enum ConnectionState {
    Connecting,
    Open,
    Closing,
    Closed,
}

/// What the transport has to do after a step.
#[derive(Clone, Copy, Debug, PartialEq, Eq, Structural)]
pub enum TransportCommand {
    Nothing,
    /// Build a new transport handle to the configured address.
    Connect,
    /// Close the live transport handle.
    Disconnect,
}

/// What the reconnect timer has to do after a step.
#[derive(Clone, Copy, Debug, PartialEq, Eq, Structural)]
pub enum TimerCommand {
    Nothing,
    /// Fire a reconnect after this many milliseconds.
    Schedule(u64),
    /// Drop the pending reconnect.
    Cancel,
}

/// Everything that one step asks of its surroundings, to be carried out in
/// field order: the transport command, the timer command, then the callbacks
/// that are set, in the order of the fields. The payload of a message callback
/// is the matching latest-message slot, which the step has already updated.
#[derive(Clone, Copy, Debug, PartialEq, Eq, Structural)]
pub struct Reaction {
    pub transport: TransportCommand,
    pub timer: TimerCommand,
    pub notify_error: bool,
    pub notify_open: bool,
    pub notify_close: bool,
    pub notify_text: bool,
    pub notify_binary: bool,
    /// The reconnect limit was reached: no further attempt follows.
    pub gave_up: bool,
}

pub open spec fn no_reaction() -> Reaction {
    Reaction {
        transport: TransportCommand::Nothing,
        timer: TimerCommand::Nothing,
        notify_error: false,
        notify_open: false,
        notify_close: false,
        notify_text: false,
        notify_binary: false,
        gave_up: false,
    }
}

impl Reaction {
    /// A step that asks for nothing.
    pub fn none() -> (r: Reaction)
        ensures
            r == no_reaction(),
    {
        Reaction {
            transport: TransportCommand::Nothing,
            timer: TimerCommand::Nothing,
            notify_error: false,
            notify_open: false,
            notify_close: false,
            notify_text: false,
            notify_binary: false,
            gave_up: false,
        }
    }
}

/// The abstract state of a connection.
pub struct ConnectionModel {
    pub state: ConnectionState,
    pub latest_text: Option<Seq<char>>,
    pub latest_binary: Option<Seq<u8>>,
    /// Reconnect attempts made since the connection was last open.
    pub attempts: u32,
    /// A reconnect is scheduled and has not fired yet.
    pub reconnect_pending: bool,
    /// The reconnect limit was reached.
    pub exhausted: bool,
    pub config: ConfigModel,
}

/// A command of the caller or an event of the transport or the timer.
pub enum Input {
    Open,
    Close,
    TransportOpened,
    TransportClosed,
    TransportError,
    TextFrame(Seq<char>),
    BinaryFrame(Seq<u8>),
    ReconnectTimer,
}

impl ConnectionModel {
    /// A scheduled reconnect only waits while the connection is closed, and
    /// never after the limit was reached; the limit counts as reached only
    /// while the connection is closed.
    pub open spec fn wf(self) -> bool {
        &&& self.reconnect_pending ==> (self.state == ConnectionState::Closed && !self.exhausted)
        &&& self.exhausted ==> self.state == ConnectionState::Closed
    }

    /// Whether a transport handle is live.
    pub open spec fn has_transport(self) -> bool {
        self.state != ConnectionState::Closed
    }
}

pub open spec fn inc_attempts(a: u32) -> u32 {
    if a < u32::MAX {
        (a + 1) as u32
    } else {
        a
    }
}

pub open spec fn limit_reached(policy: ReconnectPolicy, attempts: u32) -> bool {
    match policy.max_attempts {
        Some(k) => attempts >= k,
        None => false,
    }
}

/// The reconnect policy, consulted once the connection was lost abruptly:
/// `m` is the state already closed, `r` what the loss itself asks for.
pub open spec fn after_loss(m: ConnectionModel, r: Reaction) -> (ConnectionModel, Reaction) {
    if !m.config.policy.enabled {
        (m, r)
    } else if limit_reached(m.config.policy, m.attempts) {
        (ConnectionModel { exhausted: true, ..m }, Reaction { gave_up: true, ..r })
    } else {
        (
            ConnectionModel { attempts: inc_attempts(m.attempts), reconnect_pending: true, ..m },
            Reaction {
                timer: TimerCommand::Schedule(
                    delay_spec(m.config.policy.backoff, m.attempts as nat) as u64,
                ),
                ..r
            },
        )
    }
}

/// The one step of the state machine for each input.
pub open spec fn step(m: ConnectionModel, input: Input) -> (ConnectionModel, Reaction) {
    let cb = m.config.callbacks;
    match input {
        Input::Open => {
            if m.state == ConnectionState::Closed {
                (
                    ConnectionModel {
                        state: ConnectionState::Connecting,
                        attempts: 0,
                        reconnect_pending: false,
                        exhausted: false,
                        ..m
                    },
                    Reaction {
                        transport: TransportCommand::Connect,
                        timer: if m.reconnect_pending {
                            TimerCommand::Cancel
                        } else {
                            TimerCommand::Nothing
                        },
                        ..no_reaction()
                    },
                )
            } else {
                (m, no_reaction())
            }
        },
        Input::Close => match m.state {
            ConnectionState::Connecting | ConnectionState::Open => (
                ConnectionModel { state: ConnectionState::Closing, ..m },
                Reaction { transport: TransportCommand::Disconnect, ..no_reaction() },
            ),
            ConnectionState::Closing => (m, no_reaction()),
            ConnectionState::Closed => if m.reconnect_pending {
                (
                    ConnectionModel { reconnect_pending: false, ..m },
                    Reaction { timer: TimerCommand::Cancel, ..no_reaction() },
                )
            } else {
                (m, no_reaction())
            },
        },
        Input::TransportOpened => {
            if m.state == ConnectionState::Connecting {
                (
                    ConnectionModel {
                        state: ConnectionState::Open,
                        attempts: 0,
                        exhausted: false,
                        ..m
                    },
                    Reaction { notify_open: cb.on_open, ..no_reaction() },
                )
            } else {
                (m, no_reaction())
            }
        },
        Input::TransportClosed => match m.state {
            ConnectionState::Closing => (
                ConnectionModel { state: ConnectionState::Closed, ..m },
                Reaction { notify_close: cb.on_close, ..no_reaction() },
            ),
            ConnectionState::Connecting | ConnectionState::Open => after_loss(
                ConnectionModel { state: ConnectionState::Closed, ..m },
                Reaction { notify_close: cb.on_close, ..no_reaction() },
            ),
            ConnectionState::Closed => (m, no_reaction()),
        },
        Input::TransportError => match m.state {
            ConnectionState::Closing => (
                ConnectionModel { state: ConnectionState::Closed, ..m },
                Reaction { notify_error: cb.on_error, notify_close: cb.on_close, ..no_reaction() },
            ),
            ConnectionState::Connecting | ConnectionState::Open => after_loss(
                ConnectionModel { state: ConnectionState::Closed, ..m },
                Reaction {
                    transport: TransportCommand::Disconnect,
                    notify_error: cb.on_error,
                    notify_close: cb.on_close,
                    ..no_reaction()
                },
            ),
            ConnectionState::Closed => (m, no_reaction()),
        },
        Input::TextFrame(s) => (
            ConnectionModel { latest_text: Some(s), ..m },
            Reaction { notify_text: cb.on_message_text, ..no_reaction() },
        ),
        Input::BinaryFrame(b) => (
            ConnectionModel { latest_binary: Some(b), ..m },
            Reaction { notify_binary: cb.on_message_binary, ..no_reaction() },
        ),
        Input::ReconnectTimer => {
            if m.reconnect_pending && m.state == ConnectionState::Closed {
                (
                    ConnectionModel {
                        state: ConnectionState::Connecting,
                        reconnect_pending: false,
                        ..m
                    },
                    Reaction { transport: TransportCommand::Connect, ..no_reaction() },
                )
            } else {
                (m, no_reaction())
            }
        },
    }
}

/// A frame ready to be handed to the transport.
#[derive(Debug, PartialEq, Eq)]
pub enum Frame {
    Text(String),
    Binary(Vec<u8>),
}

/// Why a send was refused.
#[derive(Clone, Copy, Debug, PartialEq, Eq, Structural)]
pub enum SendError {
    /// The connection is not open.
    NotConnected,
}

/// The state before any input: closed, nothing received, nothing scheduled.
pub open spec fn idle(c: ConfigModel) -> ConnectionModel {
    ConnectionModel {
        state: ConnectionState::Closed,
        latest_text: None,
        latest_binary: None,
        attempts: 0,
        reconnect_pending: false,
        exhausted: false,
        config: c,
    }
}

/// A connection just built, and what building it asks for.
pub open spec fn start(c: ConfigModel) -> (ConnectionModel, Reaction) {
    if c.immediate {
        step(idle(c), Input::Open)
    } else {
        (idle(c), no_reaction())
    }
}

/// What tearing a connection down asks for: release of the live handle and of
/// the pending reconnect, and no callback.
pub open spec fn teardown(m: ConnectionModel) -> Reaction {
    Reaction {
        transport: if m.has_transport() {
            TransportCommand::Disconnect
        } else {
            TransportCommand::Nothing
        },
        timer: if m.reconnect_pending {
            TimerCommand::Cancel
        } else {
            TimerCommand::Nothing
        },
        ..no_reaction()
    }
}

/// The state machine of one connection.
pub struct Connection {
    config: Config,
    state: ConnectionState,
    latest_text: Option<String>,
    latest_binary: Option<Vec<u8>>,
    attempts: u32,
    reconnect_pending: bool,
    exhausted: bool,
}

pub open spec fn text_view(t: Option<String>) -> Option<Seq<char>> {
    match t {
        Some(s) => Some(s@),
        None => None,
    }
}

pub open spec fn bytes_view(b: Option<Vec<u8>>) -> Option<Seq<u8>> {
    match b {
        Some(v) => Some(v@),
        None => None,
    }
}

impl View for Connection {
    type V = ConnectionModel;

    closed spec fn view(&self) -> ConnectionModel {
        ConnectionModel {
            state: self.state,
            latest_text: text_view(self.latest_text),
            latest_binary: bytes_view(self.latest_binary),
            attempts: self.attempts,
            reconnect_pending: self.reconnect_pending,
            exhausted: self.exhausted,
            config: self.config@,
        }
    }
}

impl Connection {
    /// Builds a connection; with `immediate` set it is opened at once.
    pub fn new(config: Config) -> (r: (Connection, Reaction))
        ensures
            (r.0@, r.1) == start(config@),
            r.0@.wf(),
    {
        let immediate = config.immediate;
        let mut c = Connection {
            config,
            state: ConnectionState::Closed,
            latest_text: None,
            latest_binary: None,
            attempts: 0,
            reconnect_pending: false,
            exhausted: false,
        };
        if immediate {
            let r = c.open();
            (c, r)
        } else {
            (c, Reaction::none())
        }
    }

    /// Opens the connection unless a transport handle is already live.
    pub fn open(&mut self) -> (r: Reaction)
        requires
            old(self)@.wf(),
        ensures
            (final(self)@, r) == step(old(self)@, Input::Open),
            final(self)@.wf(),
    {
        if self.state == ConnectionState::Closed {
            let timer = if self.reconnect_pending {
                TimerCommand::Cancel
            } else {
                TimerCommand::Nothing
            };
            self.state = ConnectionState::Connecting;
            self.attempts = 0;
            self.reconnect_pending = false;
            self.exhausted = false;
            Reaction { transport: TransportCommand::Connect, timer, ..Reaction::none() }
        } else {
            Reaction::none()
        }
    }

    /// Starts a graceful close of a connecting or open connection; on a
    /// closed one it only drops a pending reconnect.
    pub fn close(&mut self) -> (r: Reaction)
        requires
            old(self)@.wf(),
        ensures
            (final(self)@, r) == step(old(self)@, Input::Close),
            final(self)@.wf(),
    {
        match self.state {
            ConnectionState::Connecting | ConnectionState::Open => {
                self.state = ConnectionState::Closing;
                Reaction { transport: TransportCommand::Disconnect, ..Reaction::none() }
            },
            ConnectionState::Closing => Reaction::none(),
            ConnectionState::Closed => {
                if self.reconnect_pending {
                    self.reconnect_pending = false;
                    Reaction { timer: TimerCommand::Cancel, ..Reaction::none() }
                } else {
                    Reaction::none()
                }
            },
        }
    }

    /// Applies the reconnect policy to a connection that was just lost.
    fn after_loss(&mut self, r: Reaction) -> (out: Reaction)
        requires
            old(self)@.state == ConnectionState::Closed,
            !old(self)@.reconnect_pending,
            !old(self)@.exhausted,
        ensures
            (final(self)@, out) == after_loss(old(self)@, r),
            final(self)@.wf(),
    {
        let policy = self.config.reconnect;
        if !policy.enabled {
            return r;
        }
        let reached = match policy.max_attempts {
            Some(k) => self.attempts >= k,
            None => false,
        };
        if reached {
            self.exhausted = true;
            Reaction { gave_up: true, ..r }
        } else {
            let delay = policy.backoff.delay(self.attempts);
            if self.attempts < u32::MAX {
                self.attempts = self.attempts + 1;
            }
            self.reconnect_pending = true;
            Reaction { timer: TimerCommand::Schedule(delay), ..r }
        }
    }

    /// The transport finished its handshake.
    pub fn transport_opened(&mut self) -> (r: Reaction)
        requires
            old(self)@.wf(),
        ensures
            (final(self)@, r) == step(old(self)@, Input::TransportOpened),
            final(self)@.wf(),
    {
        if self.state == ConnectionState::Connecting {
            self.state = ConnectionState::Open;
            self.attempts = 0;
            self.exhausted = false;
            Reaction { notify_open: self.config.callbacks.on_open, ..Reaction::none() }
        } else {
            Reaction::none()
        }
    }

    /// The transport reported that it closed.
    pub fn transport_closed(&mut self) -> (r: Reaction)
        requires
            old(self)@.wf(),
        ensures
            (final(self)@, r) == step(old(self)@, Input::TransportClosed),
            final(self)@.wf(),
    {
        let notify_close = self.config.callbacks.on_close;
        match self.state {
            ConnectionState::Closing => {
                self.state = ConnectionState::Closed;
                Reaction { notify_close, ..Reaction::none() }
            },
            ConnectionState::Connecting | ConnectionState::Open => {
                self.state = ConnectionState::Closed;
                self.after_loss(Reaction { notify_close, ..Reaction::none() })
            },
            ConnectionState::Closed => Reaction::none(),
        }
    }

    /// The transport reported an error.
    pub fn transport_error(&mut self) -> (r: Reaction)
        requires
            old(self)@.wf(),
        ensures
            (final(self)@, r) == step(old(self)@, Input::TransportError),
            final(self)@.wf(),
    {
        let notify_error = self.config.callbacks.on_error;
        let notify_close = self.config.callbacks.on_close;
        match self.state {
            ConnectionState::Closing => {
                self.state = ConnectionState::Closed;
                Reaction { notify_error, notify_close, ..Reaction::none() }
            },
            ConnectionState::Connecting | ConnectionState::Open => {
                self.state = ConnectionState::Closed;
                self.after_loss(
                    Reaction {
                        transport: TransportCommand::Disconnect,
                        notify_error,
                        notify_close,
                        ..Reaction::none()
                    },
                )
            },
            ConnectionState::Closed => Reaction::none(),
        }
    }

    /// A text frame arrived: it becomes the latest text message.
    pub fn text_frame(&mut self, text: String) -> (r: Reaction)
        requires
            old(self)@.wf(),
        ensures
            (final(self)@, r) == step(old(self)@, Input::TextFrame(text@)),
            final(self)@.wf(),
    {
        self.latest_text = Some(text);
        Reaction { notify_text: self.config.callbacks.on_message_text, ..Reaction::none() }
    }

    /// A binary frame arrived: it becomes the latest binary message.
    pub fn binary_frame(&mut self, bytes: Vec<u8>) -> (r: Reaction)
        requires
            old(self)@.wf(),
        ensures
            (final(self)@, r) == step(old(self)@, Input::BinaryFrame(bytes@)),
            final(self)@.wf(),
    {
        self.latest_binary = Some(bytes);
        Reaction { notify_binary: self.config.callbacks.on_message_binary, ..Reaction::none() }
    }

    /// The reconnect timer fired.
    pub fn reconnect_timer(&mut self) -> (r: Reaction)
        requires
            old(self)@.wf(),
        ensures
            (final(self)@, r) == step(old(self)@, Input::ReconnectTimer),
            final(self)@.wf(),
    {
        if self.reconnect_pending && self.state == ConnectionState::Closed {
            self.state = ConnectionState::Connecting;
            self.reconnect_pending = false;
            Reaction { transport: TransportCommand::Connect, ..Reaction::none() }
        } else {
            Reaction::none()
        }
    }

    /// The frame to transmit for `text`, or `NotConnected` when the
    /// connection is not open; nothing changes either way.
    pub fn send(&self, text: String) -> (r: Result<Frame, SendError>)
        ensures
            self@.state == ConnectionState::Open ==> (r matches Ok(Frame::Text(t)) && t@ == text@),
            self@.state != ConnectionState::Open ==> r == Err::<Frame, SendError>(
                SendError::NotConnected,
            ),
    {
        if self.state == ConnectionState::Open {
            Ok(Frame::Text(text))
        } else {
            Err(SendError::NotConnected)
        }
    }

    /// The frame to transmit for `bytes`, or `NotConnected` when the
    /// connection is not open; nothing changes either way.
    pub fn send_bytes(&self, bytes: Vec<u8>) -> (r: Result<Frame, SendError>)
        ensures
            self@.state == ConnectionState::Open ==> (r matches Ok(Frame::Binary(b)) && b@
                == bytes@),
            self@.state != ConnectionState::Open ==> r == Err::<Frame, SendError>(
                SendError::NotConnected,
            ),
    {
        if self.state == ConnectionState::Open {
            Ok(Frame::Binary(bytes))
        } else {
            Err(SendError::NotConnected)
        }
    }

    /// Tears the connection down: what is live is released, no callback fires.
    pub fn dispose(self) -> (r: Reaction)
        ensures
            r == teardown(self@),
    {
        let transport = if self.state != ConnectionState::Closed {
            TransportCommand::Disconnect
        } else {
            TransportCommand::Nothing
        };
        let timer = if self.reconnect_pending {
            TimerCommand::Cancel
        } else {
            TimerCommand::Nothing
        };
        Reaction { transport, timer, ..Reaction::none() }
    }
}

/// An event of the transport or of the reconnect timer.
#[derive(Debug)]
pub enum Event {
    Opened,
    Closed,
    Error,
    Text(String),
    Binary(Vec<u8>),
    ReconnectTimer,
}

pub open spec fn event_input(e: Event) -> Input {
    match e {
        Event::Opened => Input::TransportOpened,
        Event::Closed => Input::TransportClosed,
        Event::Error => Input::TransportError,
        Event::Text(s) => Input::TextFrame(s@),
        Event::Binary(b) => Input::BinaryFrame(b@),
        Event::ReconnectTimer => Input::ReconnectTimer,
    }
}

impl Connection {
    /// Feeds one event into the state machine.
    pub fn handle(&mut self, event: Event) -> (r: Reaction)
        requires
            old(self)@.wf(),
        ensures
            (final(self)@, r) == step(old(self)@, event_input(event)),
            final(self)@.wf(),
    {
        match event {
            Event::Opened => self.transport_opened(),
            Event::Closed => self.transport_closed(),
            Event::Error => self.transport_error(),
            Event::Text(s) => self.text_frame(s),
            Event::Binary(b) => self.binary_frame(b),
            Event::ReconnectTimer => self.reconnect_timer(),
        }
    }

    pub fn state(&self) -> (r: ConnectionState)
        ensures
            r == self@.state,
    {
        self.state
    }

    pub fn is_open(&self) -> (r: bool)
        ensures
            r == (self@.state == ConnectionState::Open),
    {
        self.state == ConnectionState::Open
    }

    /// The most recent text message, if any arrived.
    pub fn latest_text(&self) -> (r: Option<&String>)
        ensures
            match r {
                Some(t) => self@.latest_text == Some(t@),
                None => self@.latest_text is None,
            },
    {
        match &self.latest_text {
            Some(t) => Some(t),
            None => None,
        }
    }

    /// The most recent binary message, if any arrived.
    pub fn latest_binary(&self) -> (r: Option<&Vec<u8>>)
        ensures
            match r {
                Some(b) => self@.latest_binary == Some(b@),
                None => self@.latest_binary is None,
            },
    {
        match &self.latest_binary {
            Some(b) => Some(b),
            None => None,
        }
    }

    /// Whether the reconnect limit was reached since the connection was last
    /// open or opened by hand.
    pub fn reconnect_exhausted(&self) -> (r: bool)
        ensures
            r == self@.exhausted,
    {
        self.exhausted
    }

    /// Reconnects made since the connection was last open or opened by hand.
    pub fn reconnect_attempts(&self) -> (r: u32)
        ensures
            r == self@.attempts,
    {
        self.attempts
    }

    /// Whether a reconnect is scheduled.
    pub fn reconnect_pending(&self) -> (r: bool)
        ensures
            r == self@.reconnect_pending,
    {
        self.reconnect_pending
    }

    pub fn config(&self) -> (r: &Config)
        ensures
            r@ == self@.config,
    {
        &self.config
    }
}

} // verus!
