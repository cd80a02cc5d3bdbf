//! The connection lifecycle: when to connect, when to retry, when to give up.
//!
//! The manager holds no socket. It is told what happened to the connection and
//! answers with the state that follows; whoever owns the transport asks it what
//! to do next.

use crate::text::decimal;
use crate::text::decimal_text;
use crate::text::joined;
use crate::types::Text;
use vstd::prelude::*;

verus! {

/// The states of the connection to the feed.
#[derive(Debug, Clone, Copy, PartialEq, Eq, Structural)]
pub enum ConnectionState {
    /// Nothing is held; the next step is to begin an attempt.
    Disconnected,
    /// An attempt is under way: the transport is opened and the handshake made.
    Connecting,
    /// The handshake succeeded; messages are read until the stream is lost.
    Connected,
    /// Too many handshakes failed. Nothing is tried any more.
    GaveUp,
}

/// What happened to the connection.
#[derive(Debug, Clone, Copy, PartialEq, Eq, Structural)]
pub enum Signal {
    /// An attempt begins.
    Start,
    /// The transport was opened and the handshake succeeded.
    HandshakeSucceeded,
    /// The transport could not be opened, or the handshake failed.
    HandshakeFailed,
    /// A text message was read.
    MessageRead,
    /// Reading failed, or the peer closed the stream.
    StreamLost,
}

/// What the owner of the transport is to do next.
#[derive(Debug, Clone, Copy, PartialEq, Eq, Structural)]
pub enum Request {
    /// Release what is held and signal `Start`.
    Begin,
    /// Open the transport and make the handshake.
    Connect,
    /// Read the next message.
    Read,
    /// Stop: no further network activity.
    Halt,
}

/// What the manager knows.
pub struct Lifecycle {
    pub state: ConnectionState,
    /// How many handshakes may fail in a row before the manager gives up.
    pub max_retries: u32,
    /// The handshakes that failed since a connection last carried a message.
    pub handshake_retries: u64,
    /// The retries of either kind since the start: the number on the banner.
    pub retries: u64,
    /// Whether the connection at hand has carried a message.
    pub streamed: bool,
}

/// One more, as far as the counter can count.
pub open spec fn bumped(count: u64) -> u64 {
    if count < u64::MAX {
        (count + 1) as u64
    } else {
        count
    }
}

/// The manager before anything happened.
pub open spec fn initial(max_retries: u32) -> Lifecycle {
    Lifecycle {
        state: ConnectionState::Disconnected,
        max_retries,
        handshake_retries: 0,
        retries: 0,
        streamed: false,
    }
}

/// What holds of the manager at all times: it has given up exactly when more
/// handshakes failed than it may retry, and only a connection that is up has
/// carried a message.
pub open spec fn well_formed(l: Lifecycle) -> bool {
    &&& l.state == ConnectionState::GaveUp <==> l.handshake_retries > l.max_retries
    &&& l.handshake_retries <= l.max_retries + 1
    &&& l.streamed ==> l.state == ConnectionState::Connected
}

/// Whether a signal means something in a state. A signal that does not is
/// ignored.
pub open spec fn expected(state: ConnectionState, signal: Signal) -> bool {
    match (state, signal) {
        (ConnectionState::Disconnected, Signal::Start) => true,
        (ConnectionState::Connecting, Signal::HandshakeSucceeded) => true,
        (ConnectionState::Connecting, Signal::HandshakeFailed) => true,
        (ConnectionState::Connected, Signal::MessageRead) => true,
        (ConnectionState::Connected, Signal::StreamLost) => true,
        _ => false,
    }
}

/// Whether one more failed handshake makes the manager give up.
pub open spec fn exhausted(l: Lifecycle) -> bool {
    l.handshake_retries + 1 > l.max_retries
}

/// The manager after a signal.
pub open spec fn next(l: Lifecycle, signal: Signal) -> Lifecycle {
    if !expected(l.state, signal) {
        l
    } else {
        match signal {
            Signal::Start => Lifecycle { state: ConnectionState::Connecting, ..l },
            Signal::HandshakeSucceeded => Lifecycle {
                state: ConnectionState::Connected,
                streamed: false,
                ..l
            },
            Signal::HandshakeFailed => Lifecycle {
                state: if exhausted(l) {
                    ConnectionState::GaveUp
                } else {
                    ConnectionState::Connecting
                },
                handshake_retries: (l.handshake_retries + 1) as u64,
                retries: bumped(l.retries),
                ..l
            },
            Signal::MessageRead => Lifecycle { streamed: true, ..l },
            Signal::StreamLost => Lifecycle {
                state: ConnectionState::Disconnected,
                handshake_retries: if l.streamed {
                    0
                } else {
                    l.handshake_retries
                },
                retries: bumped(l.retries),
                streamed: false,
                ..l
            },
        }
    }
}

/// What the owner of the transport is to do in a state.
pub open spec fn request_in(state: ConnectionState) -> Request {
    match state {
        ConnectionState::Disconnected => Request::Begin,
        ConnectionState::Connecting => Request::Connect,
        ConnectionState::Connected => Request::Read,
        ConnectionState::GaveUp => Request::Halt,
    }
}

/// The manager after one failed handshake after the other.
pub open spec fn after_failures(l: Lifecycle, failures: nat) -> Lifecycle
    decreases failures,
{
    if failures == 0 {
        l
    } else {
        next(after_failures(l, (failures - 1) as nat), Signal::HandshakeFailed)
    }
}

/// A well-formed manager stays well formed, whatever the signal.
pub proof fn next_is_well_formed(l: Lifecycle, signal: Signal)
    requires
        well_formed(l),
    ensures
        well_formed(next(l, signal)),
{
}

/// Every failed handshake counts: it raises the count of handshake retries by
/// one.
pub proof fn failed_handshake_counts(l: Lifecycle)
    requires
        well_formed(l),
        l.state == ConnectionState::Connecting,
    ensures
        next(l, Signal::HandshakeFailed).handshake_retries == l.handshake_retries + 1,
{
}

/// The count of handshake retries never falls, but for one case: it falls to
/// zero when a stream is lost that has carried a message. A stream that is lost
/// before it carried one leaves the count as it is.
pub proof fn count_resets_only_after_streaming(l: Lifecycle, signal: Signal)
    requires
        well_formed(l),
    ensures
        signal == Signal::StreamLost && l.state == ConnectionState::Connected && l.streamed ==> next(
            l,
            signal,
        ).handshake_retries == 0,
        !(signal == Signal::StreamLost && l.state == ConnectionState::Connected && l.streamed)
            ==> next(l, signal).handshake_retries >= l.handshake_retries,
{
}

/// Only a failed handshake counts towards giving up: a lost stream never makes
/// the manager give up, however often it happens.
pub proof fn lost_stream_never_gives_up(l: Lifecycle)
    requires
        well_formed(l),
        l.state == ConnectionState::Connected,
    ensures
        next(l, Signal::StreamLost).state == ConnectionState::Disconnected,
        next(l, Signal::StreamLost).handshake_retries <= l.handshake_retries,
{
}

/// The manager gives up on the failed handshake that takes the count beyond
/// the maximum, and on no other.
pub proof fn gives_up_beyond_the_maximum(l: Lifecycle)
    requires
        well_formed(l),
        l.state == ConnectionState::Connecting,
    ensures
        next(l, Signal::HandshakeFailed).state == ConnectionState::GaveUp <==> l.handshake_retries
            + 1 > l.max_retries,
        next(l, Signal::HandshakeFailed).state != ConnectionState::GaveUp ==> next(
            l,
            Signal::HandshakeFailed,
        ).state == ConnectionState::Connecting,
{
}

/// Giving up is final: no signal changes anything, and the only request is to
/// halt.
pub proof fn gave_up_is_final(l: Lifecycle, signal: Signal)
    requires
        l.state == ConnectionState::GaveUp,
    ensures
        next(l, signal) == l,
        request_in(next(l, signal).state) == Request::Halt,
{
}

/// Handshakes that fail in a row: while the count stays within the maximum the
/// manager keeps connecting, and the failure that takes it beyond makes it
/// give up. With a maximum of `n` that is the failure number `n + 1`.
pub proof fn consecutive_failures(l: Lifecycle, failures: nat)
    requires
        well_formed(l),
        l.state == ConnectionState::Connecting,
        l.handshake_retries + failures <= l.max_retries + 1,
    ensures
        after_failures(l, failures).handshake_retries == l.handshake_retries + failures,
        after_failures(l, failures).max_retries == l.max_retries,
        well_formed(after_failures(l, failures)),
        l.handshake_retries + failures <= l.max_retries ==> after_failures(l, failures).state
            == ConnectionState::Connecting,
        l.handshake_retries + failures == l.max_retries + 1 ==> after_failures(l, failures).state
            == ConnectionState::GaveUp,
    decreases failures,
{
    if failures > 0 {
        consecutive_failures(l, (failures - 1) as nat);
    }
}

/// The manager of the connection lifecycle.
#[derive(Debug, Clone, Copy)]
pub struct ConnectionManager {
    state: ConnectionState,
    max_retries: u32,
    handshake_retries: u64,
    retries: u64,
    streamed: bool,
}

impl View for ConnectionManager {
    type V = Lifecycle;

    closed spec fn view(&self) -> Lifecycle {
        Lifecycle {
            state: self.state,
            max_retries: self.max_retries,
            handshake_retries: self.handshake_retries,
            retries: self.retries,
            streamed: self.streamed,
        }
    }
}

impl ConnectionManager {
    #[verifier::type_invariant]
    spec fn valid(&self) -> bool {
        well_formed(self@)
    }

    /// A manager that has not connected yet.
    pub fn new(max_retries: u32) -> (manager: ConnectionManager)
        ensures
            manager@ == initial(max_retries),
            well_formed(manager@),
    {
        ConnectionManager {
            state: ConnectionState::Disconnected,
            max_retries,
            handshake_retries: 0,
            retries: 0,
            streamed: false,
        }
    }

    /// The state of the connection. The manager is well formed at all times.
    pub fn state(&self) -> (state: ConnectionState)
        ensures
            state == self@.state,
            well_formed(self@),
    {
        proof {
            use_type_invariant(self);
        }
        self.state
    }

    pub fn max_retries(&self) -> (max: u32)
        ensures
            max == self@.max_retries,
    {
        self.max_retries
    }

    /// The handshakes that failed since a connection last carried a message.
    pub fn handshake_retries(&self) -> (count: u64)
        ensures
            count == self@.handshake_retries,
    {
        self.handshake_retries
    }

    /// The retries of either kind since the start.
    pub fn retries(&self) -> (count: u64)
        ensures
            count == self@.retries,
    {
        self.retries
    }

    /// Whether the connection at hand has carried a message.
    pub fn streamed(&self) -> (streamed: bool)
        ensures
            streamed == self@.streamed,
    {
        self.streamed
    }

    /// What the owner of the transport is to do next.
    pub fn request(&self) -> (request: Request)
        ensures
            request == request_in(self@.state),
    {
        match self.state {
            ConnectionState::Disconnected => Request::Begin,
            ConnectionState::Connecting => Request::Connect,
            ConnectionState::Connected => Request::Read,
            ConnectionState::GaveUp => Request::Halt,
        }
    }

    /// Takes a signal and moves to the state that follows.
    pub fn signal(&mut self, signal: Signal)
        ensures
            final(self)@ == next(old(self)@, signal),
            well_formed(old(self)@),
            well_formed(final(self)@),
    {
        proof {
            use_type_invariant(&*self);
        }
        let retries: u64 = if self.retries < u64::MAX {
            self.retries + 1
        } else {
            self.retries
        };
        match (self.state, signal) {
            (ConnectionState::Disconnected, Signal::Start) => {
                self.state = ConnectionState::Connecting;
            },
            (ConnectionState::Connecting, Signal::HandshakeSucceeded) => {
                *self = ConnectionManager {
                    state: ConnectionState::Connected,
                    max_retries: self.max_retries,
                    handshake_retries: self.handshake_retries,
                    retries: self.retries,
                    streamed: false,
                };
            },
            (ConnectionState::Connecting, Signal::HandshakeFailed) => {
                let failed: u64 = self.handshake_retries + 1;
                *self = ConnectionManager {
                    state: if failed > self.max_retries as u64 {
                        ConnectionState::GaveUp
                    } else {
                        ConnectionState::Connecting
                    },
                    max_retries: self.max_retries,
                    handshake_retries: failed,
                    retries,
                    streamed: self.streamed,
                };
            },
            (ConnectionState::Connected, Signal::MessageRead) => {
                self.streamed = true;
            },
            (ConnectionState::Connected, Signal::StreamLost) => {
                *self = ConnectionManager {
                    state: ConnectionState::Disconnected,
                    max_retries: self.max_retries,
                    handshake_retries: if self.streamed {
                        0
                    } else {
                        self.handshake_retries
                    },
                    retries,
                    streamed: false,
                };
            },
            _ => {},
        }
    }
}

/// Why a connection attempt failed, with the detail that the transport gave.
#[derive(Debug, Clone, PartialEq, Eq)]
pub enum ConnectError {
    /// The transport failed.
    Io(String),
    /// A frame was larger than the buffer that was to take it.
    FrameTooLarge(usize),
    /// The peer sent text that is not UTF-8.
    Utf8(String),
    /// The response to the handshake had malformed headers.
    HttpHeader(String),
    /// The peer broke the protocol.
    WebSocket(String),
}

/// The line that reports a failed attempt.
pub open spec fn connect_error_text(err: ConnectError) -> Text {
    match err {
        ConnectError::Io(detail) => detail@,
        ConnectError::FrameTooLarge(size) => "Frame to large: "@ + decimal(size as nat),
        ConnectError::Utf8(detail) => detail@,
        ConnectError::HttpHeader(detail) => detail@,
        ConnectError::WebSocket(detail) => detail@,
    }
}

/// Turns a failed attempt into the line that reports it.
pub fn convert_connect_error(err: ConnectError) -> (line: String)
    ensures
        line@ == connect_error_text(err),
{
    match err {
        ConnectError::Io(detail) => detail,
        ConnectError::FrameTooLarge(size) => {
            let digits = decimal_text(size as u64);
            joined("Frame to large: ", digits.as_str())
        },
        ConnectError::Utf8(detail) => detail,
        ConnectError::HttpHeader(detail) => detail,
        ConnectError::WebSocket(detail) => detail,
    }
}

} // verus!
