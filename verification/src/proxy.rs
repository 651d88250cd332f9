//! Decisions of the Betaflight Configurator proxy, which relays MSP bytes
//! between a WebSocket client (the Configurator) and SITL's TCP UART.
use vstd::prelude::*;

use crate::transport::{is_retryable_io, IoErrorKind};

verus! {

/// Port on which the proxy accepts the Configurator's WebSocket.
pub const DEFAULT_LISTEN_PORT: u16 = 6761;

/// Port of Betaflight SITL's TCP UART1 (MSP).
pub const DEFAULT_TARGET_PORT: u16 = 5761;

/// Counters and link flags of the proxy worker.
#[derive(Debug, Clone)]
pub struct ProxyTelemetry {
    pub client_connected: bool,
    pub sitl_connected: bool,
    pub sessions: u64,
    pub bytes_from_configurator: u64,
    pub bytes_from_sitl: u64,
    pub last_error: Option<String>,
}

impl ProxyTelemetry {
    /// No client, no SITL link, all counters zero, no error.
    pub fn new() -> (telemetry: Self)
        ensures
            !telemetry.client_connected,
            !telemetry.sitl_connected,
            telemetry.sessions == 0,
            telemetry.bytes_from_configurator == 0,
            telemetry.bytes_from_sitl == 0,
            telemetry.last_error is None,
    {
        ProxyTelemetry {
            client_connected: false,
            sitl_connected: false,
            sessions: 0,
            bytes_from_configurator: 0,
            bytes_from_sitl: 0,
            last_error: None,
        }
    }

    /// The relay is up: a Configurator client and SITL are both connected.
    pub fn connected(&self) -> (up: bool)
        ensures
            up == (self.client_connected && self.sitl_connected),
    {
        self.client_connected && self.sitl_connected
    }
}

/// Sets both link flags and leaves everything else unchanged.
pub fn set_connection_state(
    telemetry: &mut ProxyTelemetry,
    client_connected: bool,
    sitl_connected: bool,
)
    ensures
        *final(telemetry) == (ProxyTelemetry {
            client_connected,
            sitl_connected,
            ..*old(telemetry)
        }),
{
    telemetry.client_connected = client_connected;
    telemetry.sitl_connected = sitl_connected;
}

/// Keeps `message` as the last error and leaves everything else unchanged.
pub fn record_error(telemetry: &mut ProxyTelemetry, message: String)
    ensures
        *final(telemetry) == (ProxyTelemetry { last_error: Some(message), ..*old(telemetry) }),
{
    telemetry.last_error = Some(message);
}

/// A session started: the client and SITL are connected, the session is
/// counted and the last error is cleared.
pub fn begin_session(telemetry: &mut ProxyTelemetry)
    requires
        old(telemetry).sessions < u64::MAX,
    ensures
        *final(telemetry) == (ProxyTelemetry {
            client_connected: true,
            sitl_connected: true,
            sessions: (old(telemetry).sessions + 1) as u64,
            last_error: None,
            ..*old(telemetry)
        }),
{
    telemetry.client_connected = true;
    telemetry.sitl_connected = true;
    telemetry.sessions = telemetry.sessions + 1;
    telemetry.last_error = None;
}

/// A session ended, cleanly or with an error: the error, if any, is kept and
/// both links are marked down.
pub fn end_session(telemetry: &mut ProxyTelemetry, outcome: Result<(), String>)
    ensures
        final(telemetry).last_error == (match outcome {
            Ok(()) => old(telemetry).last_error,
            Err(message) => Some(message),
        }),
        !final(telemetry).client_connected,
        !final(telemetry).sitl_connected,
        final(telemetry).sessions == old(telemetry).sessions,
        final(telemetry).bytes_from_configurator == old(telemetry).bytes_from_configurator,
        final(telemetry).bytes_from_sitl == old(telemetry).bytes_from_sitl,
{
    if let Err(message) = outcome {
        record_error(telemetry, message);
    }
    set_connection_state(telemetry, false, false);
}

/// Counts `count` bytes relayed from the Configurator to SITL.
pub fn count_bytes_from_configurator(telemetry: &mut ProxyTelemetry, count: u64)
    requires
        old(telemetry).bytes_from_configurator + count <= u64::MAX,
    ensures
        *final(telemetry) == (ProxyTelemetry {
            bytes_from_configurator: (old(telemetry).bytes_from_configurator + count) as u64,
            ..*old(telemetry)
        }),
{
    telemetry.bytes_from_configurator = telemetry.bytes_from_configurator + count;
}

/// Counts `count` bytes relayed from SITL to the Configurator.
pub fn count_bytes_from_sitl(telemetry: &mut ProxyTelemetry, count: u64)
    requires
        old(telemetry).bytes_from_sitl + count <= u64::MAX,
    ensures
        *final(telemetry) == (ProxyTelemetry {
            bytes_from_sitl: (old(telemetry).bytes_from_sitl + count) as u64,
            ..*old(telemetry)
        }),
{
    telemetry.bytes_from_sitl = telemetry.bytes_from_sitl + count;
}

/// How long the accept loop pauses after `accept` failed this way, in
/// milliseconds. A would-block (no pending client) is a short idle wait; any
/// other failure is recorded as the last error and waited out longer.
pub fn after_accept_error(telemetry: &mut ProxyTelemetry, kind: IoErrorKind, message: String) -> (pause_ms: u64)
    ensures
        kind == IoErrorKind::WouldBlock ==> pause_ms == 10 && *final(telemetry) == *old(telemetry),
        kind != IoErrorKind::WouldBlock ==> pause_ms == 100 && *final(telemetry) == (ProxyTelemetry {
            last_error: Some(message),
            ..*old(telemetry)
        }),
{
    if kind == IoErrorKind::WouldBlock {
        10
    } else {
        record_error(telemetry, message);
        100
    }
}

/// What a WebSocket read produced.
#[derive(Debug, Clone)]
pub enum WsReadOutcome {
    /// A binary or text message with this payload.
    Payload(Vec<u8>),
    /// A close frame.
    CloseFrame,
    /// Any other message (ping, pong, raw frame).
    Control,
    /// The connection is closed (or was already closed).
    ConnectionClosed,
    /// An I/O error of this kind.
    Io(IoErrorKind),
    /// Any other WebSocket error.
    Failed,
}

/// What a flush of the WebSocket produced.
#[derive(Debug, Clone, Copy, PartialEq, Eq, Structural)]
pub enum WsFlushOutcome {
    Flushed,
    ConnectionClosed,
    Io(IoErrorKind),
    Failed,
}

/// What a read from the SITL TCP stream produced.
#[derive(Debug, Clone, Copy, PartialEq, Eq, Structural)]
pub enum StreamReadOutcome {
    /// This many bytes were read; zero means SITL closed the stream.
    Read(usize),
    Io(IoErrorKind),
}

/// The next move of the relay loop.
#[derive(Debug, Clone)]
pub enum RelayStep {
    /// Relay these bytes to the other side, then go on.
    Relay(Vec<u8>),
    /// Nothing to relay; go on with the loop.
    Proceed,
    /// The session is over.
    Finish,
    /// The session failed.
    Fail,
}

/// Decides on the outcome of a WebSocket read: a non-empty binary or text
/// payload is relayed to SITL, an empty one is skipped, a close frame or a
/// closed connection ends the session, other messages and retryable I/O
/// errors are skipped, and any other error fails the session.
pub fn after_websocket_read(outcome: WsReadOutcome) -> (step: RelayStep)
    ensures
        step == (match outcome {
            WsReadOutcome::Payload(data) => if data@.len() > 0 {
                RelayStep::Relay(data)
            } else {
                RelayStep::Proceed
            },
            WsReadOutcome::CloseFrame => RelayStep::Finish,
            WsReadOutcome::Control => RelayStep::Proceed,
            WsReadOutcome::ConnectionClosed => RelayStep::Finish,
            WsReadOutcome::Io(kind) => if kind == IoErrorKind::WouldBlock || kind
                == IoErrorKind::TimedOut {
                RelayStep::Proceed
            } else {
                RelayStep::Fail
            },
            WsReadOutcome::Failed => RelayStep::Fail,
        }),
{
    match outcome {
        WsReadOutcome::Payload(data) => {
            if data.len() > 0 {
                RelayStep::Relay(data)
            } else {
                RelayStep::Proceed
            }
        },
        WsReadOutcome::CloseFrame => RelayStep::Finish,
        WsReadOutcome::Control => RelayStep::Proceed,
        WsReadOutcome::ConnectionClosed => RelayStep::Finish,
        WsReadOutcome::Io(kind) => {
            if is_retryable_io(kind) {
                RelayStep::Proceed
            } else {
                RelayStep::Fail
            }
        },
        WsReadOutcome::Failed => RelayStep::Fail,
    }
}

/// Decides on the outcome of a read from SITL: zero bytes means SITL closed
/// the stream and ends the session, some bytes are relayed to the
/// Configurator (the first `count` bytes of `buffer`), retryable I/O errors
/// are skipped, and any other error fails the session.
pub fn after_sitl_read(outcome: StreamReadOutcome, buffer: &[u8]) -> (step: RelayStep)
    requires
        outcome matches StreamReadOutcome::Read(count) ==> count <= buffer@.len(),
    ensures
        match outcome {
            StreamReadOutcome::Read(count) => if count == 0 {
                step is Finish
            } else {
                step matches RelayStep::Relay(bytes) && bytes@ == buffer@.subrange(0, count as int)
            },
            StreamReadOutcome::Io(kind) => if kind == IoErrorKind::WouldBlock || kind
                == IoErrorKind::TimedOut {
                step is Proceed
            } else {
                step is Fail
            },
        },
{
    match outcome {
        StreamReadOutcome::Read(count) => {
            if count == 0 {
                RelayStep::Finish
            } else {
                RelayStep::Relay(prefix_of(buffer, count))
            }
        },
        StreamReadOutcome::Io(kind) => {
            if is_retryable_io(kind) {
                RelayStep::Proceed
            } else {
                RelayStep::Fail
            }
        },
    }
}

/// Decides on the outcome of a WebSocket flush: flushed or a retryable I/O
/// error goes on, a closed connection ends the session, anything else fails
/// it.
pub fn after_websocket_flush(outcome: WsFlushOutcome) -> (step: RelayStep)
    ensures
        step == (match outcome {
            WsFlushOutcome::Flushed => RelayStep::Proceed,
            WsFlushOutcome::ConnectionClosed => RelayStep::Finish,
            WsFlushOutcome::Io(kind) => if kind == IoErrorKind::WouldBlock || kind
                == IoErrorKind::TimedOut {
                RelayStep::Proceed
            } else {
                RelayStep::Fail
            },
            WsFlushOutcome::Failed => RelayStep::Fail,
        }),
{
    match outcome {
        WsFlushOutcome::Flushed => RelayStep::Proceed,
        WsFlushOutcome::ConnectionClosed => RelayStep::Finish,
        WsFlushOutcome::Io(kind) => {
            if is_retryable_io(kind) {
                RelayStep::Proceed
            } else {
                RelayStep::Fail
            }
        },
        WsFlushOutcome::Failed => RelayStep::Fail,
    }
}

/// The first `count` bytes of `buffer`.
fn prefix_of(buffer: &[u8], count: usize) -> (prefix: Vec<u8>)
    requires
        count <= buffer@.len(),
    ensures
        prefix@ == buffer@.subrange(0, count as int),
{
    let mut prefix: Vec<u8> = Vec::new();
    let mut i: usize = 0;
    while i < count
        invariant
            i <= count,
            count <= buffer@.len(),
            prefix@ == buffer@.subrange(0, i as int),
        decreases count - i,
    {
        prefix.push(buffer[i]);
        i = i + 1;
    }
    prefix
}

} // verus!
