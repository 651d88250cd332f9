//! Decisions of the Betaflight SITL bridge worker: what to transmit when,
//! and how each transmission and each received motor packet changes the
//! bridge's telemetry.
//!
//! Times are nanoseconds since the bridge started; motor commands are `f32`
//! bit patterns.
use vstd::prelude::*;

use crate::protocol::{decode_motor_packet, motor_word, MOTOR_COUNT, RC_CHANNEL_COUNT};
use crate::transport::IoErrorKind;

verus! {

/// UDP port on which SITL sends motor outputs.
pub const DEFAULT_MOTOR_PORT: u16 = 9002;

/// UDP port on which SITL reads FDM (sensor) packets.
pub const DEFAULT_FDM_PORT: u16 = 9003;

/// UDP port on which SITL reads RC packets.
pub const DEFAULT_RC_PORT: u16 = 9004;

/// Default FDM transmission rate.
pub const DEFAULT_FDM_RATE_HZ: u32 = 250;

/// Default RC transmission rate.
pub const DEFAULT_RC_RATE_HZ: u32 = 250;

/// Pulse width of every RC channel before the first update, in microseconds.
pub const INITIAL_CHANNEL_US: u16 = 1500;

/// A motor packet older than this no longer counts as a live SITL link.
pub const MOTOR_LINK_TIMEOUT_NS: u64 = 1_000_000_000;

/// What the bench asks of the bridge: stream at all, stream RC, and the RC
/// channel values.
#[derive(Debug, Clone, Copy)]
pub struct BridgeControl {
    pub enabled: bool,
    pub receiver_enabled: bool,
    pub channels: [u16; RC_CHANNEL_COUNT],
}

impl BridgeControl {
    /// Nothing streams yet; all channels centred.
    pub fn new() -> (control: Self)
        ensures
            !control.enabled,
            !control.receiver_enabled,
            forall|i: int| 0 <= i < RC_CHANNEL_COUNT ==> #[trigger] control.channels[i] == INITIAL_CHANNEL_US,
    {
        BridgeControl {
            enabled: false,
            receiver_enabled: false,
            channels: [INITIAL_CHANNEL_US; RC_CHANNEL_COUNT],
        }
    }

    /// Switches FDM streaming (and with it any streaming) on or off.
    pub fn set_enabled(&mut self, enabled: bool)
        ensures
            *final(self) == (BridgeControl { enabled, ..*old(self) }),
    {
        self.enabled = enabled;
    }

    /// Switches RC streaming on or off.
    pub fn set_receiver_enabled(&mut self, enabled: bool)
        ensures
            *final(self) == (BridgeControl { receiver_enabled: enabled, ..*old(self) }),
    {
        self.receiver_enabled = enabled;
    }

    /// Replaces the RC channel values.
    pub fn set_channels(&mut self, channels: [u16; RC_CHANNEL_COUNT])
        ensures
            *final(self) == (BridgeControl { channels, ..*old(self) }),
    {
        self.channels = channels;
    }

    /// RC may stream: the bridge is enabled and the receiver is.
    pub open spec fn receiver_streaming_spec(&self) -> bool {
        self.enabled && self.receiver_enabled
    }

    /// RC packets flow only while the bridge is enabled and the receiver is.
    pub fn receiver_streaming(&self) -> (streaming: bool)
        ensures
            streaming == (self.enabled && self.receiver_enabled),
    {
        self.enabled && self.receiver_enabled
    }
}

/// Counters, last motor outputs, packet times and last error of the bridge.
#[derive(Debug, Clone)]
pub struct BridgeTelemetry {
    pub tx_fdm_packets: u64,
    pub tx_rc_packets: u64,
    pub rx_motor_packets: u64,
    pub motor_commands: [u32; MOTOR_COUNT],
    pub last_rc_packet_ns: Option<u64>,
    pub last_motor_packet_ns: Option<u64>,
    pub last_error: Option<String>,
}

impl BridgeTelemetry {
    /// Nothing sent or received yet; motor outputs zero.
    pub fn new() -> (telemetry: Self)
        ensures
            telemetry.tx_fdm_packets == 0,
            telemetry.tx_rc_packets == 0,
            telemetry.rx_motor_packets == 0,
            forall|m: int| 0 <= m < MOTOR_COUNT ==> #[trigger] telemetry.motor_commands[m] == 0,
            telemetry.last_rc_packet_ns is None,
            telemetry.last_motor_packet_ns is None,
            telemetry.last_error is None,
    {
        BridgeTelemetry {
            tx_fdm_packets: 0,
            tx_rc_packets: 0,
            rx_motor_packets: 0,
            motor_commands: [0u32; MOTOR_COUNT],
            last_rc_packet_ns: None,
            last_motor_packet_ns: None,
            last_error: None,
        }
    }
}

/// The telemetry after an FDM packet was sent.
pub open spec fn after_fdm_sent(t: BridgeTelemetry) -> BridgeTelemetry {
    BridgeTelemetry { tx_fdm_packets: (t.tx_fdm_packets + 1) as u64, ..t }
}

/// The telemetry after an RC packet was sent at `now_ns`.
pub open spec fn after_rc_sent(t: BridgeTelemetry, now_ns: u64) -> BridgeTelemetry {
    BridgeTelemetry {
        tx_rc_packets: (t.tx_rc_packets + 1) as u64,
        last_rc_packet_ns: Some(now_ns),
        ..t
    }
}

/// The telemetry after the motor outputs `motors` arrived at `now_ns`: they
/// replace the previous outputs, the packet is counted and any error is
/// cleared.
pub open spec fn after_motor_packet(
    t: BridgeTelemetry,
    motors: [u32; MOTOR_COUNT],
    now_ns: u64,
) -> BridgeTelemetry {
    BridgeTelemetry {
        motor_commands: motors,
        rx_motor_packets: (t.rx_motor_packets + 1) as u64,
        last_motor_packet_ns: Some(now_ns),
        last_error: None,
        ..t
    }
}

/// The telemetry after an error was recorded.
pub open spec fn after_error(t: BridgeTelemetry, message: String) -> BridgeTelemetry {
    BridgeTelemetry { last_error: Some(message), ..t }
}

/// Keeps `message` as the last error and leaves everything else unchanged.
pub fn record_error(telemetry: &mut BridgeTelemetry, message: String)
    ensures
        *final(telemetry) == after_error(*old(telemetry), message),
        final(telemetry).last_error == Some(message),
        counts_at_most(*old(telemetry), *final(telemetry)),
        counts_at_most(*final(telemetry), *old(telemetry)),
{
    telemetry.last_error = Some(message);
}

/// Counts a sent FDM packet.
pub fn count_fdm_sent(telemetry: &mut BridgeTelemetry)
    requires
        old(telemetry).tx_fdm_packets < u64::MAX,
    ensures
        *final(telemetry) == after_fdm_sent(*old(telemetry)),
        final(telemetry).tx_fdm_packets == old(telemetry).tx_fdm_packets + 1,
        final(telemetry).tx_rc_packets == old(telemetry).tx_rc_packets,
        final(telemetry).rx_motor_packets == old(telemetry).rx_motor_packets,
        final(telemetry).last_error == old(telemetry).last_error,
{
    telemetry.tx_fdm_packets = telemetry.tx_fdm_packets + 1;
}

/// Counts a sent RC packet and remembers when it went out.
pub fn count_rc_sent(telemetry: &mut BridgeTelemetry, now_ns: u64)
    requires
        old(telemetry).tx_rc_packets < u64::MAX,
    ensures
        *final(telemetry) == after_rc_sent(*old(telemetry), now_ns),
        final(telemetry).tx_rc_packets == old(telemetry).tx_rc_packets + 1,
        final(telemetry).last_rc_packet_ns == Some(now_ns),
        final(telemetry).tx_fdm_packets == old(telemetry).tx_fdm_packets,
        final(telemetry).rx_motor_packets == old(telemetry).rx_motor_packets,
        final(telemetry).last_error == old(telemetry).last_error,
{
    telemetry.tx_rc_packets = telemetry.tx_rc_packets + 1;
    telemetry.last_rc_packet_ns = Some(now_ns);
}

/// Takes a datagram received on the motor port at `now_ns`. A datagram of at
/// least sixteen bytes is a motor packet: its four outputs are taken, it is
/// counted and the last error is cleared. A shorter one is ignored and leaves
/// the telemetry as it was. Returns whether the datagram was taken.
pub fn accept_motor_datagram(telemetry: &mut BridgeTelemetry, datagram: &[u8], now_ns: u64) -> (taken: bool)
    requires
        datagram@.len() >= crate::protocol::MOTOR_PACKET_SIZE ==> old(telemetry).rx_motor_packets
            < u64::MAX,
    ensures
        taken <==> datagram@.len() >= crate::protocol::MOTOR_PACKET_SIZE,
        !taken ==> *final(telemetry) == *old(telemetry),
        taken ==> *final(telemetry) == after_motor_packet(
            *old(telemetry),
            final(telemetry).motor_commands,
            now_ns,
        ),
        taken ==> final(telemetry).rx_motor_packets == old(telemetry).rx_motor_packets + 1
            && final(telemetry).last_motor_packet_ns == Some(now_ns) && final(telemetry).last_error
            is None && final(telemetry).tx_fdm_packets == old(telemetry).tx_fdm_packets && final(telemetry).tx_rc_packets == old(telemetry).tx_rc_packets,
        taken ==> forall|m: int|
            0 <= m < MOTOR_COUNT ==> #[trigger] final(telemetry).motor_commands[m] == motor_word(
                datagram@,
                m,
            ),
{
    match decode_motor_packet(datagram) {
        Some(motors) => {
            telemetry.motor_commands = motors;
            telemetry.rx_motor_packets = telemetry.rx_motor_packets + 1;
            telemetry.last_motor_packet_ns = Some(now_ns);
            telemetry.last_error = None;
            true
        },
        None => false,
    }
}

/// Takes a failed receive on the motor port. A would-block means the socket
/// is drained and changes nothing; any other failure is recorded as the last
/// error. Either way the receive loop stops for this pass.
pub fn after_motor_receive_error(telemetry: &mut BridgeTelemetry, kind: IoErrorKind, message: String)
    ensures
        kind == IoErrorKind::WouldBlock ==> *final(telemetry) == *old(telemetry),
        kind != IoErrorKind::WouldBlock ==> *final(telemetry) == after_error(*old(telemetry), message),
        kind != IoErrorKind::WouldBlock ==> final(telemetry).last_error == Some(message),
{
    if kind != IoErrorKind::WouldBlock {
        record_error(telemetry, message);
    }
}

/// Counters of `a` are each at most those of `b`.
pub open spec fn counts_at_most(a: BridgeTelemetry, b: BridgeTelemetry) -> bool {
    &&& a.tx_fdm_packets <= b.tx_fdm_packets
    &&& a.tx_rc_packets <= b.tx_rc_packets
    &&& a.rx_motor_packets <= b.rx_motor_packets
}

/// No event of the bridge worker ever lowers a packet counter.
pub proof fn lemma_counters_never_decrease(
    t: BridgeTelemetry,
    motors: [u32; MOTOR_COUNT],
    now_ns: u64,
    message: String,
)
    requires
        t.tx_fdm_packets < u64::MAX,
        t.tx_rc_packets < u64::MAX,
        t.rx_motor_packets < u64::MAX,
    ensures
        counts_at_most(t, after_fdm_sent(t)),
        counts_at_most(t, after_rc_sent(t, now_ns)),
        counts_at_most(t, after_motor_packet(t, motors, now_ns)),
        counts_at_most(t, after_error(t, message)),
{
}

/// How long ago a packet was handled, if ever.
pub fn packet_age_ns(last_packet_ns: Option<u64>, now_ns: u64) -> (age: Option<u64>)
    ensures
        age == (match last_packet_ns {
            Some(at) => Some(if now_ns >= at { (now_ns - at) as u64 } else { 0u64 }),
            None => None,
        }),
{
    match last_packet_ns {
        Some(at) => Some(if now_ns >= at { now_ns - at } else { 0 }),
        None => None,
    }
}

/// The SITL link counts as connected while the bridge is enabled and the
/// last motor packet is at most one second old.
pub fn sitl_connected(enabled: bool, last_motor_packet_age_ns: Option<u64>) -> (connected: bool)
    ensures
        connected == (enabled && (last_motor_packet_age_ns matches Some(age) && age
            <= MOTOR_LINK_TIMEOUT_NS)),
{
    enabled && match last_motor_packet_age_ns {
        Some(age) => age <= MOTOR_LINK_TIMEOUT_NS,
        None => false,
    }
}

/// When the next FDM and RC packets are due, and the intervals between them.
#[derive(Debug, Clone, Copy)]
pub struct TxSchedule {
    pub fdm_interval_ns: u64,
    pub rc_interval_ns: u64,
    pub next_fdm_ns: u64,
    pub next_rc_ns: u64,
}

/// Which packets to send on this pass of the worker loop.
#[derive(Debug, Clone, Copy, PartialEq, Eq, Structural)]
pub struct TxPlan {
    pub send_fdm: bool,
    pub send_rc: bool,
}

impl TxSchedule {
    /// Both packets due at once.
    pub fn new(fdm_interval_ns: u64, rc_interval_ns: u64, now_ns: u64) -> (schedule: Self)
        ensures
            schedule.fdm_interval_ns == fdm_interval_ns,
            schedule.rc_interval_ns == rc_interval_ns,
            schedule.next_fdm_ns == now_ns,
            schedule.next_rc_ns == now_ns,
    {
        TxSchedule { fdm_interval_ns, rc_interval_ns, next_fdm_ns: now_ns, next_rc_ns: now_ns }
    }
}

/// What is sent at `now_ns`: FDM when the bridge is enabled and an FDM
/// packet is due; RC when, in addition, the receiver is enabled and an RC
/// packet is due.
pub open spec fn planned_transmissions(
    control: BridgeControl,
    schedule: TxSchedule,
    now_ns: u64,
) -> TxPlan {
    TxPlan {
        send_fdm: control.enabled && now_ns >= schedule.next_fdm_ns,
        send_rc: control.enabled && control.receiver_enabled && now_ns >= schedule.next_rc_ns,
    }
}

/// Decides what to send at `now_ns`. An FDM packet is sent when the bridge is
/// enabled and one is due; an RC packet when, in addition, the receiver is
/// enabled and one is due. Each packet sent (successfully or not) is next due
/// one interval after `now_ns`; a packet not sent keeps its due time.
pub fn plan_transmissions(control: &BridgeControl, schedule: &mut TxSchedule, now_ns: u64) -> (plan: TxPlan)
    requires
        planned_transmissions(*control, *old(schedule), now_ns).send_fdm ==> now_ns + old(schedule).fdm_interval_ns <= u64::MAX,
        planned_transmissions(*control, *old(schedule), now_ns).send_rc ==> now_ns + old(schedule).rc_interval_ns <= u64::MAX,
    ensures
        plan == planned_transmissions(*control, *old(schedule), now_ns),
        !control.enabled ==> !plan.send_fdm && !plan.send_rc,
        !control.receiver_enabled ==> !plan.send_rc,
        plan.send_fdm <==> (control.enabled && now_ns >= old(schedule).next_fdm_ns),
        plan.send_rc <==> (control.enabled && control.receiver_enabled && now_ns >= old(schedule).next_rc_ns),
        final(schedule).fdm_interval_ns == old(schedule).fdm_interval_ns,
        final(schedule).rc_interval_ns == old(schedule).rc_interval_ns,
        final(schedule).next_fdm_ns == if plan.send_fdm {
            (now_ns + old(schedule).fdm_interval_ns) as u64
        } else {
            old(schedule).next_fdm_ns
        },
        final(schedule).next_rc_ns == if plan.send_rc {
            (now_ns + old(schedule).rc_interval_ns) as u64
        } else {
            old(schedule).next_rc_ns
        },
{
    let send_fdm = control.enabled && now_ns >= schedule.next_fdm_ns;
    if send_fdm {
        schedule.next_fdm_ns = now_ns + schedule.fdm_interval_ns;
    }
    let send_rc = control.enabled && control.receiver_enabled && now_ns >= schedule.next_rc_ns;
    if send_rc {
        schedule.next_rc_ns = now_ns + schedule.rc_interval_ns;
    }
    TxPlan { send_fdm, send_rc }
}

/// A disabled bridge sends nothing, and RC never goes out while the receiver
/// is off; when enabled, each stream is sent exactly when it is due.
pub proof fn lemma_transmission_gates(control: BridgeControl, schedule: TxSchedule, now_ns: u64)
    ensures
        !control.enabled ==> !planned_transmissions(control, schedule, now_ns).send_fdm
            && !planned_transmissions(control, schedule, now_ns).send_rc,
        !control.receiver_enabled ==> !planned_transmissions(control, schedule, now_ns).send_rc,
        control.enabled ==> (planned_transmissions(control, schedule, now_ns).send_fdm <==> now_ns
            >= schedule.next_fdm_ns),
        control.enabled && control.receiver_enabled ==> (planned_transmissions(
            control,
            schedule,
            now_ns,
        ).send_rc <==> now_ns >= schedule.next_rc_ns),
        planned_transmissions(control, schedule, now_ns).send_rc ==> control.receiver_streaming_spec(),
{
}

/// What each telemetry event changes: a sent FDM or RC packet adds one to
/// its counter (RC also remembers when); a motor packet adds one to the
/// motor counter, takes the outputs, remembers when and clears the error; an
/// error is remembered and changes no counter.
pub proof fn lemma_telemetry_events(
    t: BridgeTelemetry,
    motors: [u32; MOTOR_COUNT],
    now_ns: u64,
    message: String,
)
    requires
        t.tx_fdm_packets < u64::MAX,
        t.tx_rc_packets < u64::MAX,
        t.rx_motor_packets < u64::MAX,
    ensures
        after_fdm_sent(t).tx_fdm_packets == t.tx_fdm_packets + 1,
        after_fdm_sent(t).tx_rc_packets == t.tx_rc_packets,
        after_fdm_sent(t).rx_motor_packets == t.rx_motor_packets,
        after_rc_sent(t, now_ns).tx_rc_packets == t.tx_rc_packets + 1,
        after_rc_sent(t, now_ns).last_rc_packet_ns == Some(now_ns),
        after_rc_sent(t, now_ns).tx_fdm_packets == t.tx_fdm_packets,
        after_motor_packet(t, motors, now_ns).rx_motor_packets == t.rx_motor_packets + 1,
        after_motor_packet(t, motors, now_ns).motor_commands == motors,
        after_motor_packet(t, motors, now_ns).last_motor_packet_ns == Some(now_ns),
        after_motor_packet(t, motors, now_ns).last_error is None,
        after_error(t, message).last_error == Some(message),
        after_error(t, message).tx_fdm_packets == t.tx_fdm_packets,
        after_error(t, message).tx_rc_packets == t.tx_rc_packets,
        after_error(t, message).rx_motor_packets == t.rx_motor_packets,
{
}

} // verus!
