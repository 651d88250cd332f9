//! The virtual receiver.
use vstd::prelude::*;

verus! {

/// Number of channels of the virtual receiver.
pub const RECEIVER_CHANNEL_COUNT: usize = 16;

/// Channel pulse width at stick centre, in microseconds.
pub const CHANNEL_CENTER_US: u16 = 1500;

/// Throttle pulse width at idle (lowest stick), in microseconds.
pub const THROTTLE_IDLE_US: u16 = 988;

/// Index of the throttle channel (CH3 in AETR order).
pub const THROTTLE_CHANNEL_INDEX: usize = 2;

/// The default pulse width of channel `index`: idle on throttle, centre on
/// every other channel.
pub open spec fn default_channel_us(index: int) -> u16 {
    if index == THROTTLE_CHANNEL_INDEX {
        THROTTLE_IDLE_US
    } else {
        CHANNEL_CENTER_US
    }
}

/// Channels, link figures and failsafe flag of the virtual receiver.
#[derive(Debug, Clone)]
pub struct ReceiverState {
    pub connected: bool,
    pub channels_us: [u16; RECEIVER_CHANNEL_COUNT],
    pub rssi_dbm: i16,
    pub link_quality: u8,
    pub packet_rate_hz: u16,
    pub failsafe: bool,
}

/// Sixteen channels at their defaults: throttle idle, everything else centred.
pub fn default_channels() -> (channels: [u16; RECEIVER_CHANNEL_COUNT])
    ensures
        forall|i: int|
            0 <= i < RECEIVER_CHANNEL_COUNT ==> #[trigger] channels[i] == default_channel_us(i),
        channels[2] == 988,
        forall|i: int| 0 <= i < RECEIVER_CHANNEL_COUNT && i != 2 ==> #[trigger] channels[i] == 1500,
{
    let mut channels = [CHANNEL_CENTER_US; RECEIVER_CHANNEL_COUNT];
    channels[THROTTLE_CHANNEL_INDEX] = THROTTLE_IDLE_US;
    channels
}

impl Default for ReceiverState {
    /// Disconnected, default channels, -50 dBm, 100 % link quality, 250 Hz,
    /// no failsafe.
    fn default() -> (state: Self)
        ensures
            !state.connected,
            forall|i: int|
                0 <= i < RECEIVER_CHANNEL_COUNT ==> #[trigger] state.channels_us[i]
                    == default_channel_us(i),
            state.channels_us[2] == 988,
            forall|i: int|
                0 <= i < RECEIVER_CHANNEL_COUNT && i != 2 ==> #[trigger] state.channels_us[i] == 1500,
            state.rssi_dbm == -50,
            state.link_quality == 100,
            state.packet_rate_hz == 250,
            !state.failsafe,
    {
        ReceiverState {
            connected: false,
            channels_us: default_channels(),
            rssi_dbm: -50,
            link_quality: 100,
            packet_rate_hz: 250,
            failsafe: false,
        }
    }
}

} // verus!
