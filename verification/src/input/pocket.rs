//! The RadioMaster Pocket profile: which physical control drives which
//! receiver channel, and how the channel values are assembled.
use vstd::prelude::*;

use crate::state::receiver::default_channel_us;

verus! {

/// Number of receiver channels produced from the Pocket.
pub const POCKET_CHANNEL_COUNT: usize = 16;

/// Number of Pocket controls that are mapped to channels.
pub const POCKET_CONTROL_COUNT: usize = 9;

/// A physical control of the Pocket that is mapped to a channel.
#[derive(Debug, Clone, Copy, PartialEq, Eq, Structural)]
pub enum PocketControl {
    Roll,
    Pitch,
    Throttle,
    Yaw,
    Arm,
    SwitchA,
    SwitchB,
    SwitchC,
    SwitchE,
}

/// The controls in channel order.
pub open spec fn pocket_control_at(index: int) -> PocketControl {
    if index == 0 {
        PocketControl::Roll
    } else if index == 1 {
        PocketControl::Pitch
    } else if index == 2 {
        PocketControl::Throttle
    } else if index == 3 {
        PocketControl::Yaw
    } else if index == 4 {
        PocketControl::Arm
    } else if index == 5 {
        PocketControl::SwitchA
    } else if index == 6 {
        PocketControl::SwitchB
    } else if index == 7 {
        PocketControl::SwitchC
    } else {
        PocketControl::SwitchE
    }
}

/// The channel (1-based) that a control drives: AETR on CH1-CH4, then the
/// arm switch SD on AUX1 and the switches SA, SB, SC, SE.
pub open spec fn pocket_channel(control: PocketControl) -> usize {
    match control {
        PocketControl::Roll => 1,
        PocketControl::Pitch => 2,
        PocketControl::Throttle => 3,
        PocketControl::Yaw => 4,
        PocketControl::Arm => 5,
        PocketControl::SwitchA => 6,
        PocketControl::SwitchB => 7,
        PocketControl::SwitchC => 8,
        PocketControl::SwitchE => 9,
    }
}

/// The name shown for a control.
pub open spec fn pocket_control_name(control: PocketControl) -> Seq<char> {
    match control {
        PocketControl::Roll => "Roll"@,
        PocketControl::Pitch => "Pitch"@,
        PocketControl::Throttle => "Throttle"@,
        PocketControl::Yaw => "Yaw"@,
        PocketControl::Arm => "Arm / SD"@,
        PocketControl::SwitchA => "SA"@,
        PocketControl::SwitchB => "SB"@,
        PocketControl::SwitchC => "SC"@,
        PocketControl::SwitchE => "SE"@,
    }
}

impl PocketControl {
    /// The mapped controls in channel order.
    pub fn all() -> (controls: [PocketControl; POCKET_CONTROL_COUNT])
        ensures
            forall|i: int|
                0 <= i < POCKET_CONTROL_COUNT ==> #[trigger] controls[i] == pocket_control_at(i),
    {
        [
            PocketControl::Roll,
            PocketControl::Pitch,
            PocketControl::Throttle,
            PocketControl::Yaw,
            PocketControl::Arm,
            PocketControl::SwitchA,
            PocketControl::SwitchB,
            PocketControl::SwitchC,
            PocketControl::SwitchE,
        ]
    }

    /// The channel (1-based) this control drives.
    pub fn channel(self) -> (channel: usize)
        ensures
            channel == pocket_channel(self),
            1 <= channel <= POCKET_CHANNEL_COUNT,
    {
        match self {
            PocketControl::Roll => 1,
            PocketControl::Pitch => 2,
            PocketControl::Throttle => 3,
            PocketControl::Yaw => 4,
            PocketControl::Arm => 5,
            PocketControl::SwitchA => 6,
            PocketControl::SwitchB => 7,
            PocketControl::SwitchC => 8,
            PocketControl::SwitchE => 9,
        }
    }

    /// The name shown for this control.
    pub fn name(self) -> (name: &'static str)
        ensures
            name@ == pocket_control_name(self),
    {
        match self {
            PocketControl::Roll => "Roll",
            PocketControl::Pitch => "Pitch",
            PocketControl::Throttle => "Throttle",
            PocketControl::Yaw => "Yaw",
            PocketControl::Arm => "Arm / SD",
            PocketControl::SwitchA => "SA",
            PocketControl::SwitchB => "SB",
            PocketControl::SwitchC => "SC",
            PocketControl::SwitchE => "SE",
        }
    }
}

/// Distinct mapped controls drive distinct channels.
pub proof fn lemma_pocket_channels_distinct(a: PocketControl, b: PocketControl)
    ensures
        pocket_channel(a) == pocket_channel(b) ==> a == b,
{
}

/// A pulse width for a channel (1-based).
#[derive(Debug, Clone, Copy)]
pub struct ChannelAssignment {
    pub channel: usize,
    pub pulse_us: u16,
}

/// The value of channel index `k` after applying `assignments` in order to
/// the default channels: the last assignment to that channel wins.
pub open spec fn assigned_channel_us(assignments: Seq<ChannelAssignment>, k: int) -> u16
    decreases assignments.len(),
{
    if assignments.len() == 0 {
        default_channel_us(k)
    } else if assignments.last().channel == k + 1 {
        assignments.last().pulse_us
    } else {
        assigned_channel_us(assignments.drop_last(), k)
    }
}

/// Builds the sixteen channel values from the defaults (throttle idle, all
/// else centred) and the pulse widths of the mapped controls.
pub fn assemble_pocket_channels(assignments: &Vec<ChannelAssignment>) -> (channels: [u16;
    POCKET_CHANNEL_COUNT])
    requires
        forall|i: int|
            0 <= i < assignments@.len() ==> 1 <= #[trigger] assignments@[i].channel
                <= POCKET_CHANNEL_COUNT,
    ensures
        forall|k: int|
            0 <= k < POCKET_CHANNEL_COUNT ==> #[trigger] channels[k] == assigned_channel_us(
                assignments@,
                k,
            ),
        forall|k: int|
            0 <= k < POCKET_CHANNEL_COUNT && (forall|i: int|
                0 <= i < assignments@.len() ==> #[trigger] assignments@[i].channel != k + 1)
                ==> #[trigger] channels[k] == if k == 2 {
                988u16
            } else {
                1500u16
            },
        forall|k: int, i: int|
            #![trigger channels[k], assignments@[i]]
            0 <= k < POCKET_CHANNEL_COUNT && 0 <= i < assignments@.len() && assignments@[i].channel
                == k + 1 && (forall|j: int|
                i < j < assignments@.len() ==> #[trigger] assignments@[j].channel != k + 1)
                ==> channels[k] == assignments@[i].pulse_us,
{
    let mut channels = crate::state::receiver::default_channels();
    let mut i: usize = 0;
    assert(assignments@.take(0) =~= Seq::<ChannelAssignment>::empty());
    while i < assignments.len()
        invariant
            i <= assignments@.len(),
            forall|j: int|
                0 <= j < assignments@.len() ==> 1 <= #[trigger] assignments@[j].channel
                    <= POCKET_CHANNEL_COUNT,
            forall|k: int|
                0 <= k < POCKET_CHANNEL_COUNT ==> #[trigger] channels[k] == assigned_channel_us(
                    assignments@.take(i as int),
                    k,
                ),
        decreases assignments@.len() - i,
    {
        let assignment = assignments[i];
        assert(assignments@.take(i + 1).drop_last() =~= assignments@.take(i as int));
        assert(assignments@.take(i + 1).last() == assignment);
        channels[assignment.channel - 1] = assignment.pulse_us;
        i = i + 1;
    }
    assert(assignments@.take(assignments@.len() as int) =~= assignments@);
    proof {
        assert forall|k: int|
            0 <= k < POCKET_CHANNEL_COUNT && (forall|i: int|
                0 <= i < assignments@.len() ==> #[trigger] assignments@[i].channel != k + 1)
                implies #[trigger] channels[k] == if k == 2 {
            988u16
        } else {
            1500u16
        } by {
            lemma_unassigned_channel_keeps_default(assignments@, k);
        }
        assert forall|k: int, i: int|
            #![trigger channels[k], assignments@[i]]
            0 <= k < POCKET_CHANNEL_COUNT && 0 <= i < assignments@.len() && assignments@[i].channel
                == k + 1 && (forall|j: int|
                i < j < assignments@.len() ==> #[trigger] assignments@[j].channel != k + 1)
                implies channels[k] == assignments@[i].pulse_us by {
            lemma_last_assignment_wins(assignments@, k, i);
        }
    }
    channels
}

/// The assignments of the mapped controls, in channel order, with pulse
/// widths `pulses` (one per control).
pub open spec fn pocket_assignments(pulses: Seq<u16>) -> Seq<ChannelAssignment> {
    Seq::new(
        POCKET_CONTROL_COUNT as nat,
        |i: int| ChannelAssignment { channel: pocket_channel(pocket_control_at(i)), pulse_us: pulses[i] },
    )
}

proof fn lemma_pocket_assignment_prefix(pulses: Seq<u16>, n: int, k: int)
    requires
        pulses.len() == POCKET_CONTROL_COUNT,
        0 <= n <= POCKET_CONTROL_COUNT,
        0 <= k < POCKET_CHANNEL_COUNT,
    ensures
        assigned_channel_us(pocket_assignments(pulses).take(n), k) == if k < n {
            pulses[k]
        } else {
            default_channel_us(k)
        },
    decreases n,
{
    let prefix = pocket_assignments(pulses).take(n);
    if n > 0 {
        assert(prefix.drop_last() =~= pocket_assignments(pulses).take(n - 1));
        assert(prefix.last().channel == n);
        lemma_pocket_assignment_prefix(pulses, n - 1, k);
    }
}

/// The Pocket's channel layout: with one pulse width per mapped control, in
/// channel order, channels CH1-CH9 carry the controls' pulse widths (AETR,
/// then SD, SA, SB, SC, SE) and CH10-CH16 stay centred.
pub proof fn lemma_pocket_channel_layout(pulses: Seq<u16>, k: int)
    requires
        pulses.len() == POCKET_CONTROL_COUNT,
        0 <= k < POCKET_CHANNEL_COUNT,
    ensures
        assigned_channel_us(pocket_assignments(pulses), k) == if k < POCKET_CONTROL_COUNT {
            pulses[k]
        } else {
            crate::state::receiver::CHANNEL_CENTER_US
        },
{
    lemma_pocket_assignment_prefix(pulses, POCKET_CONTROL_COUNT as int, k);
    assert(pocket_assignments(pulses).take(POCKET_CONTROL_COUNT as int) =~= pocket_assignments(
        pulses,
    ));
}

/// A channel that no assignment names keeps its default: throttle idle,
/// every other channel centred.
pub proof fn lemma_unassigned_channel_keeps_default(assignments: Seq<ChannelAssignment>, k: int)
    requires
        forall|i: int| 0 <= i < assignments.len() ==> #[trigger] assignments[i].channel != k + 1,
    ensures
        assigned_channel_us(assignments, k) == if k == 2 {
            988u16
        } else {
            1500u16
        },
    decreases assignments.len(),
{
    if assignments.len() > 0 {
        let rest = assignments.drop_last();
        assert forall|i: int| 0 <= i < rest.len() implies #[trigger] rest[i].channel != k + 1 by {
            assert(rest[i] == assignments[i]);
        }
        assert(assignments.last() == assignments[assignments.len() - 1]);
        lemma_unassigned_channel_keeps_default(rest, k);
    }
}

/// The last assignment to a channel decides its value.
pub proof fn lemma_last_assignment_wins(assignments: Seq<ChannelAssignment>, k: int, i: int)
    requires
        0 <= i < assignments.len(),
        assignments[i].channel == k + 1,
        forall|j: int| i < j < assignments.len() ==> #[trigger] assignments[j].channel != k + 1,
    ensures
        assigned_channel_us(assignments, k) == assignments[i].pulse_us,
    decreases assignments.len(),
{
    let n = assignments.len() - 1;
    assert(assignments.last() == assignments[n]);
    if i < n {
        let rest = assignments.drop_last();
        assert(assignments[n].channel != k + 1);
        assert(rest[i] == assignments[i]);
        assert forall|j: int| i < j < rest.len() implies #[trigger] rest[j].channel != k + 1 by {
            assert(rest[j] == assignments[j]);
        }
        lemma_last_assignment_wins(rest, k, i);
    }
}

} // verus!
