//! Motor / ESC fault status.
use vstd::prelude::*;

verus! {

/// Fault status of one simulated motor and its ESC.
#[derive(Debug, Clone, Copy, PartialEq, Eq, Structural)]
pub enum MotorFault {
    Healthy,
    Stalled,
    Offline,
    Limited,
    Reversed,
}

/// The text shown for a motor fault status.
pub open spec fn motor_fault_label(fault: MotorFault) -> Seq<char> {
    match fault {
        MotorFault::Healthy => "OK"@,
        MotorFault::Stalled => "Stalled"@,
        MotorFault::Offline => "Offline"@,
        MotorFault::Limited => "Limited"@,
        MotorFault::Reversed => "Reversed"@,
    }
}

impl MotorFault {
    /// The text shown for this fault status.
    pub fn label(self) -> (label: &'static str)
        ensures
            label@ == motor_fault_label(self),
    {
        match self {
            MotorFault::Healthy => "OK",
            MotorFault::Stalled => "Stalled",
            MotorFault::Offline => "Offline",
            MotorFault::Limited => "Limited",
            MotorFault::Reversed => "Reversed",
        }
    }
}

} // verus!
