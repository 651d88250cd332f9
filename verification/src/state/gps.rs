//! GPS fix quality.
use vstd::prelude::*;

verus! {

/// Quality of the simulated GPS fix.
#[derive(Debug, Clone, Copy, PartialEq, Eq, Structural)]
pub enum GpsFix {
    NoFix,
    TwoDimensional,
    ThreeDimensional,
}

/// The text shown for a GPS fix.
pub open spec fn gps_fix_label(fix: GpsFix) -> Seq<char> {
    match fix {
        GpsFix::NoFix => "No fix"@,
        GpsFix::TwoDimensional => "2D"@,
        GpsFix::ThreeDimensional => "3D"@,
    }
}

impl GpsFix {
    /// The text shown for this fix.
    pub fn label(self) -> (label: &'static str)
        ensures
            label@ == gps_fix_label(self),
    {
        match self {
            GpsFix::NoFix => "No fix",
            GpsFix::TwoDimensional => "2D",
            GpsFix::ThreeDimensional => "3D",
        }
    }
}

} // verus!
