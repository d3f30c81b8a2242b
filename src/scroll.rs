use vstd::prelude::*;

verus! {

/// The unit in which a scroll event reports its magnitude.
#[derive(Clone, Copy, Debug, PartialEq, Eq, Structural)]
pub enum ScrollUnit {
    Line,
    Pixel,
}

/// How many pixel-equivalents one unit of a scroll event stands for:
/// a line counts as sixteen pixels.
pub open spec fn pixels_per_unit_of(unit: ScrollUnit) -> nat {
    match unit {
        ScrollUnit::Line => 16,
        ScrollUnit::Pixel => 1,
    }
}

/// The factor by which a scroll event's magnitude is multiplied before it is
/// added to the tick's zoom.
pub fn pixels_per_unit(unit: ScrollUnit) -> (r: u32)
    ensures
        r == pixels_per_unit_of(unit),
{
    match unit {
        ScrollUnit::Line => 16,
        ScrollUnit::Pixel => 1,
    }
}

/// Whether a pointer-motion event adds to the tick's delta: only while the
/// orbit trigger is held at the time the events are gathered.
pub open spec fn motion_counts_of(orbit_held: bool) -> bool {
    orbit_held
}

pub fn motion_counts(orbit_held: bool) -> (r: bool)
    ensures
        r == motion_counts_of(orbit_held),
{
    orbit_held
}

} // verus!
