use vstd::prelude::*;

verus! {

/// Which of the two pointer-driven motions a tick performs. Pan and orbit
/// exclude each other: a tick never applies both to the same delta.
#[derive(Clone, Copy, Debug, PartialEq, Eq, Structural)]
pub enum Motion {
    Pan,
    Orbit,
    Still,
}

/// The motion selected for a camera from the state of its two triggers:
/// the pan trigger wins over the orbit trigger.
pub open spec fn motion_of(pan_held: bool, orbit_held: bool) -> Motion {
    if pan_held {
        Motion::Pan
    } else if orbit_held {
        Motion::Orbit
    } else {
        Motion::Still
    }
}

pub fn select_motion(pan_held: bool, orbit_held: bool) -> (r: Motion)
    ensures
        r == motion_of(pan_held, orbit_held),
{
    if pan_held {
        Motion::Pan
    } else if orbit_held {
        Motion::Orbit
    } else {
        Motion::Still
    }
}

/// The steps that one tick applies to one camera.
#[derive(Clone, Copy, Debug, PartialEq, Eq, Structural)]
pub struct TickPlan {
    /// The pointer-driven motion, run on the tick's aggregate delta.
    pub motion: Motion,
    /// Whether the translation is drawn toward the world origin by the
    /// tick's zoom.
    pub zoom: bool,
    /// Whether the camera is re-aimed at its pivot, with world up as the
    /// up reference, once the other steps are done.
    pub look_at_pivot: bool,
}

/// Whether a plan changes the camera's translation.
pub open spec fn moves(p: TickPlan) -> bool {
    p.motion != Motion::Still || p.zoom
}

/// The plan for one camera: the motion that its triggers select runs only
/// on a nonzero delta, zoom only on a nonzero zoom, and every plan that
/// moves the camera ends by aiming it at the pivot.
pub open spec fn plan_of(pan_held: bool, orbit_held: bool, has_delta: bool, has_zoom: bool) -> TickPlan {
    let motion = if has_delta { motion_of(pan_held, orbit_held) } else { Motion::Still };
    TickPlan { motion, zoom: has_zoom, look_at_pivot: motion != Motion::Still || has_zoom }
}

/// Plans one tick for one camera from the state of its triggers and from
/// whether the tick's delta and zoom are nonzero.
pub fn plan_tick(pan_held: bool, orbit_held: bool, has_delta: bool, has_zoom: bool) -> (r: TickPlan)
    ensures
        r == plan_of(pan_held, orbit_held, has_delta, has_zoom),
{
    let motion = if has_delta { select_motion(pan_held, orbit_held) } else { Motion::Still };
    let moved = match motion {
        Motion::Still => has_zoom,
        _ => true,
    };
    TickPlan { motion, zoom: has_zoom, look_at_pivot: moved }
}

/// With a zero delta and a zero zoom a tick leaves the camera as it is:
/// no motion, no zoom, no re-aiming, whatever the triggers.
pub proof fn lemma_idle_without_input(pan_held: bool, orbit_held: bool)
    ensures
        plan_of(pan_held, orbit_held, false, false) == (TickPlan {
            motion: Motion::Still,
            zoom: false,
            look_at_pivot: false,
        }),
{
}

/// Every tick that moves the camera ends with the camera aimed at its pivot,
/// and a tick that does not move it does not re-aim it.
pub proof fn lemma_moved_then_aimed(pan_held: bool, orbit_held: bool, has_delta: bool, has_zoom: bool)
    ensures
        plan_of(pan_held, orbit_held, has_delta, has_zoom).look_at_pivot
            == moves(plan_of(pan_held, orbit_held, has_delta, has_zoom)),
{
}

/// Pan runs exactly when the pan trigger is held on a nonzero delta; orbit
/// exactly when the orbit trigger is held, the pan trigger is not, and the
/// delta is nonzero. So the two never run in one tick.
pub proof fn lemma_pan_over_orbit(pan_held: bool, orbit_held: bool, has_delta: bool, has_zoom: bool)
    ensures
        (plan_of(pan_held, orbit_held, has_delta, has_zoom).motion == Motion::Pan)
            == (has_delta && pan_held),
        (plan_of(pan_held, orbit_held, has_delta, has_zoom).motion == Motion::Orbit)
            == (has_delta && !pan_held && orbit_held),
{
}

/// Zoom is independent of the triggers: it runs exactly when the tick's zoom
/// is nonzero, alongside whichever motion was selected.
pub proof fn lemma_zoom_independent(pan_held: bool, orbit_held: bool, has_delta: bool, has_zoom: bool)
    ensures
        plan_of(pan_held, orbit_held, has_delta, has_zoom).zoom == has_zoom,
        plan_of(pan_held, orbit_held, has_delta, has_zoom).motion
            == plan_of(pan_held, orbit_held, has_delta, !has_zoom).motion,
{
}

} // verus!
