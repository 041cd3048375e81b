//! Depth-bounded control of the recursive ray-color integrator.
//!
//! One radiance sample is computed by a recursive walk: query the world for
//! the nearest hit, ask the material to scatter, and recurse with one fewer
//! bounce of budget. The colors themselves are floating point and are
//! combined outside this library; what is decided here, and verified, is
//! which contribution a step makes and how the bounce budget shrinks.

use vstd::prelude::*;

verus! {

/// What the world and the material at the hit point reported for one step.
#[derive(Clone, Copy, Debug, PartialEq, Eq, Structural)]
pub enum SurfaceEvent {
    /// The ray hit nothing inside the query interval.
    Miss,
    /// The ray hit a surface whose material did not scatter it
    /// (a pure emitter, or an absorbed ray).
    Absorbed,
    /// The ray hit a surface and the material produced a scattered ray.
    Scattered,
}

/// The contribution one integrator step makes to the radiance sample.
#[derive(Clone, Copy, Debug, PartialEq, Eq, Structural)]
pub enum RadianceStep {
    /// The bounce budget is exhausted: the step contributes black,
    /// whatever the ray or the world.
    Extinguished,
    /// The scene-supplied background color.
    Background,
    /// The material's emitted radiance alone.
    EmittedOnly,
    /// The emitted radiance plus the attenuated color of the scattered
    /// ray, traced with the remaining budget.
    Bounce { remaining: usize },
}

/// Decides one step of the ray-color recursion: a `depth` of zero ends the
/// walk with no light gathered, before the world is even queried; otherwise
/// the event at the nearest hit picks the contribution, and a scattered ray
/// is traced with a budget of one bounce fewer.
pub fn color_step(depth: usize, event: SurfaceEvent) -> (step: RadianceStep)
    ensures
        step == RadianceStep::Extinguished <==> depth == 0,
        depth > 0 && event == SurfaceEvent::Miss ==> step == RadianceStep::Background,
        depth > 0 && event == SurfaceEvent::Absorbed ==> step == RadianceStep::EmittedOnly,
        depth > 0 && event == SurfaceEvent::Scattered ==> step == (RadianceStep::Bounce {
            remaining: (depth - 1) as usize,
        }),
        step matches RadianceStep::Bounce { remaining } ==> remaining < depth,
{
    if depth == 0 {
        RadianceStep::Extinguished
    } else {
        match event {
            SurfaceEvent::Miss => RadianceStep::Background,
            SurfaceEvent::Absorbed => RadianceStep::EmittedOnly,
            SurfaceEvent::Scattered => RadianceStep::Bounce { remaining: depth - 1 },
        }
    }
}

} // verus!
