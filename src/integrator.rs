//! The decisions of the path-tracing estimator.
//!
//! A path is walked as a loop that carries the remaining depth. After each
//! intersection query the estimator decides whether to return the background,
//! return the emission alone, or ask the material to scatter; after the
//! scatter it decides whether the path ends or follows the new ray one level
//! deeper. The arithmetic on radiance is done by the caller; the decisions and
//! the bound on the number of bounces are stated and proved here.

use crate::materials::Transport;
use vstd::prelude::*;

verus! {

/// What to do once the nearest intersection of a ray is known.
#[derive(Clone, Copy, Debug, PartialEq, Eq, Structural)]
pub enum HitStep {
    /// The ray escaped the scene: return the background radiance.
    Background,
    /// The depth cap is reached: return the emission at the hit alone.
    EmissionOnly,
    /// Accumulate the emission and ask the material to scatter.
    Scatter,
}

/// What to do once the material has answered the scatter query.
#[derive(Clone, Copy, Debug, PartialEq, Eq, Structural)]
pub enum BounceStep {
    /// The material did not scatter: the path ends with its emission.
    Absorbed,
    /// The scattering density of a sampled direction is not positive: the
    /// path ends with its emission rather than divide by it.
    Discarded,
    /// Follow the scattered ray with one level less of depth, weighting its
    /// radiance as `weighting` says.
    Follow { depth_remaining: u32, weighting: Transport },
}

/// One bounce of a path as the estimator sees it: whether the ray hit
/// anything, what the material's scatter gave, and whether the scattering
/// density of the sampled direction is positive.
#[derive(Clone, Copy, Debug, PartialEq, Eq, Structural)]
pub struct Bounce {
    pub hit: bool,
    pub transport: Option<Transport>,
    pub density_positive: bool,
}

/// The decision after an intersection query at remaining depth `depth`.
pub open spec fn hit_step(depth: u32, hit: bool) -> HitStep {
    if !hit {
        HitStep::Background
    } else if depth == 0 {
        HitStep::EmissionOnly
    } else {
        HitStep::Scatter
    }
}

/// The decision after a scatter query at remaining depth `depth`.
pub open spec fn bounce_step(
    depth: u32,
    transport: Option<Transport>,
    density_positive: bool,
) -> BounceStep {
    match transport {
        None => BounceStep::Absorbed,
        Some(Transport::Specular) => BounceStep::Follow {
            depth_remaining: (depth - 1) as u32,
            weighting: Transport::Specular,
        },
        Some(Transport::Diffuse) => if density_positive {
            BounceStep::Follow { depth_remaining: (depth - 1) as u32, weighting: Transport::Diffuse }
        } else {
            BounceStep::Discarded
        },
    }
}

/// The number of scattered rays a path follows when it starts at remaining
/// depth `depth` and meets `bounces` in turn.
pub open spec fn followed(depth: u32, bounces: Seq<Bounce>) -> nat
    decreases bounces.len(),
{
    if bounces.len() == 0 {
        0
    } else {
        let b = bounces[0];
        match hit_step(depth, b.hit) {
            HitStep::Scatter => match bounce_step(depth, b.transport, b.density_positive) {
                BounceStep::Follow { depth_remaining, .. } => 1 + followed(
                    depth_remaining,
                    bounces.drop_first(),
                ),
                _ => 0,
            },
            _ => 0,
        }
    }
}

/// Decides what follows an intersection query at remaining depth
/// `depth_remaining`; `hit` tells whether the ray hit anything.
pub fn after_intersection(depth_remaining: u32, hit: bool) -> (r: HitStep)
    ensures
        r == hit_step(depth_remaining, hit),
        !hit ==> r == HitStep::Background,
        hit && depth_remaining == 0 ==> r == HitStep::EmissionOnly,
        hit && depth_remaining > 0 ==> r == HitStep::Scatter,
{
    if !hit {
        HitStep::Background
    } else if depth_remaining == 0 {
        HitStep::EmissionOnly
    } else {
        HitStep::Scatter
    }
}

/// Decides what follows a scatter query at remaining depth `depth_remaining`.
/// `transport` is what the material's scatter gave; `density_positive` tells,
/// for a sampled direction, whether its scattering density is above zero.
pub fn after_scatter(
    depth_remaining: u32,
    transport: Option<Transport>,
    density_positive: bool,
) -> (r: BounceStep)
    requires
        depth_remaining > 0,
    ensures
        r == bounce_step(depth_remaining, transport, density_positive),
        transport is None ==> r == BounceStep::Absorbed,
        transport == Some(Transport::Specular) ==> r == (BounceStep::Follow {
            depth_remaining: (depth_remaining - 1) as u32,
            weighting: Transport::Specular,
        }),
        transport == Some(Transport::Diffuse) && !density_positive ==> r == BounceStep::Discarded,
        transport == Some(Transport::Diffuse) && density_positive ==> r == (BounceStep::Follow {
            depth_remaining: (depth_remaining - 1) as u32,
            weighting: Transport::Diffuse,
        }),
{
    match transport {
        None => BounceStep::Absorbed,
        Some(Transport::Specular) => BounceStep::Follow {
            depth_remaining: depth_remaining - 1,
            weighting: Transport::Specular,
        },
        Some(Transport::Diffuse) => {
            if density_positive {
                BounceStep::Follow {
                    depth_remaining: depth_remaining - 1,
                    weighting: Transport::Diffuse,
                }
            } else {
                BounceStep::Discarded
            }
        },
    }
}

/// The depth cap bounds the cost of every path: whatever the scene and the
/// random draws, a path started at remaining depth `depth` follows at most
/// `depth` scattered rays, so it makes at most `depth + 1` intersection
/// queries.
pub proof fn lemma_depth_cap_bounds_path(depth: u32, bounces: Seq<Bounce>)
    ensures
        followed(depth, bounces) <= depth,
    decreases bounces.len(),
{
    if bounces.len() > 0 {
        let b = bounces[0];
        if hit_step(depth, b.hit) == HitStep::Scatter {
            if let BounceStep::Follow { depth_remaining, .. } = bounce_step(
                depth,
                b.transport,
                b.density_positive,
            ) {
                lemma_depth_cap_bounds_path(depth_remaining, bounces.drop_first());
            }
        }
    }
}

} // verus!
