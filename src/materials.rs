//! The closed set of material variants and how each one transports light.

use vstd::prelude::*;

verus! {

/// How a scattered path is continued by the integrator.
#[derive(Clone, Copy, Debug, PartialEq, Eq, Structural)]
pub enum Transport {
    /// A deterministic direction (mirror, refraction, medium): the next
    /// radiance estimate is weighted by the attenuation alone.
    Specular,
    /// A direction drawn from a density: the next radiance estimate is also
    /// weighted by the scattering density over the sampling density.
    Diffuse,
}

/// The material variants a surface can carry.
#[derive(Clone, Copy, Debug, PartialEq, Eq, Structural)]
pub enum MaterialKind {
    /// Lambertian surface, sampled with a cosine-weighted hemisphere.
    Diffuse,
    /// Mirror with optional fuzz.
    Reflective,
    /// Dielectric that reflects or refracts.
    Refractive,
    /// One-sided emitter.
    Light,
    /// Participating medium scattering in every direction.
    Isotropic,
    /// Placeholder that neither scatters nor emits.
    Empty,
}

/// What scattering off a material of kind `kind` yields: nothing where the
/// path is absorbed, else the way the path goes on.
pub open spec fn transport_of(kind: MaterialKind) -> Option<Transport> {
    match kind {
        MaterialKind::Diffuse => Some(Transport::Diffuse),
        MaterialKind::Reflective => Some(Transport::Specular),
        MaterialKind::Refractive => Some(Transport::Specular),
        MaterialKind::Isotropic => Some(Transport::Specular),
        MaterialKind::Light => None,
        MaterialKind::Empty => None,
    }
}

impl MaterialKind {
    /// How a path that hits this material goes on, or `None` where it is
    /// absorbed.
    pub fn transport(&self) -> (r: Option<Transport>)
        ensures
            r == transport_of(*self),
    {
        match self {
            MaterialKind::Diffuse => Some(Transport::Diffuse),
            MaterialKind::Reflective => Some(Transport::Specular),
            MaterialKind::Refractive => Some(Transport::Specular),
            MaterialKind::Isotropic => Some(Transport::Specular),
            MaterialKind::Light => None,
            MaterialKind::Empty => None,
        }
    }

    /// Whether the material emits toward a ray; `front_facing` tells whether
    /// the shading normal faces the incoming ray. Only a light emits, and only
    /// from its front side.
    pub fn emits_toward(&self, front_facing: bool) -> (r: bool)
        ensures
            r == (*self == MaterialKind::Light && front_facing),
    {
        match self {
            MaterialKind::Light => front_facing,
            _ => false,
        }
    }
}

/// The material that neither scatters nor emits.
#[derive(Clone, Copy, Debug, PartialEq, Eq, Structural)]
pub struct Empty {}

impl Empty {
    /// Creates the empty material.
    pub fn new() -> (r: Empty)
        ensures
            r == (Empty {}),
    {
        Empty {}
    }

    /// The variant of this material.
    pub fn kind(&self) -> (r: MaterialKind)
        ensures
            r == MaterialKind::Empty,
            transport_of(r) is None,
    {
        MaterialKind::Empty
    }
}

} // verus!
