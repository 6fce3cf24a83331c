//! Decision logic of a Monte Carlo path tracer: how each material variant
//! transports light, when a path stops, how a radiance sample is scrubbed of
//! undefined values, and how render times are reported.

pub mod clock;
pub mod integrator;
pub mod materials;
pub mod radiance;
