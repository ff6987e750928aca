//! Host telemetry sampling: snapshot assembly, a shared snapshot store and
//! the angular layout of half-circle gauges.
pub mod gauge;
pub mod model;
pub mod sampler;
pub mod store;
