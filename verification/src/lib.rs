//! Telemetry pipeline of a home solar installation: device responses are
//! transcribed into fixed-schema metric records, and a collection cycle and
//! its scheduler are driven as state machines whose steps the caller performs.

pub mod category;
pub mod clock;
pub mod config;
pub mod cycle;
pub mod cycle_laws;
pub mod decimal;
pub mod device;
pub mod diagnostic;
pub mod error;
pub mod mapper;
pub mod record;
pub mod response;
pub mod scheduler;
