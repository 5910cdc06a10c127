//! Per-person CO2 emission estimates for trips by car, carpool, bicycle,
//! public transit, and on foot.
//!
//! The library holds the pure domain model: the transport taxonomy, the
//! CO2-intensity table, the transit vehicle-type classification, and the
//! per-person emission arithmetic. Route measurement (distance, duration,
//! transit steps) comes from an external routing service; the surrounding
//! application queries it and hands the library plain values.

mod strutil;

pub mod classify;
pub mod emission;
pub mod transport;

pub use classify::TransitError;
pub use classify::classify_vehicle_type;
pub use classify::resolve_transit_mode;

pub use emission::EmissionResult;
pub use emission::calculate_emission;
pub use emission::compute_emission_result;
pub use emission::savings_percent;

pub use transport::CarSize;
pub use transport::Location;
pub use transport::Propulsion;
pub use transport::TransitMode;
pub use transport::Transport;
