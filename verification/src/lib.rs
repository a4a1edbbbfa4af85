//! A per-zone variable-air-volume (VAV) terminal-unit control engine with a
//! system-level air-handling-unit (AHU) module.
//!
//! All physical quantities (temperatures, air flows, gains, percentages) are
//! carried as fixed-point numbers: an `i64` holding thousandths of the
//! engineering unit, so `22.4` degrees is `22_400`.  The `fixed` module
//! defines the representation, its valid range and its truncating division.

pub mod ahu;
pub mod errors;
pub mod fixed;
pub mod pid;
pub mod sensors;
pub mod vav_box;

pub use ahu::{
    breathing_zone_oa, calculate_ahu_percent_oa, version, zone_flow_setpoint, AshraeStandards,
    SystemConfig, Zone,
};
pub use errors::ControlError;
pub use pid::{PIDController, PIDSettings};
pub use sensors::TemperatureSensor;
pub use vav_box::{interpolate_output, ControlOutputs, VavBox, VavState};
