use vstd::prelude::*;

verus! {

/// The error kinds reported by the control engine.
///
/// No entry point of the engine panics: malformed readings and malformed
/// configuration are reported through this type instead.
#[derive(Clone, Copy, Debug, PartialEq, Eq, Structural)]
pub enum ControlError {
    /// An occupancy update named a zone id that the registry does not hold.
    NotFound,
    /// An input was rejected: a negative occupant count, a non-positive
    /// area, an effectiveness outside `(0, 1]`, or a quantity outside the
    /// representable fixed-point range.
    InvalidInput,
    /// A ventilation flow setpoint was requested for an outside-air
    /// fraction of exactly zero, which leaves the setpoint undefined.
    ZeroOutsideAirFraction,
}

} // verus!
