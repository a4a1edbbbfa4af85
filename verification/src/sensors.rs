use vstd::prelude::*;

verus! {

/// A zone temperature sensor; it only remembers its latest reading, in
/// thousandths of a degree.
pub struct TemperatureSensor {
    pub last_reading: i64,
}

impl TemperatureSensor {
    pub fn new(initial_reading: i64) -> (s: TemperatureSensor)
        ensures
            s.last_reading == initial_reading,
    {
        TemperatureSensor { last_reading: initial_reading }
    }
}

} // verus!
