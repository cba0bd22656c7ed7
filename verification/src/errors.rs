//! Error kinds returned by the reconfiguration surface.

use vstd::prelude::*;

verus! {

/// Why a reconfiguration call was rejected. Every rejection leaves the
/// voice in its prior, fully valid state.
#[derive(Clone, Copy, PartialEq, Eq, Structural, Debug)]
pub enum SynthError {
    /// An index lay outside the oscillator bank's current bounds.
    IndexError,
    /// The oscillator bank already holds its maximum number of sources.
    CapacityError,
    /// A parameter value lay outside its permitted range, such as a
    /// frequency that is zero or above the Nyquist limit.
    ValidationError,
}

impl SynthError {
    /// A short lower-case name for the error kind.
    pub fn describe(&self) -> (r: String)
        ensures
            *self is IndexError ==> r@ == "index out of bounds"@,
            *self is CapacityError ==> r@ == "capacity exceeded"@,
            *self is ValidationError ==> r@ == "invalid parameter"@,
    {
        match self {
            SynthError::IndexError => "index out of bounds".to_owned(),
            SynthError::CapacityError => "capacity exceeded".to_owned(),
            SynthError::ValidationError => "invalid parameter".to_owned(),
        }
    }
}

} // verus!
