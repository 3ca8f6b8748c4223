use vstd::prelude::*;

verus! {

/// An absolute offset within the source recording, counted in microseconds
/// from the start of the recording.
#[derive(Clone, Copy, Debug, PartialEq, Eq, Structural, PartialOrd, Ord, Hash)]
pub struct AudioTime {
    pub micros: u64,
}

impl AudioTime {
    pub fn from_micros(micros: u64) -> (r: AudioTime)
        ensures
            r.micros == micros,
    {
        AudioTime { micros }
    }

    pub fn as_micros(&self) -> (r: u64)
        ensures
            r == self.micros,
    {
        self.micros
    }
}

} // verus!
