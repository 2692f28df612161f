use vstd::prelude::*;

verus! {

/// The request to bring the current roll to a stop; set at most once per
/// roll, cleared when the next roll starts.
#[derive(Clone, Copy, Debug, PartialEq, Eq, Structural)]
pub struct StopSignal {
    pub requested: bool,
}

impl StopSignal {
    pub fn new() -> (r: StopSignal)
        ensures
            !r.requested,
    {
        StopSignal { requested: false }
    }

    /// Asks the roll to stop; asking again changes nothing.
    pub fn request_stop(&mut self)
        ensures
            final(self).requested,
    {
        self.requested = true;
    }

    pub fn is_requested(&self) -> (r: bool)
        ensures
            r == self.requested,
    {
        self.requested
    }

    /// Clears the request for a new roll.
    pub fn reset(&mut self)
        ensures
            !final(self).requested,
    {
        self.requested = false;
    }
}

} // verus!
