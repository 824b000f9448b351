//! Audio sinks: consumers of audio frames.
use crate::chan::Channel;
use crate::frame::Frame;
use vstd::prelude::*;

verus! {

/// Audio sink - a type that consumes audio frames.
pub trait Sink<Chan: Channel, const CH: usize> {
    /// Get the sample rate of the sink in hertz (never zero).
    fn sample_rate(&self) -> (r: u32)
        ensures
            r > 0,
    ;

    /// Get the length of the sink in frames.
    ///
    /// Sinks must always have finite length.
    fn len(&self) -> (r: usize);

    /// Sink audio frames, in order; returns how many frames the sink took.
    ///
    /// **Warning**: if used incorrectly, this method may introduce audio
    /// aliasing.  To avoid that, make sure the sample rate of the frames
    /// matches exactly the sample rate of the sink.
    fn sink_with(&mut self, frames: &[Frame<Chan, CH>]) -> (n: usize)
        ensures
            n <= frames@.len(),
    ;

    /// Check if the sink is empty (length of zero).
    fn is_empty(&self) -> (r: bool)
        ensures
            exists|n: usize| call_ensures(Self::len, (self,), n) && r == (n == 0),
    {
        self.len() == 0
    }
}

} // verus!
