//! What can go wrong, and what the day loop does about it.

use vstd::prelude::*;
use crate::images::BlendError;

verus! {

/// A fault in what the run was configured with. These end the run.
#[derive(Clone, Copy, Debug, PartialEq, Eq, Structural)]
pub enum ConfigurationError {
    /// No image is left in the sequence.
    EmptySequence,
    /// Sunset does not come after sunrise.
    NonPositiveDayLength,
    /// The requested calendar day lies outside what an instant can express.
    DayOutOfRange,
    /// The wallpaper command's template cannot be expanded.
    InvalidCommand,
}

/// Everything that can fail in the day loop.
#[derive(Clone, Copy, Debug, PartialEq, Eq, Structural)]
pub enum Failure {
    /// The configuration is at fault.
    Configuration(ConfigurationError),
    /// The solar clock gave no sunrise and sunset.
    Clock,
    /// Two images could not be blended.
    Blend(BlendError),
    /// An image could not be read or written.
    Codec,
    /// The wallpaper could not be applied.
    Sink,
}

/// What the loop does after a failure.
#[derive(Clone, Copy, Debug, PartialEq, Eq, Structural)]
pub enum Recovery {
    /// Report it, give up on this tick, and go on with the next poll.
    SkipTick,
    /// Report it and end the run.
    Abort,
}

impl Failure {
    /// Faults of the configuration and of the solar clock end the run: without
    /// a sequence or a daylight window there is nothing to show. All others
    /// spoil one tick only.
    pub open spec fn is_fatal(self) -> bool {
        self is Configuration || self is Clock
    }

    /// What the loop does after this failure.
    pub fn recovery(&self) -> (next: Recovery)
        ensures
            next == (if self.is_fatal() {
                Recovery::Abort
            } else {
                Recovery::SkipTick
            }),
    {
        match self {
            Failure::Configuration(_) => Recovery::Abort,
            Failure::Clock => Recovery::Abort,
            Failure::Blend(_) => Recovery::SkipTick,
            Failure::Codec => Recovery::SkipTick,
            Failure::Sink => Recovery::SkipTick,
        }
    }
}

} // verus!
