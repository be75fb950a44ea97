//! Errors that end a task before it reaches its streaming loop.

use vstd::prelude::*;

verus! {

/// A setup error. It is fatal to the task that meets it and to no other.
#[derive(Clone, Copy, Debug, PartialEq, Eq, Structural)]
pub enum SetupError {
    /// The interrupt input pin could not be claimed.
    InterruptPin,
    /// The reset output pin could not be claimed.
    ResetPin,
    /// The controller's reset pulse sequence failed.
    Reset,
    /// The configuration write with this position in the plan failed.
    Configuration(usize),
    /// A control pin of the display could not be claimed or driven.
    OutputPin,
    /// The display could not be reached on its bus.
    DisplayBus,
}

} // verus!
