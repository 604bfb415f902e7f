use vstd::prelude::*;

verus! {

/// The ways in which working with a native energy monitor can fail.
#[derive(Clone, Copy, Debug, PartialEq, Eq, Structural)]
pub enum MonitorError {
    /// The discovery entry point reported a nonzero status.
    AcquisitionFailed,
    /// The `init` entry point is present and returned a nonzero status.
    InitializationFailed,
    /// An operation with no safe default was asked for, but its entry point is absent.
    UnsupportedOperation,
    /// The process-wide instance could not be constructed, and never will be.
    InstanceUnavailable,
}

impl MonitorError {
    /// A short human-readable description of the error.
    pub fn message(&self) -> (r: &'static str)
        ensures
            *self == MonitorError::AcquisitionFailed ==> r@ == "Failed to create energymon"@,
            *self == MonitorError::InitializationFailed ==> r@ == "Failed to initialize energymon"@,
            *self == MonitorError::UnsupportedOperation ==> r@ == "No read function for energymon"@,
            *self == MonitorError::InstanceUnavailable ==> r@ == "No energymon instance available"@,
    {
        match self {
            MonitorError::AcquisitionFailed => "Failed to create energymon",
            MonitorError::InitializationFailed => "Failed to initialize energymon",
            MonitorError::UnsupportedOperation => "No read function for energymon",
            MonitorError::InstanceUnavailable => "No energymon instance available",
        }
    }
}

} // verus!
