//! How the reply of each entry point, or its absence, becomes a result.
//!
//! An entry point's reply is passed as an `Option`: `None` when the capability
//! table has no such entry point, `Some(reply)` with what the native call
//! returned otherwise.
use crate::error::MonitorError;
use vstd::prelude::*;

verus! {

/// The status that the discovery entry point reports on success.
pub const STATUS_OK: i32 = 0;

/// Interval reported when the table has no interval entry point.
pub const DEFAULT_INTERVAL_US: u64 = 0;

/// Precision reported when the table has no precision entry point.
pub const DEFAULT_PRECISION_UJ: u64 = 0;

/// The result of a discovery call that reported `status`.
pub open spec fn discovery_spec(status: i32) -> Result<(), MonitorError> {
    if status == STATUS_OK {
        Ok(())
    } else {
        Err(MonitorError::AcquisitionFailed)
    }
}

/// The result of initialization, given the reply of `init` (`None`: no `init` entry point).
/// A missing `init` means that no initialization is needed.
pub open spec fn init_spec(reply: Option<i32>) -> Result<(), MonitorError> {
    match reply {
        None => Ok(()),
        Some(status) => if status == STATUS_OK {
            Ok(())
        } else {
            Err(MonitorError::InitializationFailed)
        },
    }
}

/// The result of a read, given the reply of `read_total_energy`.
pub open spec fn read_spec(reply: Option<u64>) -> Result<u64, MonitorError> {
    match reply {
        None => Err(MonitorError::UnsupportedOperation),
        Some(uj) => Ok(uj),
    }
}

/// A metadata query: the reply when the entry point is present, else `default`.
pub open spec fn metadata_spec(reply: Option<u64>, default: u64) -> u64 {
    match reply {
        None => default,
        Some(v) => v,
    }
}

/// Exclusivity, given the reply of `query_exclusive`: any nonzero reply means exclusive.
pub open spec fn exclusive_spec(reply: Option<i32>) -> bool {
    match reply {
        None => false,
        Some(flag) => flag != 0,
    }
}

/// The status of finalization, given the reply of `finalize`: a missing entry point succeeds.
pub open spec fn finish_spec(reply: Option<i32>) -> i32 {
    match reply {
        None => STATUS_OK,
        Some(status) => status,
    }
}

/// Decides on the status that the discovery entry point reported.
pub fn discovery_outcome(status: i32) -> (r: Result<(), MonitorError>)
    ensures
        r == discovery_spec(status),
{
    if status == STATUS_OK {
        Ok(())
    } else {
        Err(MonitorError::AcquisitionFailed)
    }
}

/// Decides on the reply of `init`.
pub fn init_outcome(reply: Option<i32>) -> (r: Result<(), MonitorError>)
    ensures
        r == init_spec(reply),
{
    match reply {
        None => Ok(()),
        Some(status) => if status == STATUS_OK {
            Ok(())
        } else {
            Err(MonitorError::InitializationFailed)
        },
    }
}

/// The energy read, in microjoules; reads are never made up when the entry point is absent.
pub fn read_outcome(reply: Option<u64>) -> (r: Result<u64, MonitorError>)
    ensures
        r == read_spec(reply),
{
    match reply {
        None => Err(MonitorError::UnsupportedOperation),
        Some(uj) => Ok(uj),
    }
}

/// The refresh interval in microseconds.
pub fn interval_outcome(reply: Option<u64>) -> (r: u64)
    ensures
        r == metadata_spec(reply, DEFAULT_INTERVAL_US),
{
    match reply {
        None => DEFAULT_INTERVAL_US,
        Some(us) => us,
    }
}

/// The precision in microjoules.
pub fn precision_outcome(reply: Option<u64>) -> (r: u64)
    ensures
        r == metadata_spec(reply, DEFAULT_PRECISION_UJ),
{
    match reply {
        None => DEFAULT_PRECISION_UJ,
        Some(uj) => uj,
    }
}

/// Whether the monitor needs exclusive access.
pub fn exclusive_outcome(reply: Option<i32>) -> (r: bool)
    ensures
        r == exclusive_spec(reply),
{
    match reply {
        None => false,
        Some(flag) => flag != 0,
    }
}

/// The status of finalization.
pub fn finish_outcome(reply: Option<i32>) -> (r: i32)
    ensures
        r == finish_spec(reply),
{
    match reply {
        None => STATUS_OK,
        Some(status) => status,
    }
}

} // verus!
