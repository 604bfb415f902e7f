//! A safe, verified core for wrapping a native energy monitor.
//!
//! The native monitor is a handle bound to a table of optional entry points.
//! This library holds the decisions that surround those native calls: how
//! each reply (or the absence of an entry point) becomes a result, when the
//! handle may be finalized, and how a process-wide instance is obtained once.
//! The native calls themselves are made by the caller, who hands the replies
//! to the functions here.

pub mod dummy;
pub mod error;
pub mod lifecycle;
pub mod once;
pub mod replies;
pub mod source;

pub use error::MonitorError;
pub use replies::{
    discovery_outcome, exclusive_outcome, finish_outcome, init_outcome, interval_outcome,
    precision_outcome, read_outcome,
};
pub use source::{label_of, source_label, SourceReply, SOURCE_BUFFER_LEN, UNKNOWN_SOURCE};
pub use lifecycle::{Lifecycle, Phase};
pub use once::{OnceSlot, SlotState};
pub use dummy::{DummyMonitor, DummyTable};
