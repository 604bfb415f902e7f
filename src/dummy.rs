//! A monitor bound to a table of no-op entry points, with no native state.
//! It exercises the wrapper's logic without any real backend.
use crate::error::MonitorError;
use crate::lifecycle::{Lifecycle, Phase};
use crate::replies::{
    exclusive_outcome, finish_outcome, interval_outcome, precision_outcome, read_outcome,
    STATUS_OK,
};
use crate::source::{source_label, SourceReply, SOURCE_BUFFER_LEN, UNKNOWN_SOURCE};
use vstd::prelude::*;

verus! {

/// The no-op capability table: every entry point is present and does nothing.
#[derive(Clone, Copy, Debug, PartialEq, Eq, Structural)]
pub struct DummyTable;

impl DummyTable {
    /// Discovery always succeeds.
    pub fn discover() -> (r: (DummyTable, i32))
        ensures
            r.1 == STATUS_OK,
    {
        (DummyTable, STATUS_OK)
    }

    /// Initialization succeeds.
    pub fn init(&mut self) -> (r: i32)
        ensures
            r == STATUS_OK,
    {
        STATUS_OK
    }

    /// Reads no energy.
    pub fn read_total_energy(&self) -> (r: u64)
        ensures
            r == 0,
    {
        0
    }

    /// Finalization succeeds.
    pub fn finalize(&mut self) -> (r: i32)
        ensures
            r == STATUS_OK,
    {
        STATUS_OK
    }

    /// Leaves the buffer as it is and reports failure (a null result).
    pub fn describe_source(&self, buf: &mut Vec<u8>) -> (r: bool)
        ensures
            !r,
            final(buf)@ == old(buf)@,
    {
        false
    }

    /// The refresh interval: none.
    pub fn query_interval(&self) -> (r: u64)
        ensures
            r == 0,
    {
        0
    }

    /// The precision: none.
    pub fn query_precision(&self) -> (r: u64)
        ensures
            r == 0,
    {
        0
    }

    /// Exclusive access is not needed.
    pub fn query_exclusive(&self) -> (r: i32)
        ensures
            r == 0,
    {
        0
    }
}

/// A monitor wrapper bound to the no-op table.
#[derive(Debug)]
pub struct DummyMonitor {
    table: DummyTable,
    life: Lifecycle,
}

impl DummyMonitor {
    /// The phase of the wrapped handle.
    pub closed spec fn phase(&self) -> Phase {
        self.life@
    }

    /// Discovers and initializes the no-op table; this always succeeds.
    pub fn new() -> (r: Result<DummyMonitor, MonitorError>)
        ensures
            r matches Ok(m) && m.phase() == Phase::Active,
    {
        let (mut table, status) = DummyTable::discover();
        let init_reply = Some(table.init());
        match Lifecycle::construct(status, init_reply) {
            Ok(life) => Ok(DummyMonitor { table, life }),
            Err(e) => Err(e),
        }
    }

    /// The energy read: always zero.
    pub fn read_uj(&self) -> (r: Result<u64, MonitorError>)
        requires
            self.phase() == Phase::Active,
        ensures
            r == Ok::<u64, MonitorError>(0),
    {
        read_outcome(Some(self.table.read_total_energy()))
    }

    /// The source: the table cannot describe it, so it is `"UNKNOWN"`.
    pub fn source(&self) -> (r: String)
        requires
            self.phase() == Phase::Active,
        ensures
            r@ == UNKNOWN_SOURCE@,
    {
        let mut buf: Vec<u8> = Vec::new();
        let mut i: usize = 0;
        while i < SOURCE_BUFFER_LEN
            invariant
                i <= SOURCE_BUFFER_LEN,
                buf@.len() == i,
            decreases SOURCE_BUFFER_LEN - i,
        {
            buf.push(0u8);
            i = i + 1;
        }
        let reply = if self.table.describe_source(&mut buf) {
            SourceReply::Filled
        } else {
            SourceReply::Null
        };
        source_label(reply, buf.as_slice())
    }

    /// The refresh interval: zero.
    pub fn interval_us(&self) -> (r: u64)
        requires
            self.phase() == Phase::Active,
        ensures
            r == 0,
    {
        interval_outcome(Some(self.table.query_interval()))
    }

    /// The precision: zero.
    pub fn precision_uj(&self) -> (r: u64)
        requires
            self.phase() == Phase::Active,
        ensures
            r == 0,
    {
        precision_outcome(Some(self.table.query_precision()))
    }

    /// Exclusive access is not needed.
    pub fn is_exclusive(&self) -> (r: bool)
        requires
            self.phase() == Phase::Active,
        ensures
            !r,
    {
        exclusive_outcome(Some(self.table.query_exclusive()))
    }

    /// Finalizes the monitor if it is active; finalization succeeds, and a
    /// second call does not finalize again.
    pub fn finish(&mut self) -> (r: i32)
        ensures
            r == STATUS_OK,
            final(self).phase() == if old(self).phase() == Phase::Unconstructed {
                Phase::Unconstructed
            } else {
                Phase::Finalized
            },
    {
        if self.life.release() {
            let status = self.table.finalize();
            finish_outcome(Some(status))
        } else {
            STATUS_OK
        }
    }
}

impl Default for DummyMonitor {
    /// A monitor bound to the no-op table, ready for use.
    fn default() -> (r: DummyMonitor)
        ensures
            r.phase() == Phase::Active,
    {
        DummyMonitor::new().unwrap()
    }
}

} // verus!
