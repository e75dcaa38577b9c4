//! The sequential generator: one (worker, process, epoch) owner that mints
//! identifiers from the wall clock and a wrapping increment counter.

use vstd::prelude::*;

use crate::snowflake::increment_of;
use crate::snowflake::process_of;
use crate::snowflake::worker_of;
use crate::snowflake::Snowflake;
use crate::AIRDASH_EPOCH;

verus! {

/// Mints a stream of identifiers for one (worker, process) pair. The
/// increment counter starts at 0 and wraps from 4095 back to 0, so within
/// one millisecond at most 4096 distinct identifiers exist.
#[derive(Debug)]
pub struct SnowflakeGenerator {
    worker: u8,
    process: u8,
    increment: u16,
    epoch: u64,
}

impl SnowflakeGenerator {
    /// The worker id this generator stamps into every identifier.
    pub closed spec fn spec_worker(&self) -> u8 {
        self.worker
    }

    /// The process id this generator stamps into every identifier.
    pub closed spec fn spec_process(&self) -> u8 {
        self.process
    }

    /// The increment the next identifier will carry.
    pub closed spec fn spec_increment(&self) -> u16 {
        self.increment
    }

    /// The epoch the timestamp offset is measured from.
    pub closed spec fn spec_epoch(&self) -> u64 {
        self.epoch
    }

    /// The counter stays within the 12-bit increment field.
    pub open spec fn wf(&self) -> bool {
        self.spec_increment() <= 4095
    }

    /// A fresh generator: nothing is validated eagerly, range checks are
    /// deferred to packing; the increment starts at 0.
    pub fn new(worker: u8, process: u8, epoch: u64) -> (g: Self)
        ensures
            g.spec_worker() == worker,
            g.spec_process() == process,
            g.spec_epoch() == epoch,
            g.spec_increment() == 0,
            g.wf(),
    {
        Self { epoch, worker, process, increment: 0 }
    }

    /// Mints one identifier from the current wall clock and the stored
    /// state, then advances the increment, wrapping from 4095 back to 0.
    /// Never fails; the identifier carries the pre-advance increment. The
    /// timestamp field depends on the clock, so nothing is said of it.
    pub fn generate(&mut self) -> (s: Snowflake)
        ensures
            worker_of(s@) == old(self).spec_worker() % 32,
            process_of(s@) == old(self).spec_process() % 32,
            increment_of(s@) == old(self).spec_increment() % 4096,
            final(self).spec_worker() == old(self).spec_worker(),
            final(self).spec_process() == old(self).spec_process(),
            final(self).spec_epoch() == old(self).spec_epoch(),
            final(self).spec_increment() == (old(self).spec_increment() + 1) % 4096,
            final(self).wf(),
    {
        let snowflake = Snowflake::new(self.worker, self.process, self.increment, self.epoch);

        self.increment = self.increment.wrapping_add(1) % 4096;

        snowflake
    }
}

impl Default for SnowflakeGenerator {
    /// A generator for worker 0 and process 0 against the default epoch.
    fn default() -> (g: Self)
        ensures
            g.spec_worker() == 0,
            g.spec_process() == 0,
            g.spec_epoch() == AIRDASH_EPOCH,
            g.spec_increment() == 0,
            g.wf(),
    {
        Self::new(0, 0, AIRDASH_EPOCH)
    }
}

} // verus!
