//! In-memory implementations of the three capabilities, for host-side tests
//! and examples: a bus that records every burst, a bus that always faults, a
//! pin that remembers its level, and a delay source that logs its waits
//! instead of waiting.

use vstd::prelude::*;

use crate::{DigitalOut, Level, SerialBus, Timer_};

verus! {

/// The error a [`FaultBus`] reports on every transmission.
#[derive(Clone, Copy, PartialEq, Eq, Structural, Debug)]
pub struct BusFault;

/// A serial bus that transmits into memory: every burst is recorded, and
/// transmission never fails.
pub struct VecBus {
    log: Vec<Vec<u8>>,
}

impl VecBus {
    /// An empty bus: nothing transmitted yet.
    pub fn new() -> (r: Self)
        ensures
            r.history() === Seq::empty(),
    {
        let log: Vec<Vec<u8>> = Vec::new();
        proof {
            assert(log@.map_values(|w: Vec<u8>| w@) =~= Seq::<Seq<u8>>::empty());
        }
        VecBus { log }
    }

    /// The recorded bursts, oldest first.
    pub fn writes(&self) -> (r: &Vec<Vec<u8>>)
        ensures
            r@.map_values(|w: Vec<u8>| w@) == self.history(),
    {
        &self.log
    }
}

impl SerialBus for VecBus {
    type BusError = BusFault;

    closed spec fn history(&self) -> Seq<Seq<u8>> {
        self.log@.map_values(|w: Vec<u8>| w@)
    }

    fn write(&mut self, data: &[u8]) -> (r: Result<(), BusFault>)
        ensures
            r is Ok ==> final(self).history() == old(self).history().push(data@),
    {
        let burst = vstd::slice::slice_to_vec(data);
        self.log.push(burst);
        proof {
            assert(self.log@.map_values(|w: Vec<u8>| w@) =~~= old(self).log@.map_values(
                |w: Vec<u8>| w@,
            ).push(data@));
        }
        Ok(())
    }
}

/// A serial bus whose every transmission fails, for exercising the
/// transport-error paths: nothing is ever recorded as transmitted.
pub struct FaultBus;

impl FaultBus {
    /// A bus that will fault on every write.
    pub fn new() -> (r: Self)
        ensures
            r.history() === Seq::empty(),
    {
        FaultBus
    }
}

impl SerialBus for FaultBus {
    type BusError = BusFault;

    closed spec fn history(&self) -> Seq<Seq<u8>> {
        Seq::empty()
    }

    fn write(&mut self, _data: &[u8]) -> (r: Result<(), BusFault>)
        ensures
            r is Ok ==> final(self).history() == old(self).history().push(_data@),
    {
        Err(BusFault)
    }
}

/// A digital output line that remembers the level it was last driven to.
pub struct MemPin {
    state: Level,
}

impl MemPin {
    /// A line at the given initial level.
    pub fn new(initial: Level) -> (r: Self)
        ensures
            r.level() == initial,
    {
        MemPin { state: initial }
    }

    /// Whether the line is currently driven high.
    pub fn is_high(&self) -> (r: bool)
        ensures
            r == (self.level() == Level::High),
    {
        self.state == Level::High
    }
}

impl DigitalOut for MemPin {
    closed spec fn level(&self) -> Level {
        self.state
    }

    fn set_high(&mut self)
        ensures
            final(self).level() == Level::High,
    {
        self.state = Level::High;
    }

    fn set_low(&mut self)
        ensures
            final(self).level() == Level::Low,
    {
        self.state = Level::Low;
    }
}

/// A delay source that records each requested wait instead of waiting —
/// time itself is irrelevant to the protocol logic under test.
pub struct LogTimer {
    log: Vec<u64>,
}

impl LogTimer {
    /// A delay source with no waits performed yet.
    pub fn new() -> (r: Self)
        ensures
            r.history() === Seq::empty(),
    {
        let log: Vec<u64> = Vec::new();
        LogTimer { log }
    }

    /// The recorded waits, in milliseconds, oldest first.
    pub fn waits(&self) -> (r: &Vec<u64>)
        ensures
            r@ == self.history(),
    {
        &self.log
    }
}

impl Timer_ for LogTimer {
    closed spec fn history(&self) -> Seq<u64> {
        self.log@
    }

    fn delay_ms(&mut self, ms: u64)
        ensures
            final(self).history() == old(self).history().push(ms),
    {
        self.log.push(ms);
    }
}

} // verus!
