//! Simulation state shared between the executor and the firmware runtime:
//! the MCU together with its compute and cycle budgets and fuel meter.

use vstd::prelude::*;

use crate::error::{McuError, RuntimeError};
use crate::mcu::budget::{as_unsigned, Budget};

verus! {

/// Mutable simulation state shared between the executor and runtime.
#[derive(Debug)]
pub struct State<M> {
    /// The MCU instance.
    pub mcu: M,
    /// Compute (fuel) budget for the current tick.
    pub compute: Budget,
    /// Cycle budget for the current tick.
    pub cycles: Budget,
    /// WASM fuel level at the last metering checkpoint.
    pub last_fuel: u64,
}

/// The fuel burned between two metering checkpoints: the fall of the fuel
/// level, or zero if it rose.
pub open spec fn fuel_burned(last_fuel: u64, now_fuel: u64) -> u64 {
    if last_fuel >= now_fuel {
        (last_fuel - now_fuel) as u64
    } else {
        0
    }
}

/// How many cycles one pass of the wait-for-interrupt loop advances the MCU by:
/// up to the next bus event if it falls within the remaining budget, else the
/// whole (non-negative) remainder.
pub open spec fn idle_cycles(b: Budget, next_event: Option<u64>) -> u64 {
    let rem = b.spec_remaining();
    if next_event is Some && next_event->0 <= as_unsigned(rem) {
        next_event->0
    } else if rem > 0 {
        rem as u64
    } else {
        0
    }
}

impl<M> State<M> {
    /// Creates state for `mcu` with empty budgets and a full fuel meter.
    pub fn new(mcu: M) -> (r: Self)
        ensures
            r.mcu == mcu,
            r.compute.spec_allocated() == 0,
            r.compute.spec_consumed() == 0,
            r.cycles.spec_allocated() == 0,
            r.cycles.spec_consumed() == 0,
            r.last_fuel == u64::MAX,
    {
        State { mcu, compute: Budget::new(0), cycles: Budget::new(0), last_fuel: u64::MAX }
    }

    /// The fuel burned since the last metering checkpoint, given the current
    /// fuel level (zero if the level rose).
    pub fn fuel_since(&self, now_fuel: u64) -> (r: u64)
        ensures
            r == fuel_burned(self.last_fuel, now_fuel),
    {
        self.last_fuel.saturating_sub(now_fuel)
    }

    /// Records a metering checkpoint at fuel level `now_fuel`: the fuel burned
    /// since the previous checkpoint is charged to the compute budget and
    /// `cycles` (that fuel converted to clock cycles) to the cycle budget.
    ///
    /// While the fuel level only falls, `compute consumed + last fuel level`
    /// stays constant: every unit of fuel burned is charged exactly once.
    pub fn meter(&mut self, now_fuel: u64, cycles: u64)
        requires
            old(self).compute.spec_consumed() + fuel_burned(old(self).last_fuel, now_fuel)
                <= u64::MAX,
            old(self).cycles.spec_consumed() + cycles <= u64::MAX,
        ensures
            final(self).mcu == old(self).mcu,
            final(self).last_fuel == now_fuel,
            final(self).compute.spec_allocated() == old(self).compute.spec_allocated(),
            final(self).compute.spec_consumed() == old(self).compute.spec_consumed() + fuel_burned(
                old(self).last_fuel,
                now_fuel,
            ),
            final(self).cycles.spec_allocated() == old(self).cycles.spec_allocated(),
            final(self).cycles.spec_consumed() == old(self).cycles.spec_consumed() + cycles,
            now_fuel <= old(self).last_fuel ==> final(self).compute.spec_consumed()
                + final(self).last_fuel == old(self).compute.spec_consumed() + old(self).last_fuel,
    {
        let compute = self.fuel_since(now_fuel);
        self.last_fuel = now_fuel;
        self.compute.consume(compute);
        self.cycles.consume(cycles);
    }

    /// Settles an MMIO access that cost `cycles`, given how running it on the
    /// MCU went: a successful access is charged to the cycle budget and its
    /// value handed on; a failed one is charged nothing and its fault is
    /// reported as a runtime error.
    pub fn settle<T>(&mut self, outcome: Result<T, McuError>, cycles: u64) -> (r: Result<
        T,
        RuntimeError,
    >)
        requires
            old(self).cycles.spec_consumed() + cycles <= u64::MAX,
        ensures
            final(self).mcu == old(self).mcu,
            final(self).last_fuel == old(self).last_fuel,
            final(self).compute == old(self).compute,
            final(self).cycles.spec_allocated() == old(self).cycles.spec_allocated(),
            match outcome {
                Ok(v) => r == Ok::<T, RuntimeError>(v) && final(self).cycles.spec_consumed()
                    == old(self).cycles.spec_consumed() + cycles,
                Err(e) => r == Err::<T, RuntimeError>(RuntimeError::Mcu(e))
                    && final(self).cycles.spec_consumed() == old(self).cycles.spec_consumed(),
            },
    {
        match outcome {
            Ok(v) => {
                self.cycles.consume(cycles);
                Ok(v)
            },
            Err(e) => Err(RuntimeError::Mcu(e)),
        }
    }

    /// Starts a new tick: fresh budgets of `cycles` clock cycles and `compute`
    /// units of fuel, none of them consumed.
    pub fn refill(&mut self, cycles: u64, compute: u64)
        ensures
            final(self).mcu == old(self).mcu,
            final(self).last_fuel == old(self).last_fuel,
            final(self).compute.spec_allocated() == compute,
            final(self).compute.spec_consumed() == 0,
            final(self).cycles.spec_allocated() == cycles,
            final(self).cycles.spec_consumed() == 0,
    {
        self.compute = Budget::new(compute);
        self.cycles = Budget::new(cycles);
    }

    /// One pass of the wait-for-interrupt loop: decides how many cycles the
    /// sleeping MCU advances by (up to `next_event`, the bus's next scheduled
    /// event, or to the end of the cycle budget) and charges them.
    pub fn idle_step(&mut self, next_event: Option<u64>) -> (cycles: u64)
        requires
            !old(self).cycles.is_exhausted(),
            old(self).cycles.remaining_fits(),
        ensures
            cycles == idle_cycles(old(self).cycles, next_event),
            final(self).mcu == old(self).mcu,
            final(self).last_fuel == old(self).last_fuel,
            final(self).compute == old(self).compute,
            final(self).cycles.spec_allocated() == old(self).cycles.spec_allocated(),
            final(self).cycles.spec_consumed() == old(self).cycles.spec_consumed() + cycles,
            next_event is Some && next_event->0 <= old(self).cycles.spec_allocated()
                - old(self).cycles.spec_consumed() ==> cycles == next_event->0,
    {
        proof {
            if next_event is Some && next_event->0 <= self.cycles.spec_allocated()
                - self.cycles.spec_consumed() {
                lemma_idle_stops_at_due_event(self.cycles, next_event->0);
            }
        }
        let rem = self.cycles.remaining();
        let rem_bits: u64 = if rem >= 0 {
            rem as u64
        } else {
            ((rem + i64::MAX) + 1) as u64 + 0x8000_0000_0000_0000u64
        };
        let cycles = match next_event {
            Some(event) if event <= rem_bits => event,
            _ => if rem > 0 {
                rem as u64
            } else {
                0
            },
        };
        self.cycles.consume(cycles);
        cycles
    }
}

/// An idle pass never consumes past the allocated cycle budget.
pub proof fn lemma_idle_never_overshoots(b: Budget, next_event: Option<u64>)
    requires
        !b.is_exhausted(),
        b.remaining_fits(),
    ensures
        b.spec_consumed() + idle_cycles(b, next_event) <= b.spec_allocated(),
{
}

/// An idle pass stops exactly at a bus event that falls due within the
/// remaining cycle budget: the MCU wakes at the event, not past it.
pub proof fn lemma_idle_stops_at_due_event(b: Budget, event: u64)
    requires
        !b.is_exhausted(),
        b.remaining_fits(),
        event <= b.spec_allocated() - b.spec_consumed(),
    ensures
        idle_cycles(b, Some(event)) == event,
{
}

/// With both counters at most `i64::MAX`, an idle pass with no bus event due
/// within the budget uses the budget up.
pub proof fn lemma_idle_without_event_exhausts(b: Budget, next_event: Option<u64>)
    requires
        !b.is_exhausted(),
        b.spec_allocated() <= i64::MAX,
        next_event is None || next_event->0 > b.spec_allocated() - b.spec_consumed(),
    ensures
        b.spec_consumed() + idle_cycles(b, next_event) == b.spec_allocated(),
{
}

} // verus!
