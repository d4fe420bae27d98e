//! The epoch clock: a time-driven counter pair that simulates block
//! production by counting one block per elapsed second since a genesis
//! timestamp, and derives the epoch counter as the block counter divided by
//! the epoch duration.
//!
//! The decision core is here and fully verified: computing the counters from
//! a wall-clock reading, and advancing them one tick at a time. The
//! surrounding background task, the shared atomic counters and the broadcast
//! channel are scheduling and fan-out plumbing that a host runtime provides.

use vstd::arithmetic::div_mod::{
    lemma_div_is_ordered, lemma_fundamental_div_mod, lemma_fundamental_div_mod_converse,
    lemma_mod_bound,
};
use vstd::prelude::*;

verus! {

/// The event emitted once per epoch boundary: carries the new epoch number.
#[derive(Debug, Clone, Copy, PartialEq, Eq, Structural)]
pub enum Event {
    EpochChange(u64),
}

/// The number of whole seconds elapsed since genesis, clamped to zero when
/// the clock reading lies before genesis.
pub open spec fn spec_block_at(genesis: i64, now: i64) -> u64 {
    if now <= genesis {
        0u64
    } else {
        (now - genesis) as u64
    }
}

/// Time based clock. Blocks count elapsed seconds since genesis; the epoch
/// is the block count divided by the epoch duration.
#[derive(Debug, Clone, Copy, PartialEq, Eq, Structural)]
pub struct TimeClock {
    pub genesis: i64,
    pub current_block: u64,
    pub epoch_duration: u64,
    pub current_epoch: u64,
}

/// Relies on chrono::Utc::now: the current wall-clock time, as whole seconds
/// since the Unix epoch. The result depends on the machine's clock, so
/// nothing is promised of it.
#[verifier::external_body]
fn now_seconds() -> i64 {
    chrono::Utc::now().timestamp()
}

impl TimeClock {
    /// The epoch duration is positive and the epoch counter always equals
    /// the block counter divided by it.
    pub open spec fn wf(&self) -> bool {
        &&& self.epoch_duration > 0
        &&& self.current_epoch == self.current_block / self.epoch_duration
    }

    /// Create a clock from a genesis timestamp and an explicit clock
    /// reading. The fresh clock already reflects the time elapsed since
    /// genesis: no ticks are replayed to catch up.
    pub fn new_at(genesis: i64, now: i64, epoch_duration: u64) -> (clock: TimeClock)
        requires
            epoch_duration > 0,
        ensures
            clock.genesis == genesis,
            clock.epoch_duration == epoch_duration,
            clock.current_block == spec_block_at(genesis, now),
            clock.current_epoch == spec_block_at(genesis, now) / epoch_duration,
            clock.wf(),
    {
        let mut clock = TimeClock { genesis, current_block: 0, epoch_duration, current_epoch: 0 };
        clock.compute_block(now);
        clock.compute_epoch();
        clock
    }

    /// Create a clock from a genesis timestamp and an epoch duration,
    /// reading the current wall-clock time.
    pub fn new(genesis: i64, epoch_duration: u64) -> (clock: TimeClock)
        requires
            epoch_duration > 0,
        ensures
            clock.genesis == genesis,
            clock.epoch_duration == epoch_duration,
            clock.wf(),
    {
        let now = now_seconds();
        TimeClock::new_at(genesis, now, epoch_duration)
    }

    /// Create a clock whose genesis is the current wall-clock time.
    pub fn new_now(epoch_duration: u64) -> (clock: TimeClock)
        requires
            epoch_duration > 0,
        ensures
            clock.epoch_duration == epoch_duration,
            clock.wf(),
    {
        let genesis = now_seconds();
        TimeClock::new(genesis, epoch_duration)
    }

    /// Recompute the block counter from a clock reading: the seconds elapsed
    /// since genesis, clamped to zero.
    fn compute_block(&mut self, now: i64)
        ensures
            final(self).current_block == spec_block_at(old(self).genesis, now),
            final(self).genesis == old(self).genesis,
            final(self).epoch_duration == old(self).epoch_duration,
            final(self).current_epoch == old(self).current_epoch,
    {
        let blocks: u64 = if now <= self.genesis {
            0
        } else {
            let diff: i128 = (now as i128) - (self.genesis as i128);
            proof {
                assert(0 < diff <= u64::MAX as i128);
            }
            diff as u64
        };
        self.current_block = blocks;
    }

    /// Recompute the epoch counter from the block counter.
    fn compute_epoch(&mut self)
        requires
            old(self).epoch_duration > 0,
        ensures
            final(self).current_epoch == old(self).current_block / old(self).epoch_duration,
            final(self).genesis == old(self).genesis,
            final(self).epoch_duration == old(self).epoch_duration,
            final(self).current_block == old(self).current_block,
    {
        self.current_epoch = self.current_block / self.epoch_duration;
    }

    /// One tick of the clock, run once per physical second by the background
    /// task: advance the block counter by exactly one; where the new block
    /// count is an exact multiple of the epoch duration, recompute the epoch
    /// counter and report the change to broadcast — and only there.
    pub fn tick(&mut self) -> (event: Option<Event>)
        requires
            old(self).wf(),
            old(self).current_block < u64::MAX,
        ensures
            final(self).wf(),
            final(self).genesis == old(self).genesis,
            final(self).epoch_duration == old(self).epoch_duration,
            final(self).current_block == old(self).current_block + 1,
            final(self).current_epoch >= old(self).current_epoch,
            event is Some <==> (old(self).current_block + 1) % (old(self).epoch_duration as int)
                == 0,
            event matches Some(Event::EpochChange(e)) ==> e == final(self).current_epoch,
            event is None ==> final(self).current_epoch == old(self).current_epoch,
    {
        self.current_block = self.current_block + 1;
        if self.current_block % self.epoch_duration == 0 {
            self.compute_epoch();
            proof {
                lemma_div_is_ordered(
                    old(self).current_block as int,
                    old(self).current_block + 1,
                    old(self).epoch_duration as int,
                );
            }
            Some(Event::EpochChange(self.current_epoch))
        } else {
            proof {
                let b = old(self).current_block as int;
                let d = old(self).epoch_duration as int;
                lemma_fundamental_div_mod(b + 1, d);
                lemma_mod_bound(b + 1, d);
                assert((b + 1) % d != 0);
                assert(b == ((b + 1) / d) * d + ((b + 1) % d - 1)) by {
                    assert(b + 1 == d * ((b + 1) / d) + (b + 1) % d);
                    assert(d * ((b + 1) / d) == ((b + 1) / d) * d) by (nonlinear_arith);
                };
                lemma_fundamental_div_mod_converse(b, d, (b + 1) / d, (b + 1) % d - 1);
            }
            None
        }
    }
}

} // verus!
