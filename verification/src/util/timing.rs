use vstd::prelude::*;

verus! {

/// The largest backlog that is kept, in ticks. Time beyond it is dropped, so
/// that a long stall is never caught up tick by tick.
pub const MAX_BACKLOG_TICKS: u64 = 5;

/// Turns elapsed wall-clock time into whole simulation ticks.
///
/// Time is counted in nanoseconds. Elapsed time is added to a backlog; each
/// tick that is run takes one tick duration out of it. What is left is the
/// part of the next tick that has already elapsed.
pub struct TickTiming {
    tick_duration: u64,
    partial_ticks: u128,
}

impl TickTiming {
    #[verifier::type_invariant]
    spec fn wf(self) -> bool {
        self.tick_duration > 0 && self.partial_ticks <= MAX_BACKLOG_TICKS * self.tick_duration
    }

    /// The duration of one tick, in nanoseconds.
    pub closed spec fn tick(&self) -> nat {
        self.tick_duration as nat
    }

    /// The time that has elapsed and has not been simulated yet, in
    /// nanoseconds.
    pub closed spec fn backlog(&self) -> nat {
        self.partial_ticks as nat
    }

    /// The number of ticks that can be run from the backlog as it is.
    pub open spec fn ticks_due(&self) -> nat {
        self.backlog() / self.tick()
    }

    /// An accumulator with an empty backlog for ticks of `tick_duration`
    /// nanoseconds.
    pub fn new(tick_duration: u64) -> (t: Self)
        requires
            tick_duration > 0,
        ensures
            t.tick() == tick_duration,
            t.backlog() == 0,
    {
        TickTiming { tick_duration, partial_ticks: 0 }
    }

    /// Adds `delta` nanoseconds of elapsed time to the backlog, which is then
    /// cut down to [`MAX_BACKLOG_TICKS`] ticks if it has grown beyond that.
    pub fn add_delta(&mut self, delta: u128)
        ensures
            final(self).tick() == old(self).tick(),
            final(self).backlog() == if old(self).backlog() + delta <= MAX_BACKLOG_TICKS * old(
                self,
            ).tick() {
                old(self).backlog() + delta
            } else {
                MAX_BACKLOG_TICKS * old(self).tick()
            },
            final(self).ticks_due() <= MAX_BACKLOG_TICKS,
    {
        proof {
            use_type_invariant(&*self);
        }
        let cap: u128 = MAX_BACKLOG_TICKS as u128 * self.tick_duration as u128;
        if delta >= cap - self.partial_ticks {
            self.partial_ticks = cap;
        } else {
            self.partial_ticks = self.partial_ticks + delta;
        }
        proof {
            lemma_ticks_due_bound(self.partial_ticks as int, self.tick_duration as int);
        }
    }

    /// If at least one whole tick is in the backlog, takes exactly one tick
    /// out of it and returns `true`; otherwise leaves it as it is and
    /// returns `false`.
    pub fn try_consume_tick(&mut self) -> (consumed: bool)
        ensures
            final(self).tick() == old(self).tick(),
            consumed == (old(self).backlog() >= old(self).tick()),
            consumed ==> final(self).backlog() == old(self).backlog() - old(self).tick(),
            !consumed ==> final(self).backlog() == old(self).backlog(),
            consumed == (old(self).ticks_due() >= 1),
            consumed ==> final(self).ticks_due() == old(self).ticks_due() - 1,
            final(self).backlog() % final(self).tick() == old(self).backlog() % old(self).tick(),
    {
        proof {
            use_type_invariant(&*self);
            lemma_one_tick_less(self.partial_ticks as int, self.tick_duration as int);
        }
        if self.partial_ticks >= self.tick_duration as u128 {
            self.partial_ticks = self.partial_ticks - self.tick_duration as u128;
            return true;
        }
        false
    }

    /// Takes every whole tick out of the backlog, one at a time, and returns
    /// how many there were. What is left is less than one tick.
    pub fn consume_ticks(&mut self) -> (ticks: u64)
        ensures
            final(self).tick() == old(self).tick(),
            ticks == old(self).ticks_due(),
            ticks <= MAX_BACKLOG_TICKS,
            final(self).backlog() == old(self).backlog() % old(self).tick(),
            final(self).backlog() < final(self).tick(),
    {
        proof {
            use_type_invariant(&*self);
            lemma_ticks_due_bound(self.partial_ticks as int, self.tick_duration as int);
        }
        let mut ticks: u64 = 0;
        loop
            invariant
                self.tick() == old(self).tick(),
                self.tick() > 0,
                ticks + self.ticks_due() == old(self).ticks_due(),
                old(self).ticks_due() <= MAX_BACKLOG_TICKS,
                self.backlog() % self.tick() == old(self).backlog() % old(self).tick(),
            ensures
                self.tick() == old(self).tick(),
                self.tick() > 0,
                ticks == old(self).ticks_due(),
                self.ticks_due() == 0,
                self.backlog() % self.tick() == old(self).backlog() % old(self).tick(),
            decreases self.ticks_due(),
        {
            if !self.try_consume_tick() {
                break ;
            }
            ticks += 1;
        }
        proof {
            let backlog = self.backlog() as int;
            let tick = self.tick() as int;
            vstd::arithmetic::div_mod::lemma_fundamental_div_mod(backlog, tick);
            assert(tick * 0 == 0);
        }
        ticks
    }

    /// The backlog as a fraction of a tick: the backlog in nanoseconds, and
    /// the nanoseconds of one tick to divide it by.
    pub fn get_partial_ticks(&self) -> (fraction: (u128, u64))
        ensures
            fraction.0 == self.backlog(),
            fraction.1 == self.tick(),
            fraction.1 > 0,
            fraction.0 <= MAX_BACKLOG_TICKS * fraction.1,
    {
        proof {
            use_type_invariant(self);
        }
        (self.partial_ticks, self.tick_duration)
    }
}

/// One sixtieth of a second, to the nearest nanosecond.
pub const SIXTIETH_OF_A_SECOND: u64 = 16_666_667;

/// Half a second in nanoseconds.
pub const HALF_A_SECOND: u64 = 500_000_000;

/// What the frame loop has to do next.
#[derive(Clone, Copy, Debug, PartialEq, Eq, Structural)]
pub enum TimingStep {
    /// The frame is not due yet: sleep for this many nanoseconds, then ask
    /// again.
    Sleep(u64),
    /// The frame is due: run this many simulation ticks, then draw.
    Frame { ticks: u64 },
}

/// Paces frames to a target duration and hands out simulation ticks for the
/// time that has passed. Time is counted in nanoseconds.
pub struct SpicyTiming {
    target_duration: u64,
    tick_duration: u64,
    max_elapsed: u64,
    total_elapsed: u64,
}

impl SpicyTiming {
    #[verifier::type_invariant]
    spec fn wf(self) -> bool {
        self.tick_duration > 0
    }

    /// The shortest time between two frames.
    pub closed spec fn target(&self) -> int {
        self.target_duration as int
    }

    /// The duration of one simulation tick.
    pub closed spec fn tick(&self) -> int {
        self.tick_duration as int
    }

    /// The most time that one frame accounts for; what has elapsed beyond it
    /// is dropped.
    pub closed spec fn max_elapsed(&self) -> int {
        self.max_elapsed as int
    }

    /// The time that has elapsed and has not been handed out as ticks yet.
    pub closed spec fn total_elapsed(&self) -> int {
        self.total_elapsed as int
    }

    /// The time a frame accounts for when `sum` nanoseconds have built up.
    pub open spec fn clamped(&self, sum: int) -> int {
        if sum > self.max_elapsed() {
            self.max_elapsed()
        } else {
            sum
        }
    }

    /// Frames and ticks of a sixtieth of a second each, at most half a second
    /// accounted for per frame, and nothing elapsed yet.
    pub fn new() -> (t: Self)
        ensures
            t.target() == SIXTIETH_OF_A_SECOND,
            t.tick() == SIXTIETH_OF_A_SECOND,
            t.max_elapsed() == HALF_A_SECOND,
            t.total_elapsed() == 0,
    {
        Self {
            target_duration: SIXTIETH_OF_A_SECOND,
            tick_duration: SIXTIETH_OF_A_SECOND,
            max_elapsed: HALF_A_SECOND,
            total_elapsed: 0,
        }
    }

    /// Accounts for `elapsed` nanoseconds since the last call and says what
    /// to do next.
    ///
    /// While no more than the target duration has built up, the answer is to
    /// sleep for the rest of it. Once more has built up, it is cut down to
    /// the maximum, handed out as whole ticks, and the remainder is kept for
    /// the next frame.
    pub fn update(&mut self, elapsed: u64) -> (step: TimingStep)
        ensures
            final(self).target() == old(self).target(),
            final(self).tick() == old(self).tick(),
            final(self).max_elapsed() == old(self).max_elapsed(),
            old(self).total_elapsed() + elapsed <= old(self).target() ==> step
                == TimingStep::Sleep(
                (old(self).target() - (old(self).total_elapsed() + elapsed)) as u64,
            ) && final(self).total_elapsed() == old(self).total_elapsed() + elapsed,
            old(self).total_elapsed() + elapsed > old(self).target() ==> step == (TimingStep::Frame {
                ticks: (old(self).clamped(old(self).total_elapsed() + elapsed) / old(
                    self,
                ).tick()) as u64,
            }) && final(self).total_elapsed() == old(self).clamped(
                old(self).total_elapsed() + elapsed,
            ) % old(self).tick(),
    {
        proof {
            use_type_invariant(&*self);
        }
        let sum: u128 = self.total_elapsed as u128 + elapsed as u128;
        if sum <= self.target_duration as u128 {
            self.total_elapsed = sum as u64;
            return TimingStep::Sleep(self.target_duration - self.total_elapsed);
        }
        let clamped: u64 = if sum > self.max_elapsed as u128 {
            self.max_elapsed
        } else {
            sum as u64
        };
        let ticks: u64 = clamped / self.tick_duration;
        self.total_elapsed = clamped % self.tick_duration;
        TimingStep::Frame { ticks }
    }
}

/// Out of a backlog of at most five ticks, at most five ticks are due.
proof fn lemma_ticks_due_bound(backlog: int, tick: int)
    requires
        tick > 0,
        0 <= backlog <= 5 * tick,
    ensures
        backlog / tick <= 5,
{
    assert(backlog / tick <= 5) by (nonlinear_arith)
        requires
            tick > 0,
            0 <= backlog <= 5 * tick,
    ;
}

/// Taking one tick out of a backlog that holds one lowers the number of
/// whole ticks in it by one and leaves the remainder; a backlog that holds
/// none has no whole tick in it.
proof fn lemma_one_tick_less(backlog: int, tick: int)
    requires
        tick > 0,
        0 <= backlog,
    ensures
        backlog >= tick <==> backlog / tick >= 1,
        backlog >= tick ==> (backlog - tick) / tick == backlog / tick - 1 && (backlog - tick) % tick
            == backlog % tick,
{
    vstd::arithmetic::div_mod::lemma_fundamental_div_mod(backlog, tick);
    vstd::arithmetic::div_mod::lemma_mod_bound(backlog, tick);
    if backlog >= tick {
        vstd::arithmetic::div_mod::lemma_fundamental_div_mod(backlog - tick, tick);
        vstd::arithmetic::div_mod::lemma_mod_bound(backlog - tick, tick);
        let q = backlog / tick;
        let q2 = (backlog - tick) / tick;
        let r = backlog % tick;
        let r2 = (backlog - tick) % tick;
        assert(q2 == q - 1 && r2 == r) by (nonlinear_arith)
            requires
                tick > 0,
                backlog == tick * q + r,
                backlog - tick == tick * q2 + r2,
                0 <= r < tick,
                0 <= r2 < tick,
        ;
        assert(q >= 1);
    } else {
        vstd::arithmetic::div_mod::lemma_basic_div(backlog, tick);
    }
}

} // verus!
