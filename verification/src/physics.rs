//! Timing of the fixed-rate physics worker: its configuration, when it steps
//! the model, how it counts ticks and overruns, and when it closes a window
//! for measuring its tick rate.
//!
//! Times are nanoseconds since the worker started.
use vstd::prelude::*;

verus! {

/// Default physics tick rate.
pub const DEFAULT_PHYSICS_RATE_HZ: u32 = 500;

/// The worker wakes this long before a tick is due and spins the rest.
pub const SPIN_MARGIN_NS: u64 = 200_000;

/// Length of the window over which the tick rate is measured.
pub const RATE_WINDOW_NS: u64 = 500_000_000;

/// How fast the physics worker ticks.
#[derive(Debug, Clone, Copy)]
pub struct PhysicsRuntimeConfig {
    pub tick_rate_hz: u32,
}

impl Default for PhysicsRuntimeConfig {
    /// The default tick rate.
    fn default() -> (config: Self)
        ensures
            config.tick_rate_hz == DEFAULT_PHYSICS_RATE_HZ,
    {
        PhysicsRuntimeConfig { tick_rate_hz: DEFAULT_PHYSICS_RATE_HZ }
    }
}

/// The rate actually used for `rate_hz`: at least one tick per second.
pub open spec fn effective_rate(rate_hz: u32) -> u32 {
    if rate_hz == 0 {
        1
    } else {
        rate_hz
    }
}

impl PhysicsRuntimeConfig {
    /// The configured tick rate, raised to one tick per second if it is zero.
    pub fn effective_tick_rate_hz(&self) -> (rate: u32)
        ensures
            rate == effective_rate(self.tick_rate_hz),
            rate >= 1,
            self.tick_rate_hz != 0 ==> rate == self.tick_rate_hz,
            self.tick_rate_hz == 0 ==> rate == 1,
    {
        if self.tick_rate_hz == 0 {
            1
        } else {
            self.tick_rate_hz
        }
    }
}

/// Tick schedule and counters of the physics worker.
#[derive(Debug, Clone, Copy)]
pub struct TickClock {
    pub tick_interval_ns: u64,
    pub next_tick_ns: u64,
    pub tick_count: u64,
    pub overrun_count: u64,
    pub last_tick_ns: Option<u64>,
    pub rate_window_started_ns: u64,
    pub rate_window_ticks: u64,
}

/// What the worker does on this pass of its loop.
#[derive(Debug, Clone, Copy, PartialEq, Eq, Structural)]
pub enum TickAction {
    /// The worker is paused: the rate window was restarted (the measured
    /// rate reads zero); wait a millisecond.
    Paused,
    /// The next tick is not due; sleep this many nanoseconds.
    Sleep(u64),
    /// The next tick is due within the spin margin; yield the thread.
    Yield,
    /// A tick is due: step the model, then call [`TickClock::after_tick`].
    Step,
}

/// A closed rate-measuring window: `ticks` ticks in `elapsed_ns`.
#[derive(Debug, Clone, Copy, PartialEq, Eq, Structural)]
pub struct RateWindow {
    pub ticks: u64,
    pub elapsed_ns: u64,
}

impl TickClock {
    /// The clock's counters are consistent: there are never more overruns or
    /// ticks in the current window than ticks in all.
    pub open spec fn wf(&self) -> bool {
        &&& self.overrun_count <= self.tick_count
        &&& self.rate_window_ticks <= self.tick_count
    }

    /// First tick due one interval after `now_ns`; nothing counted yet.
    pub fn new(tick_interval_ns: u64, now_ns: u64) -> (clock: Self)
        requires
            now_ns + tick_interval_ns <= u64::MAX,
        ensures
            clock.wf(),
            clock.tick_interval_ns == tick_interval_ns,
            clock.next_tick_ns == now_ns + tick_interval_ns,
            clock.tick_count == 0,
            clock.overrun_count == 0,
            clock.last_tick_ns is None,
            clock.rate_window_started_ns == now_ns,
            clock.rate_window_ticks == 0,
    {
        TickClock {
            tick_interval_ns,
            next_tick_ns: now_ns + tick_interval_ns,
            tick_count: 0,
            overrun_count: 0,
            last_tick_ns: None,
            rate_window_started_ns: now_ns,
            rate_window_ticks: 0,
        }
    }

    /// Decides what to do at `now_ns`. While paused, the next tick is pushed
    /// to one interval after now and the rate window restarts. While running,
    /// the worker sleeps until the spin margin before the next tick, yields
    /// inside the margin, and steps once the tick is due.
    pub fn before_tick(&mut self, enabled: bool, now_ns: u64) -> (action: TickAction)
        requires
            old(self).wf(),
            !enabled ==> now_ns + old(self).tick_interval_ns <= u64::MAX,
        ensures
            final(self).wf(),
            !enabled ==> action == TickAction::Paused && *final(self) == (TickClock {
                next_tick_ns: (now_ns + old(self).tick_interval_ns) as u64,
                rate_window_started_ns: now_ns,
                rate_window_ticks: 0,
                ..*old(self)
            }),
            enabled ==> *final(self) == *old(self),
            enabled && now_ns < old(self).next_tick_ns && old(self).next_tick_ns - now_ns
                > SPIN_MARGIN_NS ==> action == TickAction::Sleep(
                (old(self).next_tick_ns - now_ns - SPIN_MARGIN_NS) as u64,
            ),
            enabled && now_ns < old(self).next_tick_ns && old(self).next_tick_ns - now_ns
                <= SPIN_MARGIN_NS ==> action == TickAction::Yield,
            enabled && now_ns >= old(self).next_tick_ns ==> action == TickAction::Step,
    {
        if !enabled {
            self.next_tick_ns = now_ns + self.tick_interval_ns;
            self.rate_window_started_ns = now_ns;
            self.rate_window_ticks = 0;
            return TickAction::Paused;
        }
        if now_ns < self.next_tick_ns {
            let remaining = self.next_tick_ns - now_ns;
            if remaining > SPIN_MARGIN_NS {
                TickAction::Sleep(remaining - SPIN_MARGIN_NS)
            } else {
                TickAction::Yield
            }
        } else {
            TickAction::Step
        }
    }

    /// Books a tick completed at `completed_ns`: counts it, remembers it, and
    /// closes the rate window once it spans half a second (returning the
    /// window). The next tick is due one interval after the previous due
    /// time; if the worker has already fallen behind that, the tick counts as
    /// an overrun and the next one is due one interval after completion.
    pub fn after_tick(&mut self, completed_ns: u64) -> (window: Option<RateWindow>)
        requires
            old(self).wf(),
            old(self).tick_count < u64::MAX,
            old(self).next_tick_ns + old(self).tick_interval_ns <= u64::MAX,
            completed_ns > old(self).next_tick_ns + old(self).tick_interval_ns ==> completed_ns
                + old(self).tick_interval_ns <= u64::MAX,
        ensures
            final(self).wf(),
            final(self).tick_interval_ns == old(self).tick_interval_ns,
            final(self).tick_count == old(self).tick_count + 1,
            final(self).last_tick_ns == Some(completed_ns),
            ({
                let elapsed = if completed_ns >= old(self).rate_window_started_ns {
                    completed_ns - old(self).rate_window_started_ns
                } else {
                    0
                };
                if elapsed >= RATE_WINDOW_NS {
                    &&& window == Some(
                        RateWindow {
                            ticks: (old(self).rate_window_ticks + 1) as u64,
                            elapsed_ns: elapsed as u64,
                        },
                    )
                    &&& final(self).rate_window_started_ns == completed_ns
                    &&& final(self).rate_window_ticks == 0
                } else {
                    &&& window is None
                    &&& final(self).rate_window_started_ns == old(self).rate_window_started_ns
                    &&& final(self).rate_window_ticks == old(self).rate_window_ticks + 1
                }
            }),
            ({
                let due = old(self).next_tick_ns + old(self).tick_interval_ns;
                if completed_ns > due {
                    &&& final(self).overrun_count == old(self).overrun_count + 1
                    &&& final(self).next_tick_ns == completed_ns + old(self).tick_interval_ns
                } else {
                    &&& final(self).overrun_count == old(self).overrun_count
                    &&& final(self).next_tick_ns == due
                }
            }),
            final(self).next_tick_ns >= completed_ns,
    {
        self.tick_count = self.tick_count + 1;
        self.last_tick_ns = Some(completed_ns);
        self.rate_window_ticks = self.rate_window_ticks + 1;
        let elapsed = if completed_ns >= self.rate_window_started_ns {
            completed_ns - self.rate_window_started_ns
        } else {
            0
        };
        let window = if elapsed >= RATE_WINDOW_NS {
            let closed = RateWindow { ticks: self.rate_window_ticks, elapsed_ns: elapsed };
            self.rate_window_started_ns = completed_ns;
            self.rate_window_ticks = 0;
            Some(closed)
        } else {
            None
        };
        self.next_tick_ns = self.next_tick_ns + self.tick_interval_ns;
        if completed_ns > self.next_tick_ns {
            self.overrun_count = self.overrun_count + 1;
            self.next_tick_ns = completed_ns + self.tick_interval_ns;
        }
        window
    }
}

} // verus!
