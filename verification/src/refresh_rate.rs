//! Fixed-interval frame pacing.
//!
//! Instants are whole nanoseconds since an origin that the caller chooses;
//! the caller reads the clock and waits, the scheduler only reckons.

use vstd::prelude::*;

verus! {

/// The nanoseconds between two refreshes at a rate of one millionth of a
/// hertz: a second's nanoseconds times a million.
pub const NANOS_AT_UNIT_RATE: u64 = 1_000_000_000_000_000;

/// The mathematical value of a scheduler.
pub struct RefreshView {
    /// The nanoseconds between two refreshes.
    pub interval: int,
    /// The instant of the last refresh.
    pub last_update: int,
}

impl RefreshView {
    /// When the next refresh is due: one interval after the last one.
    pub open spec fn deadline(self) -> int {
        self.last_update + self.interval
    }

    /// The time from the last refresh to `now`; none if `now` is not later.
    pub open spec fn elapsed(self, now: int) -> int {
        if now > self.last_update {
            now - self.last_update
        } else {
            0
        }
    }

    /// The scheduler after a refresh at `now`.
    pub open spec fn refreshed(self, now: int) -> RefreshView {
        RefreshView { last_update: now, ..self }
    }
}

/// What a refresh tells the caller.
#[derive(Clone, Copy, Debug, PartialEq, Eq, Structural)]
pub struct Refresh {
    /// The instant until which the caller is to wait before it refreshes
    /// again. It is wider than the instants that come in, so that it holds
    /// the sum of any instant and any interval.
    pub next_update: u128,
    /// The time since the refresh before this one.
    pub elapsed: u64,
}

/// Paces refreshes at a fixed interval.
pub struct RefreshRate {
    interval: u64,
    last_update: u64,
}

impl View for RefreshRate {
    type V = RefreshView;

    closed spec fn view(&self) -> RefreshView {
        RefreshView { interval: self.interval as int, last_update: self.last_update as int }
    }
}

impl RefreshRate {
    /// A scheduler for `rate` refreshes per second, in millionths of a
    /// hertz, whose last refresh counts as having been at `now`. The
    /// interval is one second over the rate, rounded down to a whole
    /// nanosecond.
    pub fn new(rate: u64, now: u64) -> (r: Self)
        requires
            rate > 0,
        ensures
            r@.interval == NANOS_AT_UNIT_RATE / rate,
            r@.last_update == now,
    {
        Self { interval: NANOS_AT_UNIT_RATE / rate, last_update: now }
    }

    /// tell RefreshRate that you will refresh now and get the next refresh time
    ///
    /// The next refresh time is one interval after the refresh before this
    /// one. With it comes the time that went by since then. Where the
    /// clock has advanced since the refresh before this one, the next
    /// refresh will return a later time than this one does.
    pub fn refresh_now(&mut self, now: u64) -> (refresh: Refresh)
        ensures
            refresh.next_update == old(self)@.deadline(),
            refresh.elapsed == old(self)@.elapsed(now as int),
            final(self)@ == old(self)@.refreshed(now as int),
            old(self)@.last_update < now ==> refresh.next_update < final(self)@.deadline(),
    {
        let next_update: u128 = self.last_update as u128 + self.interval as u128;
        let elapsed: u64 = now.saturating_sub(self.last_update);
        self.last_update = now;
        Refresh { next_update, elapsed }
    }

    /// get interval between refreshes
    pub fn interval(&self) -> (interval: u64)
        ensures
            interval == self@.interval,
    {
        self.interval
    }

    /// Deadlines move forward with the clock: if the clock has advanced
    /// when a refresh is made at `now`, the deadline that this refresh
    /// returns is earlier than the deadline that the next one returns.
    pub proof fn law_deadlines_increase(self, now: u64)
        requires
            self@.last_update < now,
        ensures
            self@.deadline() < self@.refreshed(now as int).deadline(),
    {
    }
}

} // verus!
