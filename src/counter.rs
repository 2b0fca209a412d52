use vstd::prelude::*;

verus! {

/// A sum of milliseconds that stops at `u64::MAX` rather than wrapping.
pub open spec fn capped(x: int) -> u64 {
    if x > u64::MAX as int {
        u64::MAX
    } else if x < 0 {
        0
    } else {
        x as u64
    }
}

/// Milliseconds from `from` to `to` on a monotonic clock; a reading that lies
/// before `from` counts as no time at all.
pub open spec fn span(from: u64, to: u64) -> u64 {
    if to >= from {
        (to - from) as u64
    } else {
        0
    }
}

/// A stopwatch that sums time over the stretches during which it runs.
#[derive(Clone, Copy, Debug, PartialEq, Eq)]
pub struct Counter {
    /// Time summed over the stretches that have ended.
    pub accumulated: u64,
    /// The clock reading at which the current stretch began, while running.
    pub resumed_at: Option<u64>,
}

impl Counter {
    /// Time counted as of the clock reading `now`.
    pub open spec fn elapsed_at(self, now: u64) -> u64 {
        match self.resumed_at {
            Some(s) => capped(self.accumulated + span(s, now)),
            None => self.accumulated,
        }
    }

    pub open spec fn is_running(self) -> bool {
        self.resumed_at is Some
    }

    pub open spec fn start_spec(self, now: u64) -> Counter {
        if self.is_running() {
            self
        } else {
            Counter { accumulated: self.accumulated, resumed_at: Some(now) }
        }
    }

    pub open spec fn stop_spec(self, now: u64) -> Counter {
        if self.is_running() {
            Counter { accumulated: self.elapsed_at(now), resumed_at: None }
        } else {
            self
        }
    }

    pub open spec fn toggle_spec(self, now: u64) -> Counter {
        if self.is_running() {
            self.stop_spec(now)
        } else {
            self.start_spec(now)
        }
    }

    /// A stopped counter at zero.
    pub fn new() -> (r: Counter)
        ensures
            r.accumulated == 0,
            !r.is_running(),
    {
        Counter { accumulated: 0, resumed_at: None }
    }

    /// A stopped counter that has already counted `elapsed`.
    pub fn from_elapsed(elapsed: u64) -> (r: Counter)
        ensures
            r.accumulated == elapsed,
            !r.is_running(),
    {
        Counter { accumulated: elapsed, resumed_at: None }
    }

    /// Starts counting at `now`; a running counter is left as it is.
    pub fn start(self, now: u64) -> (r: Counter)
        ensures
            r == self.start_spec(now),
    {
        match self.resumed_at {
            Some(_) => self,
            None => Counter { accumulated: self.accumulated, resumed_at: Some(now) },
        }
    }

    /// Stops counting at `now`, keeping the time counted so far; a stopped
    /// counter is left as it is.
    pub fn stop(self, now: u64) -> (r: Counter)
        ensures
            r == self.stop_spec(now),
    {
        match self.resumed_at {
            Some(_) => Counter { accumulated: self.elapsed(now), resumed_at: None },
            None => self,
        }
    }

    /// Stops a running counter, starts a stopped one.
    pub fn toggle(self, now: u64) -> (r: Counter)
        ensures
            r == self.toggle_spec(now),
    {
        match self.resumed_at {
            Some(_) => self.stop(now),
            None => self.start(now),
        }
    }

    /// Time counted as of `now`: the finished stretches plus the live one.
    pub fn elapsed(&self, now: u64) -> (r: u64)
        ensures
            r == self.elapsed_at(now),
    {
        match self.resumed_at {
            Some(s) => {
                let live: u64 = if now >= s { now - s } else { 0 };
                self.accumulated.saturating_add(live)
            },
            None => self.accumulated,
        }
    }

    /// Whether the counter is counting.
    pub fn started(&self) -> (r: bool)
        ensures
            r == self.is_running(),
    {
        self.resumed_at.is_some()
    }
}

} // verus!
