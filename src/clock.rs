//! Elapsed playback time of one decode session, in milliseconds, counted
//! across pauses.

use vstd::prelude::*;

verus! {

/// `x` held to what a `u64` can count.
pub open spec fn saturated(x: int) -> int {
    if x > u64::MAX {
        u64::MAX as int
    } else {
        x
    }
}

/// Playback time of a session: what was counted before the last pause, and
/// the instant output last started or resumed, while it runs. Instants are
/// milliseconds on one monotonic time line.
#[derive(Debug, Clone, Copy, PartialEq, Eq)]
pub struct PlaybackClock {
    pub accumulated_ms: u64,
    pub started_ms: Option<u64>,
}

impl PlaybackClock {
    /// No instant before `now` is later than the running start.
    pub open spec fn started_by(self, now: int) -> bool {
        match self.started_ms {
            Some(s) => s <= now,
            None => true,
        }
    }

    /// Elapsed time at `now`: what was counted, and the time since the start
    /// while it runs.
    pub open spec fn elapsed_at(self, now: int) -> int {
        match self.started_ms {
            Some(s) => saturated(self.accumulated_ms + (now - s)),
            None => self.accumulated_ms as int,
        }
    }

    /// The clock after output pauses at `now`.
    pub open spec fn paused_at(self, now: int) -> PlaybackClock {
        match self.started_ms {
            Some(s) => PlaybackClock {
                accumulated_ms: saturated(self.accumulated_ms + (now - s)) as u64,
                started_ms: None,
            },
            None => self,
        }
    }

    /// The clock after output resumes at `now`; one that runs already is left
    /// as it is.
    pub open spec fn resumed_at(self, now: int) -> PlaybackClock {
        match self.started_ms {
            Some(_) => self,
            None => PlaybackClock { accumulated_ms: self.accumulated_ms, started_ms: Some(now as u64) },
        }
    }

    /// A clock with nothing counted and not running.
    pub fn new() -> (r: PlaybackClock)
        ensures
            r.accumulated_ms == 0,
            r.started_ms is None,
    {
        PlaybackClock { accumulated_ms: 0, started_ms: None }
    }

    /// Output of a new session starts at `now`: the count restarts from zero.
    pub fn start(&mut self, now: u64)
        ensures
            final(self).accumulated_ms == 0,
            final(self).started_ms == Some(now),
    {
        self.accumulated_ms = 0;
        self.started_ms = Some(now);
    }

    /// Output pauses at `now`: the time run since the start is counted.
    pub fn pause(&mut self, now: u64)
        requires
            old(self).started_by(now as int),
        ensures
            *final(self) == old(self).paused_at(now as int),
    {
        if let Some(s) = self.started_ms {
            self.accumulated_ms = self.accumulated_ms.saturating_add(now - s);
            self.started_ms = None;
        }
    }

    /// Output resumes at `now`.
    pub fn resume(&mut self, now: u64)
        ensures
            *final(self) == old(self).resumed_at(now as int),
    {
        if self.started_ms.is_none() {
            self.started_ms = Some(now);
        }
    }

    /// The session is discarded: nothing is counted and the clock stands.
    pub fn stop(&mut self)
        ensures
            final(self).accumulated_ms == 0,
            final(self).started_ms is None,
    {
        self.accumulated_ms = 0;
        self.started_ms = None;
    }

    /// Elapsed time at `now`.
    pub fn elapsed(&self, now: u64) -> (r: u64)
        requires
            self.started_by(now as int),
        ensures
            r == self.elapsed_at(now as int),
    {
        match self.started_ms {
            Some(s) => self.accumulated_ms.saturating_add(now - s),
            None => self.accumulated_ms,
        }
    }
}

/// Elapsed time never goes back while time goes forward, whatever pauses and
/// resumptions stand between.
pub proof fn lemma_elapsed_monotonic(c: PlaybackClock, t1: int, t2: int)
    requires
        c.started_by(t1),
        t1 <= t2,
    ensures
        c.elapsed_at(t1) <= c.elapsed_at(t2),
{
}

/// Across a pause and the resumption after it, elapsed time does not go back:
/// what was reported before the pause is at most what is reported after.
pub proof fn lemma_pause_resume_monotonic(c: PlaybackClock, t1: int, t2: int, t3: int, t4: int)
    requires
        c.started_by(t1),
        0 <= t1 <= t2 <= t3 <= t4,
        t3 <= u64::MAX,
    ensures
        c.elapsed_at(t1) <= c.paused_at(t2).elapsed_at(t3),
        c.paused_at(t2).elapsed_at(t3) <= c.paused_at(t2).resumed_at(t3).elapsed_at(t4),
        c.elapsed_at(t1) <= c.paused_at(t2).resumed_at(t3).elapsed_at(t4),
{
}

} // verus!
