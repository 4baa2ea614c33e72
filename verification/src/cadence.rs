//! When each source of data is refreshed again.
//!
//! Times are milliseconds on a clock of the caller's that never runs
//! backwards.

use vstd::prelude::*;

verus! {

/// The time between two readings of the machine's load, unless another is
/// asked for.
pub const SYSTEM_INTERVAL_MS: u64 = 500;

/// The time between two sweeps over the servers.
pub const SERVER_INTERVAL_MS: u64 = 30_000;

/// The longest wait for a key press before the screen is drawn again.
pub const INPUT_POLL_MS: u64 = 16;

/// A recurring refresh: when it last fired, and how long it then rests.
#[derive(Clone, Copy, Debug, PartialEq, Eq, Structural)]
pub struct Cadence {
    pub last_fired: u64,
    pub interval: u64,
}

/// Whether the refresh may fire at `now`: its interval has passed since it
/// last fired.
pub open spec fn due(c: Cadence, now: u64) -> bool {
    now >= c.last_fired && now - c.last_fired >= c.interval
}

/// The cadence after it was asked at `now`: where it was due it has fired
/// at `now`, else it is as before.
pub open spec fn asked(c: Cadence, now: u64) -> Cadence {
    if due(c, now) {
        Cadence { last_fired: now, interval: c.interval }
    } else {
        c
    }
}

impl Cadence {
    /// A refresh every `interval` milliseconds that counts as having fired
    /// at `now`.
    pub fn new(now: u64, interval: u64) -> (c: Self)
        ensures
            c == (Cadence { last_fired: now, interval }),
    {
        Cadence { last_fired: now, interval }
    }

    /// Says whether the refresh fires at `now`, and if so notes `now` as the
    /// time it last fired: the time of firing, however long the refresh
    /// itself then takes.
    pub fn maybe_fire(&mut self, now: u64) -> (fire: bool)
        ensures
            fire == due(*old(self), now),
            *final(self) == asked(*old(self), now),
    {
        if now >= self.last_fired && now - self.last_fired >= self.interval {
            self.last_fired = now;
            true
        } else {
            false
        }
    }
}

/// The two refreshes of the dashboard, each on its own cadence.
#[derive(Clone, Copy, Debug, PartialEq, Eq, Structural)]
pub struct Scheduler {
    /// The reading of the machine's load.
    pub system: Cadence,
    /// The sweep over all servers.
    pub servers: Cadence,
}

/// Which refreshes fire on one pass of the control loop.
#[derive(Clone, Copy, Debug, PartialEq, Eq, Structural)]
pub struct Due {
    pub system: bool,
    pub servers: bool,
}

impl Scheduler {
    /// Both refreshes on their usual intervals, counted from `now`.
    pub open spec fn spec_new(now: u64) -> Scheduler {
        Scheduler {
            system: Cadence { last_fired: now, interval: SYSTEM_INTERVAL_MS },
            servers: Cadence { last_fired: now, interval: SERVER_INTERVAL_MS },
        }
    }

    /// Both refreshes on their usual intervals, counted from `now`.
    #[verifier::when_used_as_spec(spec_new)]
    pub fn new(now: u64) -> (s: Self)
        ensures
            s == Scheduler::spec_new(now),
    {
        Scheduler {
            system: Cadence::new(now, SYSTEM_INTERVAL_MS),
            servers: Cadence::new(now, SERVER_INTERVAL_MS),
        }
    }

    /// Both refreshes on intervals of the caller's, counted from `now`.
    pub fn with_intervals(now: u64, system_ms: u64, servers_ms: u64) -> (s: Self)
        ensures
            s.system == (Cadence { last_fired: now, interval: system_ms }),
            s.servers == (Cadence { last_fired: now, interval: servers_ms }),
    {
        Scheduler { system: Cadence::new(now, system_ms), servers: Cadence::new(now, servers_ms) }
    }

    /// Asks both cadences at `now`, each for itself: one fires or rests
    /// whatever the other does.
    pub fn tick(&mut self, now: u64) -> (d: Due)
        ensures
            d.system == due(old(self).system, now),
            d.servers == due(old(self).servers, now),
            final(self).system == asked(old(self).system, now),
            final(self).servers == asked(old(self).servers, now),
    {
        let system = self.system.maybe_fire(now);
        let servers = self.servers.maybe_fire(now);
        Due { system, servers }
    }
}

/// A refresh that has fired rests for its interval: asked again at a later
/// time, it is due exactly when the interval has passed since it fired.
pub proof fn lemma_rests_for_interval(c: Cadence, now: u64, later: u64)
    requires
        due(c, now),
        now <= later,
    ensures
        due(asked(c, now), later) <==> later - now >= c.interval,
        asked(c, now).interval == c.interval,
{
}

/// A refresh that is not due stays as it is, and becomes due when its
/// interval has passed since it last fired, however often it is asked
/// before.
pub proof fn lemma_asking_early_changes_nothing(c: Cadence, now: u64, later: u64)
    requires
        !due(c, now),
    ensures
        asked(c, now) == c,
        due(asked(c, now), later) == due(c, later),
{
}

} // verus!
