//! Debounced rate-change logging.
//!
//! Every change notification for the congestion-control element's current
//! maximum bitrate yields a [`RateObservation`].  The debouncer decides
//! which observations deserve a log line: the first one ever (it
//! establishes the baseline), and afterwards exactly those that arrive at
//! least one second after the last logged transition with a rate that
//! differs from the last logged rate.  Observations inside the one-second
//! window are only counted, which bounds the log volume during rapid
//! renegotiation while still recording how much activity was suppressed.

use vstd::prelude::*;

verus! {

/// A wall-clock instant: whole seconds paired with the microseconds into
/// the current second.
#[derive(Clone, Copy, PartialEq, Eq, Structural, Debug)]
pub struct Timestamp {
    pub secs: u64,
    pub micros: u32,
}

impl Timestamp {
    /// The microsecond part names a position inside one second.
    pub open spec fn wf(self) -> bool {
        self.micros < 1_000_000
    }

    /// The instant as a total count of microseconds since the epoch.
    pub open spec fn as_micros(self) -> int {
        self.secs * 1_000_000 + self.micros
    }

    pub open spec fn epoch_spec() -> Timestamp {
        Timestamp { secs: 0, micros: 0 }
    }

    pub fn new(secs: u64, micros: u32) -> (t: Timestamp)
        requires
            micros < 1_000_000,
        ensures
            t == (Timestamp { secs, micros }),
            t.wf(),
    {
        Timestamp { secs, micros }
    }

    pub fn epoch() -> (t: Timestamp)
        ensures
            t == Timestamp::epoch_spec(),
            t.wf(),
    {
        Timestamp { secs: 0, micros: 0 }
    }
}

/// Microseconds elapsed from `last` to `now`, saturating at zero when the
/// clock ran backwards.
pub open spec fn elapsed_micros(now: Timestamp, last: Timestamp) -> int {
    if now.as_micros() >= last.as_micros() {
        now.as_micros() - last.as_micros()
    } else {
        0
    }
}

/// The elapsed time split into whole seconds and leftover microseconds.
pub open spec fn elapsed_split(now: Timestamp, last: Timestamp) -> (u64, u32)
    recommends
        now.wf(),
        last.wf(),
{
    if now.as_micros() >= last.as_micros() {
        if now.micros >= last.micros {
            (((now.secs - last.secs) as u64), ((now.micros - last.micros) as u32))
        } else {
            (((now.secs - last.secs - 1) as u64), ((1_000_000 + now.micros - last.micros) as u32))
        }
    } else {
        (0u64, 0u32)
    }
}

/// One reading of the congestion-control element's current maximum
/// bitrate, taken at a wall-clock instant.
#[derive(Clone, Copy, PartialEq, Eq, Structural, Debug)]
pub struct RateObservation {
    pub rate: u32,
    pub observed_at: Timestamp,
}

/// What the debouncer remembers between observations: the last logged
/// rate and instant, how many observations were suppressed since then,
/// and whether a baseline observation was logged at all yet.
#[derive(Clone, Copy, PartialEq, Eq, Structural, Debug)]
pub struct RateDebounceState {
    pub last_logged_rate: u32,
    pub last_logged_at: Timestamp,
    pub suppressed_count: u32,
    pub has_baseline: bool,
}

/// The fields of one rate-change log line.
#[derive(Clone, Copy, PartialEq, Eq, Structural, Debug)]
pub struct LogRecord {
    pub at: Timestamp,
    pub rate: u32,
    pub prev_rate: u32,
    pub prev_at: Timestamp,
    pub elapsed_secs: u64,
    pub elapsed_sub_micros: u32,
    pub suppressed: u32,
}

impl RateDebounceState {
    pub open spec fn wf(self) -> bool {
        self.last_logged_at.wf()
    }

    /// The state before any observation arrived: a zero rate at the epoch,
    /// with no baseline logged yet.
    pub open spec fn init_spec() -> RateDebounceState {
        RateDebounceState {
            last_logged_rate: 0,
            last_logged_at: Timestamp::epoch_spec(),
            suppressed_count: 0,
            has_baseline: false,
        }
    }

    pub fn init() -> (s: RateDebounceState)
        ensures
            s == RateDebounceState::init_spec(),
            s.wf(),
    {
        RateDebounceState {
            last_logged_rate: 0,
            last_logged_at: Timestamp::epoch(),
            suppressed_count: 0,
            has_baseline: false,
        }
    }

    /// Whether `obs` is a loggable transition: the first observation ever,
    /// or one at least a second after the last logged transition whose
    /// rate differs from the last logged rate.
    pub open spec fn logs(self, obs: RateObservation) -> bool {
        !self.has_baseline || (elapsed_micros(obs.observed_at, self.last_logged_at) >= 1_000_000
            && obs.rate != self.last_logged_rate)
    }

    /// The state after processing `obs`.
    pub open spec fn next(self, obs: RateObservation) -> RateDebounceState {
        if self.logs(obs) {
            RateDebounceState {
                last_logged_rate: obs.rate,
                last_logged_at: obs.observed_at,
                suppressed_count: 0,
                has_baseline: true,
            }
        } else if elapsed_micros(obs.observed_at, self.last_logged_at) < 1_000_000 {
            RateDebounceState {
                last_logged_rate: self.last_logged_rate,
                last_logged_at: self.last_logged_at,
                suppressed_count: if self.suppressed_count < u32::MAX {
                    (self.suppressed_count + 1) as u32
                } else {
                    self.suppressed_count
                },
                has_baseline: self.has_baseline,
            }
        } else {
            self
        }
    }

    /// The log record emitted when `obs` is logged against this state.
    pub open spec fn record_of(self, obs: RateObservation) -> LogRecord {
        LogRecord {
            at: obs.observed_at,
            rate: obs.rate,
            prev_rate: self.last_logged_rate,
            prev_at: self.last_logged_at,
            elapsed_secs: elapsed_split(obs.observed_at, self.last_logged_at).0,
            elapsed_sub_micros: elapsed_split(obs.observed_at, self.last_logged_at).1,
            suppressed: self.suppressed_count,
        }
    }

    /// Processes one observation: decides whether it is logged, updates
    /// the state accordingly, and hands back the record to log, if any.
    /// The decision and the update form one step; the caller applies the
    /// log side effect under the same exclusive access that protects the
    /// state.
    pub fn observe(&mut self, obs: RateObservation) -> (r: Option<LogRecord>)
        requires
            old(self).wf(),
            obs.observed_at.wf(),
        ensures
            final(self).wf(),
            *final(self) == old(self).next(obs),
            r is Some <==> old(self).logs(obs),
            r matches Some(rec) ==> rec == old(self).record_of(obs),
            r matches Some(rec) ==> rec.elapsed_secs * 1_000_000 + rec.elapsed_sub_micros
                == elapsed_micros(obs.observed_at, old(self).last_logged_at)
                && rec.elapsed_sub_micros < 1_000_000,
    {
        let now = obs.observed_at;
        let last = self.last_logged_at;
        let clock_advanced = now.secs > last.secs || (now.secs == last.secs && now.micros
            >= last.micros);
        let ge_one_sec = now.secs > last.secs && (now.secs - last.secs >= 2 || now.micros
            >= last.micros);
        proof {
            assert(ge_one_sec == (elapsed_micros(now, last) >= 1_000_000));
        }
        if !self.has_baseline || (ge_one_sec && obs.rate != self.last_logged_rate) {
            let (elapsed_secs, elapsed_sub_micros): (u64, u32) = if clock_advanced {
                if now.micros >= last.micros {
                    (now.secs - last.secs, now.micros - last.micros)
                } else {
                    (now.secs - last.secs - 1, 1_000_000 + now.micros - last.micros)
                }
            } else {
                (0, 0)
            };
            let rec = LogRecord {
                at: now,
                rate: obs.rate,
                prev_rate: self.last_logged_rate,
                prev_at: last,
                elapsed_secs,
                elapsed_sub_micros,
                suppressed: self.suppressed_count,
            };
            self.last_logged_rate = obs.rate;
            self.last_logged_at = now;
            self.suppressed_count = 0;
            self.has_baseline = true;
            Some(rec)
        } else if !ge_one_sec {
            if self.suppressed_count < u32::MAX {
                self.suppressed_count = self.suppressed_count + 1;
            }
            None
        } else {
            None
        }
    }
}

/// Law: once a baseline was logged, an observation is logged exactly when
/// at least one second has elapsed since the last logged transition and
/// its rate differs from the last logged rate.  The one exception is the
/// very first observation, which is logged unconditionally to establish
/// the baseline.
pub proof fn lemma_logged_iff_elapsed_and_changed(s: RateDebounceState, obs: RateObservation)
    requires
        s.has_baseline,
    ensures
        s.logs(obs) <==> (elapsed_micros(obs.observed_at, s.last_logged_at) >= 1_000_000
            && obs.rate != s.last_logged_rate),
{
}

/// Law: a logged transition resets the suppressed count to exactly zero,
/// and any other observation leaves it no smaller than before.
pub proof fn lemma_suppressed_count_reset_or_grows(s: RateDebounceState, obs: RateObservation)
    ensures
        s.logs(obs) ==> s.next(obs).suppressed_count == 0,
        !s.logs(obs) ==> s.next(obs).suppressed_count >= s.suppressed_count,
{
}

/// The state after feeding a whole observation sequence, oldest first.
pub open spec fn run(s: RateDebounceState, obs: Seq<RateObservation>) -> RateDebounceState
    decreases obs.len(),
{
    if obs.len() == 0 {
        s
    } else {
        run(s.next(obs.first()), obs.drop_first())
    }
}

/// Once a baseline exists, no observation sequence removes it.
pub proof fn lemma_baseline_is_kept(s: RateDebounceState, obs: Seq<RateObservation>)
    requires
        s.has_baseline,
    ensures
        run(s, obs).has_baseline,
    decreases obs.len(),
{
    if obs.len() > 0 {
        lemma_baseline_is_kept(s.next(obs.first()), obs.drop_first());
    }
}

/// Law: starting from the initial state, every observation sequence with
/// at least one element leaves a baseline behind, so the exception of
/// `lemma_logged_iff_elapsed_and_changed` applies only to the very first
/// observation.
pub proof fn lemma_baseline_after_first(obs: Seq<RateObservation>)
    requires
        obs.len() > 0,
    ensures
        run(RateDebounceState::init_spec(), obs).has_baseline,
{
    lemma_baseline_is_kept(RateDebounceState::init_spec().next(obs.first()), obs.drop_first());
}

} // verus!
