//! The frame clock: whole seconds since a start, and the phase they select.

use vstd::prelude::*;

verus! {

/// Nanoseconds in one second.
pub const NANOS_PER_SEC: u32 = 1_000_000_000;

/// A point in time: whole seconds since an origin that the caller chooses,
/// and the nanoseconds into the running second.
#[derive(Clone, Copy, Debug, PartialEq, Eq, Structural)]
pub struct Timestamp {
    secs: u64,
    nanos: u32,
}

/// Why a clock reading gives no elapsed time.
#[derive(Clone, Copy, Debug, PartialEq, Eq, Structural)]
pub enum ClockError {
    /// The clock could not be read at all.
    Unreadable,
    /// The clock shows a time before the start.
    WentBackwards,
}

impl Timestamp {
    /// Whole seconds since the origin.
    pub closed spec fn spec_secs(&self) -> u64 {
        self.secs
    }

    /// Nanoseconds into the running second.
    pub closed spec fn spec_subsec_nanos(&self) -> u32 {
        self.nanos
    }

    /// The nanosecond part stays below one second. Every timestamp that
    /// running code holds meets this.
    #[verifier::type_invariant]
    pub open spec fn wf(self) -> bool {
        self.spec_subsec_nanos() < NANOS_PER_SEC
    }

    /// The timestamp as one number: nanoseconds since the origin.
    pub open spec fn as_nanos(self) -> nat {
        (self.spec_secs() * NANOS_PER_SEC + self.spec_subsec_nanos()) as nat
    }

    /// The origin itself.
    pub fn origin() -> (t: Timestamp)
        ensures
            t.spec_secs() == 0,
            t.spec_subsec_nanos() == 0,
    {
        Timestamp { secs: 0, nanos: 0 }
    }

    /// A timestamp from its two parts. There is none where `nanos` is a
    /// whole second or more.
    pub fn new(secs: u64, nanos: u32) -> (made: Option<Timestamp>)
        ensures
            made is Some <==> nanos < NANOS_PER_SEC,
            made matches Some(t) ==> t.spec_secs() == secs && t.spec_subsec_nanos() == nanos,
    {
        if nanos < NANOS_PER_SEC {
            Some(Timestamp { secs, nanos })
        } else {
            None
        }
    }

    /// Whole seconds since the origin.
    #[verifier::when_used_as_spec(spec_secs)]
    pub fn secs(&self) -> (secs: u64)
        ensures
            secs == self.spec_secs(),
    {
        self.secs
    }

    /// Nanoseconds into the running second; always below one second.
    #[verifier::when_used_as_spec(spec_subsec_nanos)]
    pub fn subsec_nanos(&self) -> (nanos: u32)
        ensures
            nanos == self.spec_subsec_nanos(),
            nanos < NANOS_PER_SEC,
    {
        proof {
            use_type_invariant(self);
        }
        self.nanos
    }

    /// The timestamp `n` seconds later, or `None` where the seconds would
    /// leave `u64`.
    pub fn plus_seconds(&self, n: u64) -> (later: Option<Timestamp>)
        ensures
            later is Some <==> self.spec_secs() + n <= u64::MAX,
            later matches Some(t) ==> t.spec_secs() == self.spec_secs() + n
                && t.spec_subsec_nanos() == self.spec_subsec_nanos(),
    {
        proof {
            use_type_invariant(self);
        }
        match self.secs.checked_add(n) {
            Some(secs) => Some(Timestamp { secs, nanos: self.nanos }),
            None => None,
        }
    }
}

/// Whole seconds from `start` to the reading `now`, rounded down; an error
/// where the clock was not read or shows a time before `start`.
pub open spec fn elapsed_between(
    start: Timestamp,
    now: Option<Timestamp>,
) -> Result<u64, ClockError> {
    match now {
        None => Err(ClockError::Unreadable),
        Some(t) => if t.as_nanos() < start.as_nanos() {
            Err(ClockError::WentBackwards)
        } else {
            Ok(((t.as_nanos() - start.as_nanos()) / (NANOS_PER_SEC as int)) as u64)
        },
    }
}

/// The phase that an elapsed-time reading selects: green in even seconds,
/// blue in odd ones, and green whenever the reading failed.
pub open spec fn green_phase(elapsed: Result<u64, ClockError>) -> bool {
    match elapsed {
        Ok(seconds) => seconds % 2 == 0,
        Err(_) => true,
    }
}

/// The phase shown at the reading `now` by a clock started at `start`.
pub open spec fn phase_between(start: Timestamp, now: Option<Timestamp>) -> bool {
    green_phase(elapsed_between(start, now))
}

/// The phase that an elapsed-time reading selects. A failed reading never
/// stops the display: it shows green.
pub fn phase_of(elapsed: Result<u64, ClockError>) -> (green: bool)
    ensures
        green == green_phase(elapsed),
{
    match elapsed {
        Ok(seconds) => seconds % 2 == 0,
        Err(_) => true,
    }
}

/// Remembers when the display started.
#[derive(Clone, Copy, Debug, PartialEq, Eq, Structural)]
pub struct FrameClock {
    start: Timestamp,
}

impl FrameClock {
    /// When the clock was started.
    pub closed spec fn spec_start(&self) -> Timestamp {
        self.start
    }

    /// A clock started at `start`.
    pub fn new(start: Timestamp) -> (clock: FrameClock)
        ensures
            clock.spec_start() == start,
    {
        FrameClock { start }
    }

    /// When the clock was started.
    #[verifier::when_used_as_spec(spec_start)]
    pub fn start(&self) -> (start: Timestamp)
        ensures
            start == self.spec_start(),
    {
        self.start
    }

    /// Whole seconds from the start to `now`, rounded down. `None` stands for
    /// a clock that could not be read.
    pub fn elapsed_seconds(&self, now: Option<Timestamp>) -> (elapsed: Result<u64, ClockError>)
        ensures
            elapsed == elapsed_between(self.spec_start(), now),
    {
        match now {
            None => Err(ClockError::Unreadable),
            Some(t) => {
                proof {
                    use_type_invariant(&t);
                    use_type_invariant(&self.start);
                }
                let start = self.start;
                if t.secs < start.secs || (t.secs == start.secs && t.nanos < start.nanos) {
                    Err(ClockError::WentBackwards)
                } else if t.nanos >= start.nanos {
                    Ok(t.secs - start.secs)
                } else {
                    Ok(t.secs - start.secs - 1)
                }
            },
        }
    }

    /// The phase to show at `now`: green while the whole seconds since the
    /// start are even, blue while they are odd, green where the reading
    /// failed.
    pub fn display_phase(&self, now: Option<Timestamp>) -> (green: bool)
        ensures
            green == phase_between(self.spec_start(), now),
    {
        phase_of(self.elapsed_seconds(now))
    }
}

/// `n` whole seconds after the start the phase is green exactly when `n` is
/// even, whatever the start and whatever its nanosecond part.
pub proof fn lemma_phase_follows_parity(start: Timestamp, now: Timestamp, n: nat)
    requires
        start.wf(),
        now.wf(),
        now.as_nanos() == start.as_nanos() + n * NANOS_PER_SEC,
    ensures
        elapsed_between(start, Some(now)) matches Ok(seconds) && seconds == n,
        phase_between(start, Some(now)) <==> n % 2 == 0,
{
}

/// A reading that failed shows green: a clock that could not be read, and a
/// clock that shows a time before the start.
pub proof fn lemma_failed_reading_is_green(start: Timestamp, now: Option<Timestamp>)
    requires
        now matches Some(t) ==> t.as_nanos() < start.as_nanos(),
    ensures
        elapsed_between(start, now) is Err,
        phase_between(start, now),
{
}

} // verus!
