//! Spans of time, and the bounded waits that the engine takes.

use vstd::prelude::*;

verus! {

/// Nanoseconds in a second.
pub const NANOS_PER_SEC: u32 = 1_000_000_000;

/// A span of time: whole seconds and the nanoseconds beyond them.
#[derive(Debug, Clone, Copy, PartialEq, Eq)]
pub struct Duration {
    secs: u64,
    nanos: u32,
}

impl View for Duration {
    type V = nat;

    /// The span in nanoseconds.
    closed spec fn view(&self) -> nat {
        (self.secs as nat) * 1_000_000_000 + self.nanos as nat
    }
}

impl Duration {
    #[verifier::type_invariant]
    spec fn valid(&self) -> bool {
        self.nanos < NANOS_PER_SEC
    }

    /// The span of `secs` seconds and `nanos` nanoseconds. Nanoseconds that
    /// make up whole seconds are counted as seconds, which must not take
    /// the seconds beyond what `u64` holds.
    pub fn new(secs: u64, nanos: u32) -> (d: Duration)
        requires
            secs + nanos / NANOS_PER_SEC <= u64::MAX,
        ensures
            d@ == secs * 1_000_000_000 + nanos,
    {
        let carried = (nanos / NANOS_PER_SEC) as u64;
        let d = Duration { secs: secs + carried, nanos: nanos % NANOS_PER_SEC };
        assert(d@ == secs * 1_000_000_000 + nanos) by (nonlinear_arith)
            requires
                d@ == ((secs + nanos / 1_000_000_000) as nat) * 1_000_000_000 + (nanos
                    % 1_000_000_000) as nat,
        ;
        d
    }

    /// The span of `secs` seconds.
    pub fn from_secs(secs: u64) -> (d: Duration)
        ensures
            d@ == secs * 1_000_000_000,
    {
        Duration { secs, nanos: 0 }
    }

    /// The span of `millis` milliseconds.
    pub fn from_millis(millis: u64) -> (d: Duration)
        ensures
            d@ == millis * 1_000_000,
    {
        let d = Duration { secs: millis / 1000, nanos: ((millis % 1000) as u32) * 1_000_000 };
        assert(d@ == millis * 1_000_000) by (nonlinear_arith)
            requires
                d@ == ((millis / 1000) as nat) * 1_000_000_000 + ((millis % 1000) as nat)
                    * 1_000_000,
        ;
        d
    }

    /// The span of `micros` microseconds.
    pub fn from_micros(micros: u64) -> (d: Duration)
        ensures
            d@ == micros * 1_000,
    {
        let d = Duration {
            secs: micros / 1_000_000,
            nanos: ((micros % 1_000_000) as u32) * 1_000,
        };
        assert(d@ == micros * 1_000) by (nonlinear_arith)
            requires
                d@ == ((micros / 1_000_000) as nat) * 1_000_000_000 + ((micros % 1_000_000) as nat)
                    * 1_000,
        ;
        d
    }

    /// The whole milliseconds of the span.
    pub fn as_millis(&self) -> (millis: u128)
        ensures
            millis == self@ / 1_000_000,
    {
        proof {
            use_type_invariant(self);
        }
        let millis = (self.secs as u128) * 1000 + (self.nanos / 1_000_000) as u128;
        assert(millis == self@ / 1_000_000) by (nonlinear_arith)
            requires
                millis == (self.secs as nat) * 1000 + (self.nanos as nat) / 1_000_000,
                self@ == (self.secs as nat) * 1_000_000_000 + self.nanos as nat,
        ;
        millis
    }

    /// The whole microseconds of the span.
    pub fn as_micros(&self) -> (micros: u128)
        ensures
            micros == self@ / 1_000,
    {
        proof {
            use_type_invariant(self);
        }
        let micros = (self.secs as u128) * 1_000_000 + (self.nanos / 1_000) as u128;
        assert(micros == self@ / 1_000) by (nonlinear_arith)
            requires
                micros == (self.secs as nat) * 1_000_000 + (self.nanos as nat) / 1_000,
                self@ == (self.secs as nat) * 1_000_000_000 + self.nanos as nat,
        ;
        micros
    }
}

/// The wait that stands for "no limit" in an engine call.
pub const WAIT_FOREVER: i32 = -1;

/// A wait in milliseconds as an engine call takes it: the whole milliseconds
/// of the span, and the longest wait that the engine can express where the
/// span is longer. A wait with a limit is thus never negative, and never
/// taken for one without.
pub open spec fn wait_millis(span: nat) -> i32 {
    if span / 1_000_000 > i32::MAX {
        i32::MAX
    } else {
        (span / 1_000_000) as i32
    }
}

/// A wait that may have no limit, as an engine call takes it.
pub open spec fn wait_or_forever(timeout: Option<Duration>) -> i32 {
    match timeout {
        Some(span) => wait_millis(span@),
        None => WAIT_FOREVER,
    }
}

/// A span in microseconds as the engine's timeout option takes it: the whole
/// microseconds, and the largest value where the span is longer.
pub open spec fn timeout_micros(span: nat) -> u64 {
    if span / 1_000 > u64::MAX {
        u64::MAX
    } else {
        (span / 1_000) as u64
    }
}

impl Duration {
    /// The span as a wait in milliseconds for an engine call.
    pub fn to_wait_millis(&self) -> (wait: i32)
        ensures
            wait == wait_millis(self@),
            wait >= 0,
    {
        let millis = self.as_millis();
        if millis > i32::MAX as u128 {
            i32::MAX
        } else {
            millis as i32
        }
    }

    /// The span as the value of the engine's timeout option.
    pub fn to_timeout_micros(&self) -> (micros: u64)
        ensures
            micros == timeout_micros(self@),
    {
        let micros = self.as_micros();
        if micros > u64::MAX as u128 {
            u64::MAX
        } else {
            micros as u64
        }
    }
}

} // verus!
