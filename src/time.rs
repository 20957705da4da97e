use vstd::prelude::*;

verus! {

/// Nanoseconds in one second.
pub const NANOS_PER_SECOND: i64 = 1_000_000_000;

/// Earliest representable instant: the first second of year -262143 (UTC).
pub const MIN_SECONDS: i64 = -8_334_601_315_200;

/// Latest representable instant: the last second of year 262142 (UTC).
pub const MAX_SECONDS: i64 = 8_210_266_876_799;

/// An instant in UTC: whole seconds since the Unix epoch and the
/// nanoseconds into that second.
#[derive(Clone, Copy, Debug, PartialEq, Eq, Structural)]
pub struct Timestamp {
    pub seconds: i64,
    pub nanos: u32,
}

impl Timestamp {
    /// A valid timestamp lies in the calendar range and has fewer than a
    /// second's worth of nanoseconds.
    pub open spec fn wf(self) -> bool {
        &&& MIN_SECONDS <= self.seconds <= MAX_SECONDS
        &&& self.nanos < NANOS_PER_SECOND
    }

    /// The instant as nanoseconds since the epoch.
    pub open spec fn total_nanos(self) -> int {
        self.seconds * NANOS_PER_SECOND + self.nanos
    }

    /// Builds a timestamp, or `None` when the parts are out of range.
    pub fn new(seconds: i64, nanos: u32) -> (r: Option<Timestamp>)
        ensures
            r matches Some(t) ==> t.wf() && t.seconds == seconds && t.nanos == nanos,
            r is None <==> !(Timestamp { seconds, nanos }).wf(),
    {
        if MIN_SECONDS <= seconds && seconds <= MAX_SECONDS && (nanos as i64) < NANOS_PER_SECOND {
            Some(Timestamp { seconds, nanos })
        } else {
            None
        }
    }
}

/// Nanoseconds from `from` to `to`; negative when `to` is earlier.
pub open spec fn elapsed_nanos(from: Timestamp, to: Timestamp) -> int {
    to.total_nanos() - from.total_nanos()
}

/// A span of nanoseconds in whole seconds, truncated toward zero.
pub open spec fn whole_seconds(nanos: int) -> int {
    if nanos >= 0 {
        nanos / (NANOS_PER_SECOND as int)
    } else {
        -((-nanos) / (NANOS_PER_SECOND as int))
    }
}

/// The age of an object created at `created`, seen at `now`: the elapsed
/// whole seconds (negative for a creation time in the future), or 0 when
/// the creation time is unknown.
pub open spec fn age_of(created: Option<Timestamp>, now: Timestamp) -> int {
    match created {
        Some(t) => whole_seconds(elapsed_nanos(t, now)),
        None => 0,
    }
}

proof fn lemma_whole_seconds(ds: int, dn: int)
    requires
        -NANOS_PER_SECOND < dn < NANOS_PER_SECOND,
    ensures
        whole_seconds(ds * NANOS_PER_SECOND + dn) == if ds > 0 && dn < 0 {
            ds - 1
        } else if ds < 0 && dn > 0 {
            ds + 1
        } else {
            ds
        },
{
    let n = NANOS_PER_SECOND as int;
    let total = ds * n + dn;
    if ds > 0 && dn < 0 {
        assert(total == (ds - 1) * n + (n + dn)) by (nonlinear_arith)
            requires total == ds * n + dn;
        assert(total / n == ds - 1) by (nonlinear_arith)
            requires total == (ds - 1) * n + (n + dn), 0 < n + dn < n, n > 0;
    } else if ds < 0 && dn > 0 {
        assert(-total == (-ds - 1) * n + (n - dn)) by (nonlinear_arith)
            requires total == ds * n + dn;
        assert((-total) / n == -ds - 1) by (nonlinear_arith)
            requires -total == (-ds - 1) * n + (n - dn), 0 < n - dn < n, n > 0;
    } else if ds > 0 || (ds == 0 && dn >= 0) {
        assert(total / n == ds) by (nonlinear_arith)
            requires total == ds * n + dn, 0 <= dn < n, ds >= 0, n > 0;
    } else {
        assert(-total == (-ds) * n + (-dn)) by (nonlinear_arith)
            requires total == ds * n + dn;
        assert((-total) / n == -ds) by (nonlinear_arith)
            requires -total == (-ds) * n + (-dn), 0 <= -dn < n, n > 0;
    }
}

/// Age in whole seconds of an object created at `created`, at `now`.
///
/// Truncates toward zero, passes a negative age (a creation time in the
/// future) through unchanged, and gives 0 for an unknown creation time.
pub fn project_age(created: Option<Timestamp>, now: Timestamp) -> (age: i64)
    requires
        now.wf(),
        created matches Some(t) ==> t.wf(),
    ensures
        age == age_of(created, now),
{
    match created {
        None => 0,
        Some(t) => {
            let ds: i64 = now.seconds - t.seconds;
            let dn: i64 = now.nanos as i64 - t.nanos as i64;
            proof {
                lemma_whole_seconds(ds as int, dn as int);
                assert(elapsed_nanos(t, now) == ds * NANOS_PER_SECOND + dn) by (nonlinear_arith)
                    requires ds == now.seconds - t.seconds, dn == now.nanos - t.nanos;
            }
            if ds > 0 && dn < 0 {
                ds - 1
            } else if ds < 0 && dn > 0 {
                ds + 1
            } else {
                ds
            }
        },
    }
}

/// Without a creation time the age is zero, whatever `now` is.
pub proof fn lemma_age_unknown(now: Timestamp)
    ensures
        age_of(None, now) == 0,
{
}

/// With a creation time `t`, the age is the time from `t` to `now` in whole
/// seconds: never negative when `t` is not after `now`, and negative when `t`
/// lies a full second or more after `now` (a smaller lead truncates to 0).
pub proof fn lemma_age_sign(t: Timestamp, now: Timestamp)
    requires
        t.wf(),
        now.wf(),
    ensures
        age_of(Some(t), now) == whole_seconds(elapsed_nanos(t, now)),
        t.total_nanos() <= now.total_nanos() ==> age_of(Some(t), now) == elapsed_nanos(t, now)
            / (NANOS_PER_SECOND as int) && age_of(Some(t), now) >= 0,
        now.total_nanos() + NANOS_PER_SECOND <= t.total_nanos() ==> age_of(Some(t), now) < 0,
{
    let n = NANOS_PER_SECOND as int;
    let e = elapsed_nanos(t, now);
    if e >= 0 {
        assert(e / n >= 0) by (nonlinear_arith)
            requires e >= 0, n > 0;
    }
    if e <= -n {
        assert((-e) / n >= 1) by (nonlinear_arith)
            requires -e >= n, n > 0;
    }
}

} // verus!
