//! Small decision steps shared by simple time-gated programs: elapsed-span
//! gates, fixed-rate accrual, and the predictable lottery and admin gates.
//! Each is a pure function of the values it is handed; fetching the reading
//! and acting on the verdict stay with the host.

use vstd::prelude::*;

use crate::errors::CustodyError;
use crate::time::TimeReading;

verus! {

/// The span between two readings of the same signal.
///
/// `SignalMismatch` when the variants differ; `ArithmeticFault` when `later`
/// lies strictly before `earlier` (a negative span is rejected, never
/// wrapped); otherwise the exact nonnegative difference.
pub fn elapsed_between(earlier: &TimeReading, later: &TimeReading) -> (r: Result<
    u64,
    CustodyError,
>)
    ensures
        match r {
            Ok(d) => earlier.kind() == later.kind() && later.value() >= earlier.value() && d
                == later.value() - earlier.value(),
            Err(e) => {
                if earlier.kind() != later.kind() {
                    e == CustodyError::SignalMismatch
                } else {
                    later.value() < earlier.value() && e == CustodyError::ArithmeticFault
                }
            },
        },
{
    match (earlier, later) {
        (TimeReading::Slot(a), TimeReading::Slot(b)) => match b.checked_sub(*a) {
            Some(d) => Ok(d),
            None => Err(CustodyError::ArithmeticFault),
        },
        (TimeReading::Epoch(a), TimeReading::Epoch(b)) => match b.checked_sub(*a) {
            Some(d) => Ok(d),
            None => Err(CustodyError::ArithmeticFault),
        },
        (TimeReading::LeaderScheduleEpoch(a), TimeReading::LeaderScheduleEpoch(b)) => match b
            .checked_sub(*a) {
            Some(d) => Ok(d),
            None => Err(CustodyError::ArithmeticFault),
        },
        (TimeReading::UnixTimestamp(a), TimeReading::UnixTimestamp(b)) => {
            if *b < *a {
                Err(CustodyError::ArithmeticFault)
            } else {
                let d = #[verifier::truncate] ((*b as i128 - *a as i128) as u64);
                proof {
                    assert(*b as i128 - *a as i128 <= u64::MAX);
                }
                Ok(d)
            }
        },
        _ => Err(CustodyError::SignalMismatch),
    }
}

/// Whether at least `span` whole units have elapsed from `earlier` to
/// `later` — the holding-period gate, with its subtraction explicit and
/// checked so that a reading older than the stored one cannot wrap.
pub fn span_elapsed(earlier: &TimeReading, later: &TimeReading, span: u64) -> (r: Result<
    bool,
    CustodyError,
>)
    ensures
        match r {
            Ok(b) => earlier.kind() == later.kind() && (b <==> later.value() - earlier.value()
                >= span),
            Err(e) => e == CustodyError::SignalMismatch && earlier.kind() != later.kind(),
        },
{
    match elapsed_between(earlier, later) {
        Ok(d) => Ok(d >= span),
        Err(CustodyError::SignalMismatch) => Err(CustodyError::SignalMismatch),
        Err(_) => Ok(false),
    }
}

/// The reward accrued over an elapsed span at a fixed per-unit rate. A
/// product that would not fit in a `u64` is rejected with `ArithmeticFault`,
/// never wrapped.
pub fn accrued_reward(elapsed: u64, rate: u64) -> (r: Result<u64, CustodyError>)
    ensures
        match r {
            Ok(v) => v == elapsed * rate && elapsed * rate <= u64::MAX,
            Err(e) => e == CustodyError::ArithmeticFault && elapsed * rate > u64::MAX,
        },
{
    match elapsed.checked_mul(rate) {
        Some(v) => Ok(v),
        None => Err(CustodyError::ArithmeticFault),
    }
}

/// The lottery index drawn from a time-derived seed. The draw is fully
/// predictable from the seed; keeping it explicit makes that predictability
/// visible to callers rather than dressing it up as randomness.
pub fn lottery_index(seed: u64) -> (idx: u64)
    ensures
        idx == seed % 100,
        idx < 100,
{
    seed % 100
}

/// Whether a drawn lottery index is the winning one.
pub fn select_winner(lottery_number: usize) -> (winner: bool)
    ensures
        winner <==> lottery_number == 42,
{
    lottery_number == 42
}

/// The value the administrator configured for the leader-schedule-epoch
/// access gate.
pub fn admin_configured_value() -> (v: u64)
    ensures
        v == 42,
{
    42
}

} // verus!
