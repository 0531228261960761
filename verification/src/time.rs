//! The time oracle adapter.
//!
//! Four distinct host time signals (slot height, epoch index, leader-schedule
//! epoch, unix timestamp) are normalized into one tagged reading. A reading is
//! fetched at most once per invocation and reused for both the gating check
//! and the resulting update, and readings of different variants never meet in
//! one comparison.

use vstd::prelude::*;
use vstd::bytes::{spec_u64_from_le_bytes, u64_from_le_bytes};
use vstd::slice::slice_subrange;

use crate::errors::CustodyError;

verus! {

/// Which of the four host time signals a policy trusts.
#[derive(Clone, Copy, Debug, PartialEq, Eq, Structural)]
pub enum SignalKind {
    Slot,
    Epoch,
    LeaderScheduleEpoch,
    UnixTimestamp,
}

/// One normalized point-in-time reading, tagged with its signal.
#[derive(Clone, Copy, Debug, PartialEq, Eq, Structural)]
pub enum TimeReading {
    Slot(u64),
    Epoch(u64),
    LeaderScheduleEpoch(u64),
    UnixTimestamp(i64),
}

impl TimeReading {
    /// The signal variant backing this reading.
    pub open spec fn kind(self) -> SignalKind {
        match self {
            TimeReading::Slot(_) => SignalKind::Slot,
            TimeReading::Epoch(_) => SignalKind::Epoch,
            TimeReading::LeaderScheduleEpoch(_) => SignalKind::LeaderScheduleEpoch,
            TimeReading::UnixTimestamp(_) => SignalKind::UnixTimestamp,
        }
    }

    /// The numeric value of the reading, as a mathematical integer.
    /// Comparing values of different kinds is meaningless; every use is
    /// guarded by a kind check.
    pub open spec fn value(self) -> int {
        match self {
            TimeReading::Slot(v) => v as int,
            TimeReading::Epoch(v) => v as int,
            TimeReading::LeaderScheduleEpoch(v) => v as int,
            TimeReading::UnixTimestamp(v) => v as int,
        }
    }

    /// Executable twin of [`Self::kind`].
    pub fn signal_kind(&self) -> (k: SignalKind)
        ensures
            k == self.kind(),
    {
        match self {
            TimeReading::Slot(_) => SignalKind::Slot,
            TimeReading::Epoch(_) => SignalKind::Epoch,
            TimeReading::LeaderScheduleEpoch(_) => SignalKind::LeaderScheduleEpoch,
            TimeReading::UnixTimestamp(_) => SignalKind::UnixTimestamp,
        }
    }
}

/// The host-supplied clock record, read-only, fetched at most once per
/// invocation.
#[derive(Clone, Copy, Debug, PartialEq, Eq, Structural)]
pub struct ClockSnapshot {
    pub slot: u64,
    pub epoch: u64,
    pub leader_schedule_epoch: u64,
    pub unix_timestamp: i64,
    pub epoch_start_timestamp: i64,
}

/// The reading that a snapshot yields for a given signal kind.
pub open spec fn spec_signal(snap: ClockSnapshot, kind: SignalKind) -> TimeReading {
    match kind {
        SignalKind::Slot => TimeReading::Slot(snap.slot),
        SignalKind::Epoch => TimeReading::Epoch(snap.epoch),
        SignalKind::LeaderScheduleEpoch => TimeReading::LeaderScheduleEpoch(
            snap.leader_schedule_epoch,
        ),
        SignalKind::UnixTimestamp => TimeReading::UnixTimestamp(snap.unix_timestamp),
    }
}

/// The injected time source: either the host clock was fetched for this
/// invocation, or it was not available at all.
pub struct Oracle {
    snapshot: Option<ClockSnapshot>,
}

impl Oracle {
    /// What the oracle holds: the snapshot fetched for this invocation, if any.
    pub closed spec fn spec_snapshot(self) -> Option<ClockSnapshot> {
        self.snapshot
    }

    /// Wraps the snapshot the host handed over (`None` when the signal could
    /// not be fetched).
    pub fn new(snapshot: Option<ClockSnapshot>) -> (o: Oracle)
        ensures
            o.spec_snapshot() == snapshot,
    {
        Oracle { snapshot }
    }

    /// Returns the single reading of the requested kind for this invocation,
    /// or `OracleUnavailable` when the host signal could not be fetched.
    pub fn read(&self, kind: SignalKind) -> (r: Result<TimeReading, CustodyError>)
        ensures
            r == match self.spec_snapshot() {
                Some(snap) => Ok::<TimeReading, CustodyError>(spec_signal(snap, kind)),
                None => Err::<TimeReading, CustodyError>(CustodyError::OracleUnavailable),
            },
    {
        match &self.snapshot {
            Some(snap) => Ok(
                match kind {
                    SignalKind::Slot => TimeReading::Slot(snap.slot),
                    SignalKind::Epoch => TimeReading::Epoch(snap.epoch),
                    SignalKind::LeaderScheduleEpoch => TimeReading::LeaderScheduleEpoch(
                        snap.leader_schedule_epoch,
                    ),
                    SignalKind::UnixTimestamp => TimeReading::UnixTimestamp(snap.unix_timestamp),
                },
            ),
            None => Err(CustodyError::OracleUnavailable),
        }
    }
}

/// The relative order of two readings of the same kind.
#[derive(Clone, Copy, Debug, PartialEq, Eq, Structural)]
pub enum TimeOrder {
    Less,
    Equal,
    Greater,
}

/// The order of two mathematical integers.
pub open spec fn spec_order(x: int, y: int) -> TimeOrder {
    if x < y {
        TimeOrder::Less
    } else if x == y {
        TimeOrder::Equal
    } else {
        TimeOrder::Greater
    }
}

/// How `a` compares to `b`: their numeric order when both carry the same
/// signal, and `SignalMismatch` otherwise. This is the enforcement point for
/// signal purity; nothing ever coerces one variant into another.
pub open spec fn spec_compare(a: TimeReading, b: TimeReading) -> Result<TimeOrder, CustodyError> {
    if a.kind() != b.kind() {
        Err(CustodyError::SignalMismatch)
    } else {
        Ok(spec_order(a.value(), b.value()))
    }
}

/// Executable twin of [`spec_order`] for `u64` values.
fn order_u64(x: u64, y: u64) -> (r: TimeOrder)
    ensures
        r == spec_order(x as int, y as int),
{
    if x < y {
        TimeOrder::Less
    } else if x == y {
        TimeOrder::Equal
    } else {
        TimeOrder::Greater
    }
}

/// Executable twin of [`spec_order`] for `i64` values.
fn order_i64(x: i64, y: i64) -> (r: TimeOrder)
    ensures
        r == spec_order(x as int, y as int),
{
    if x < y {
        TimeOrder::Less
    } else if x == y {
        TimeOrder::Equal
    } else {
        TimeOrder::Greater
    }
}

/// Compares two readings, failing with `SignalMismatch` when their variants
/// differ.
pub fn compare(a: &TimeReading, b: &TimeReading) -> (r: Result<TimeOrder, CustodyError>)
    ensures
        r == spec_compare(*a, *b),
{
    match (a, b) {
        (TimeReading::Slot(x), TimeReading::Slot(y)) => Ok(order_u64(*x, *y)),
        (TimeReading::Epoch(x), TimeReading::Epoch(y)) => Ok(order_u64(*x, *y)),
        (TimeReading::LeaderScheduleEpoch(x), TimeReading::LeaderScheduleEpoch(y)) => Ok(
            order_u64(*x, *y),
        ),
        (TimeReading::UnixTimestamp(x), TimeReading::UnixTimestamp(y)) => Ok(order_i64(*x, *y)),
        _ => Err(CustodyError::SignalMismatch),
    }
}

/// An `i64` read from eight little-endian bytes.
pub open spec fn spec_i64_from_le_bytes(s: Seq<u8>) -> i64 {
    spec_u64_from_le_bytes(s) as i64
}

/// Reads an `i64` from eight little-endian bytes.
pub fn i64_from_le_bytes(s: &[u8]) -> (x: i64)
    requires
        s@.len() == 8,
    ensures
        x == spec_i64_from_le_bytes(s@),
{
    #[verifier::truncate] (u64_from_le_bytes(s) as i64)
}

/// The byte width of the host clock record: five 8-byte little-endian fields.
pub const CLOCK_WIDTH: usize = 40;

/// The snapshot that 40 little-endian clock bytes decode to, in the host's
/// field order: slot, epoch start timestamp, epoch, leader-schedule epoch,
/// unix timestamp.
pub open spec fn spec_decode_clock(s: Seq<u8>) -> ClockSnapshot {
    ClockSnapshot {
        slot: spec_u64_from_le_bytes(s.subrange(0, 8)),
        epoch_start_timestamp: spec_i64_from_le_bytes(s.subrange(8, 16)),
        epoch: spec_u64_from_le_bytes(s.subrange(16, 24)),
        leader_schedule_epoch: spec_u64_from_le_bytes(s.subrange(24, 32)),
        unix_timestamp: spec_i64_from_le_bytes(s.subrange(32, 40)),
    }
}

/// Decodes the host clock record from a sysvar account's bytes, failing with
/// `OracleUnavailable` when the buffer does not hold a whole record.
pub fn decode_clock(bytes: &[u8]) -> (r: Result<ClockSnapshot, CustodyError>)
    ensures
        r == if bytes@.len() == CLOCK_WIDTH {
            Ok::<ClockSnapshot, CustodyError>(spec_decode_clock(bytes@))
        } else {
            Err::<ClockSnapshot, CustodyError>(CustodyError::OracleUnavailable)
        },
{
    if bytes.len() != CLOCK_WIDTH {
        return Err(CustodyError::OracleUnavailable);
    }
    let slot = u64_from_le_bytes(slice_subrange(bytes, 0, 8));
    let epoch_start_timestamp = i64_from_le_bytes(slice_subrange(bytes, 8, 16));
    let epoch = u64_from_le_bytes(slice_subrange(bytes, 16, 24));
    let leader_schedule_epoch = u64_from_le_bytes(slice_subrange(bytes, 24, 32));
    let unix_timestamp = i64_from_le_bytes(slice_subrange(bytes, 32, 40));
    Ok(
        ClockSnapshot {
            slot,
            epoch,
            leader_schedule_epoch,
            unix_timestamp,
            epoch_start_timestamp,
        },
    )
}

} // verus!
