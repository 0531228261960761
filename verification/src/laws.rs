//! The global guarantees of the engine, stated and proved once over the
//! specs that the contracts of `policy`, `executor` and `engine` use.

use vstd::prelude::*;

use crate::codec::{lemma_decode_encode, lemma_encode_decode, spec_decode, spec_encode};
use crate::engine::{spec_parse_instruction, spec_process, spec_step};
use crate::errors::CustodyError;
use crate::executor::spec_apply;
use crate::policy::{spec_decide, Action, Decision, Policy, PolicyFamily};
use crate::record::{InitPolicy, RecordModel, RecordStatus};
use crate::time::{spec_compare, ClockSnapshot, TimeReading};

verus! {

/// Settlement of a time lock never succeeds strictly before the unlock
/// deadline, whatever the record, the reading or the policy instance.
pub proof fn lemma_no_early_settlement(p: Policy, r: RecordModel, reading: TimeReading)
    ensures
        p.family == PolicyFamily::TimeLock && spec_decide(p, r, reading, Action::Settle) is Ok
            ==> reading.value() >= r.deadline.value(),
{
}

/// A proposed value is never accepted at or after the deadline, whatever the
/// record, the reading, the amount or the policy instance.
pub proof fn lemma_no_late_proposal(p: Policy, r: RecordModel, reading: TimeReading, amount: u64)
    ensures
        spec_decide(p, r, reading, Action::Propose { amount }) is Ok ==> reading.value()
            < r.deadline.value(),
{
}

/// On an open, signal-pure record, settlement of a time lock succeeds exactly
/// when the reading is at or after the deadline.
pub proof fn lemma_settlement_iff(p: Policy, r: RecordModel, reading: TimeReading)
    requires
        p.family == PolicyFamily::TimeLock,
        r.status == RecordStatus::Open,
        p.signal == r.deadline.kind(),
        reading.kind() == r.deadline.kind(),
    ensures
        spec_decide(p, r, reading, Action::Settle) is Ok <==> reading.value()
            >= r.deadline.value(),
        reading.value() < r.deadline.value() ==> spec_decide(p, r, reading, Action::Settle) == Err::<
            Decision,
            CustodyError,
        >(CustodyError::TooEarly),
{
}

/// On an open, signal-pure auction record, a bid is accepted exactly when it
/// comes strictly before the deadline, reaches the reserve, and strictly
/// outbids the stored amount; an equal bid is rejected.
pub proof fn lemma_bid_iff(p: Policy, r: RecordModel, reading: TimeReading, amount: u64)
    requires
        p.family == PolicyFamily::Auction,
        r.status == RecordStatus::Open,
        p.signal == r.deadline.kind(),
        reading.kind() == r.deadline.kind(),
    ensures
        spec_decide(p, r, reading, Action::Propose { amount }) is Ok <==> reading.value()
            < r.deadline.value() && amount >= p.reserve && amount > r.amount,
{
}

/// Settling is idempotent in effect: once a settle step has succeeded, a
/// second settle on the resulting record fails with `AlreadySettled` for
/// every later reading and claimant, so the stored amount after the second
/// call equals the amount after the first.
pub proof fn lemma_settle_idempotent(
    p: Policy,
    r: RecordModel,
    reading1: TimeReading,
    c1: Seq<u8>,
    reading2: TimeReading,
    c2: Seq<u8>,
)
    requires
        spec_step(p, r, reading1, Action::Settle, c1) is Ok,
    ensures
        spec_step(
            p,
            spec_step(p, r, reading1, Action::Settle, c1)->Ok_0,
            reading2,
            Action::Settle,
            c2,
        ) == Err::<RecordModel, CustodyError>(CustodyError::AlreadySettled),
{
}

/// Settling is idempotent at the stored-bytes level too: after one handled
/// request settled a persisted record, handling a second settle request
/// against the bytes it wrote fails with `AlreadySettled`, for every later
/// snapshot, claimant and initialization policy — so the persisted amount
/// after the second request equals the amount after the first.
pub proof fn lemma_process_settle_twice(
    buffer: Seq<u8>,
    p: Policy,
    snap1: Option<ClockSnapshot>,
    snap2: Option<ClockSnapshot>,
    instr: Seq<u8>,
    c1: Seq<u8>,
    c2: Seq<u8>,
    init: InitPolicy,
)
    requires
        buffer.len() != 0,
        spec_parse_instruction(instr) == Ok::<Action, CustodyError>(Action::Settle),
        spec_process(buffer, p, snap1, instr, c1, init) is Ok,
        snap2 is Some,
    ensures
        spec_process(
            spec_encode(spec_process(buffer, p, snap1, instr, c1, init)->Ok_0),
            p,
            snap2,
            instr,
            c2,
            init,
        ) == Err::<RecordModel, CustodyError>(CustodyError::AlreadySettled),
{
    let stored = spec_decode(buffer)->Some_0;
    lemma_encode_decode(buffer);
    let settled = spec_process(buffer, p, snap1, instr, c1, init)->Ok_0;
    assert(settled.counterparty == stored.counterparty);
    assert(settled.wf());
    lemma_decode_encode(settled);
    assert(spec_encode(settled).len() == 50);
}

/// A credit that would overflow the stored amount is rejected with
/// `ArithmeticFault`; no wrap and no saturation ever reaches the record.
pub proof fn lemma_credit_overflow_rejected(r: RecordModel, delta: u64, claimant: Seq<u8>)
    ensures
        r.amount + delta > u64::MAX ==> spec_apply(
            r,
            Decision::AcceptCredit { delta },
            claimant,
        ) == Err::<RecordModel, CustodyError>(CustodyError::ArithmeticFault),
        r.amount + delta <= u64::MAX ==> spec_apply(r, Decision::AcceptCredit { delta }, claimant)
            is Ok,
{
}

/// Comparing two readings fails exactly when their signal variants differ:
/// a mixed comparison is reported, never silently coerced.
pub proof fn lemma_compare_pure(a: TimeReading, b: TimeReading)
    ensures
        spec_compare(a, b) is Err <==> a.kind() != b.kind(),
        spec_compare(a, b) is Err ==> spec_compare(a, b) == Err::<
            crate::time::TimeOrder,
            CustodyError,
        >(CustodyError::SignalMismatch),
{
}

/// On an open record, a reading of a foreign signal variant is rejected with
/// `SignalMismatch` for every action; no transition can be gated on it.
pub proof fn lemma_signal_purity(p: Policy, r: RecordModel, reading: TimeReading, action: Action)
    requires
        r.status == RecordStatus::Open,
        reading.kind() != r.deadline.kind(),
    ensures
        spec_decide(p, r, reading, action) == Err::<Decision, CustodyError>(
            CustodyError::SignalMismatch,
        ),
{
}

/// One auction bid as run against a record: its reading, its amount and the
/// claimant proposing it.
pub ghost struct Bid {
    pub reading: TimeReading,
    pub amount: u64,
    pub claimant: Seq<u8>,
}

/// The record a sequence of bids leaves behind: each bid is offered in turn,
/// an accepted one replaces the stored amount and claimant, and a rejected
/// one leaves the record exactly as it was.
pub open spec fn spec_run_bids(p: Policy, r: RecordModel, bids: Seq<Bid>) -> RecordModel
    decreases bids.len(),
{
    if bids.len() == 0 {
        r
    } else {
        let b = bids[0];
        let r1 = match spec_step(p, r, b.reading, Action::Propose { amount: b.amount }, b.claimant) {
            Ok(r2) => r2,
            Err(_) => r,
        };
        spec_run_bids(p, r1, bids.drop_first())
    }
}

/// Monotonic custody: across any sequence of bids against an auction record,
/// the stored amount never decreases; and either no bid was accepted (amount
/// and counterparty are untouched) or the recorded counterparty is the
/// claimant of a bid whose amount is exactly the current stored amount.
pub proof fn lemma_bids_monotonic(p: Policy, r: RecordModel, bids: Seq<Bid>)
    requires
        p.family == PolicyFamily::Auction,
    ensures
        spec_run_bids(p, r, bids).amount >= r.amount,
        (spec_run_bids(p, r, bids).amount == r.amount && spec_run_bids(p, r, bids).counterparty
            == r.counterparty) || (exists|i: int|
            0 <= i < bids.len() && bids[i].amount == spec_run_bids(p, r, bids).amount
                && bids[i].claimant == spec_run_bids(p, r, bids).counterparty),
    decreases bids.len(),
{
    if bids.len() == 0 {
    } else {
        let b = bids[0];
        let step = spec_step(p, r, b.reading, Action::Propose { amount: b.amount }, b.claimant);
        let r1 = match step {
            Ok(r2) => r2,
            Err(_) => r,
        };
        let fin = spec_run_bids(p, r1, bids.drop_first());
        lemma_bids_monotonic(p, r1, bids.drop_first());
        assert(spec_run_bids(p, r, bids) == fin);
        if step is Ok {
            assert(r1.amount > r.amount);
            assert(r1.counterparty == b.claimant);
        }
        if fin.amount == r1.amount && fin.counterparty == r1.counterparty {
            if step is Ok {
                assert(bids[0].amount == fin.amount && bids[0].claimant == fin.counterparty);
            }
        } else {
            let j = choose|j: int|
                0 <= j < bids.drop_first().len() && bids.drop_first()[j].amount == fin.amount
                    && bids.drop_first()[j].claimant == fin.counterparty;
            assert(bids[j + 1].amount == fin.amount && bids[j + 1].claimant == fin.counterparty);
        }
    }
}

} // verus!
