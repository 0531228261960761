//! The custody policy: the gating state machine.
//!
//! Given one cached time reading and the stored record, the policy decides
//! whether a transition is currently legal. Checks are judged in a fixed
//! order: the lifecycle status first, then signal purity, then the time gate,
//! then the value rule. The policy never mutates anything; the decision it
//! returns is carried out by the transfer executor.

use vstd::prelude::*;

use crate::errors::CustodyError;
use crate::record::{CustodyRecord, RecordModel, RecordStatus};
use crate::time::{compare, SignalKind, TimeOrder, TimeReading};

verus! {

/// The two mutually exclusive gating families. A policy instance selects one
/// at construction time and never flips mid-lifecycle.
#[derive(Clone, Copy, Debug, PartialEq, Eq, Structural)]
pub enum PolicyFamily {
    /// Custody is released at or after the deadline; deposits are accepted
    /// strictly before it.
    TimeLock,
    /// Bids are accepted strictly before the deadline; an authorized close
    /// settles the record.
    Auction,
}

/// One policy instance: the family, the single time signal it trusts, and
/// the inclusive reserve every proposed value must reach.
#[derive(Clone, Copy, Debug, PartialEq, Eq, Structural)]
pub struct Policy {
    pub family: PolicyFamily,
    pub signal: SignalKind,
    pub reserve: u64,
}

/// A requested transition, decoded from the instruction payload.
#[derive(Clone, Copy, Debug, PartialEq, Eq, Structural)]
pub enum Action {
    /// Propose a value: a bid (auction) or a deposit (time lock).
    Propose { amount: u64 },
    /// Claim, settle or withdraw.
    Settle,
}

/// A transition the policy found legal, ready for the transfer executor.
#[derive(Clone, Copy, Debug, PartialEq, Eq, Structural)]
pub enum Decision {
    /// Replace the stored bid and record the proposing claimant.
    AcceptBid { amount: u64 },
    /// Credit the proposed value into custody.
    AcceptCredit { delta: u64 },
    /// Release custody and settle the record.
    Release,
}

/// What `decide` rules for a given policy, record, reading and action.
///
/// * A `Settled` record only ever yields `AlreadySettled`; an `Expired` one
///   `Expired`; a record still tagged `Uninitialized` is corrupt.
/// * A reading whose variant differs from the record's deadline variant, or a
///   policy constructed against another variant than the record, yields
///   `SignalMismatch` and is never coerced.
/// * A proposal is gated on the reading being strictly before the deadline
///   (`TooLate` otherwise), then on the value rule: at least the reserve and,
///   for an auction, strictly above the stored amount (`ValueTooLow`); a
///   deposit must be nonzero to strictly improve custody.
/// * Settlement of a time lock is gated on the reading being at or after the
///   deadline (`TooEarly` otherwise); an auction close is an authorized early
///   settlement and carries no time gate.
pub open spec fn spec_decide(
    p: Policy,
    r: RecordModel,
    reading: TimeReading,
    action: Action,
) -> Result<Decision, CustodyError> {
    if r.status == RecordStatus::Uninitialized {
        Err(CustodyError::CorruptRecord)
    } else if r.status == RecordStatus::Settled {
        Err(CustodyError::AlreadySettled)
    } else if r.status == RecordStatus::Expired {
        Err(CustodyError::Expired)
    } else if p.signal != r.deadline.kind() || reading.kind() != r.deadline.kind() {
        Err(CustodyError::SignalMismatch)
    } else {
        match action {
            Action::Propose { amount } => {
                if reading.value() >= r.deadline.value() {
                    Err(CustodyError::TooLate)
                } else if amount < p.reserve {
                    Err(CustodyError::ValueTooLow)
                } else {
                    match p.family {
                        PolicyFamily::Auction => {
                            if amount <= r.amount {
                                Err(CustodyError::ValueTooLow)
                            } else {
                                Ok(Decision::AcceptBid { amount })
                            }
                        },
                        PolicyFamily::TimeLock => {
                            if amount == 0 {
                                Err(CustodyError::ValueTooLow)
                            } else {
                                Ok(Decision::AcceptCredit { delta: amount })
                            }
                        },
                    }
                }
            },
            Action::Settle => {
                match p.family {
                    PolicyFamily::TimeLock => {
                        if reading.value() < r.deadline.value() {
                            Err(CustodyError::TooEarly)
                        } else {
                            Ok(Decision::Release)
                        }
                    },
                    PolicyFamily::Auction => Ok(Decision::Release),
                }
            },
        }
    }
}

impl Policy {
    /// Decides whether the requested transition is currently legal, judging
    /// the cached reading against the stored record. See [`spec_decide`] for
    /// the exact rule; the decision is a pure function of the arguments and
    /// mutates nothing.
    pub fn decide(&self, r: &CustodyRecord, reading: &TimeReading, action: Action) -> (d: Result<
        Decision,
        CustodyError,
    >)
        ensures
            d == spec_decide(*self, r@, *reading, action),
    {
        match r.status {
            RecordStatus::Uninitialized => Err(CustodyError::CorruptRecord),
            RecordStatus::Settled => Err(CustodyError::AlreadySettled),
            RecordStatus::Expired => Err(CustodyError::Expired),
            RecordStatus::Open => {
                if self.signal != r.deadline.signal_kind() {
                    return Err(CustodyError::SignalMismatch);
                }
                let order = match compare(reading, &r.deadline) {
                    Ok(o) => o,
                    Err(e) => { return Err(e) },
                };
                match action {
                    Action::Propose { amount } => {
                        if matches!(order, TimeOrder::Equal | TimeOrder::Greater) {
                            Err(CustodyError::TooLate)
                        } else if amount < self.reserve {
                            Err(CustodyError::ValueTooLow)
                        } else {
                            match self.family {
                                PolicyFamily::Auction => {
                                    if amount <= r.amount {
                                        Err(CustodyError::ValueTooLow)
                                    } else {
                                        Ok(Decision::AcceptBid { amount })
                                    }
                                },
                                PolicyFamily::TimeLock => {
                                    if amount == 0 {
                                        Err(CustodyError::ValueTooLow)
                                    } else {
                                        Ok(Decision::AcceptCredit { delta: amount })
                                    }
                                },
                            }
                        }
                    },
                    Action::Settle => {
                        match self.family {
                            PolicyFamily::TimeLock => {
                                if matches!(order, TimeOrder::Less) {
                                    Err(CustodyError::TooEarly)
                                } else {
                                    Ok(Decision::Release)
                                }
                            },
                            PolicyFamily::Auction => Ok(Decision::Release),
                        }
                    },
                }
            },
        }
    }
}

/// What `expire` rules: marking a record expired is an auction-family action
/// (a time lock has no expiry), legal on an open record once the reading is
/// strictly past the deadline.
pub open spec fn spec_expire(p: Policy, r: RecordModel, reading: TimeReading) -> Result<
    RecordModel,
    CustodyError,
> {
    if r.status == RecordStatus::Uninitialized {
        Err(CustodyError::CorruptRecord)
    } else if r.status == RecordStatus::Settled {
        Err(CustodyError::AlreadySettled)
    } else if r.status == RecordStatus::Expired {
        Err(CustodyError::Expired)
    } else if p.family != PolicyFamily::Auction {
        Err(CustodyError::InvalidInstruction)
    } else if p.signal != r.deadline.kind() || reading.kind() != r.deadline.kind() {
        Err(CustodyError::SignalMismatch)
    } else if reading.value() <= r.deadline.value() {
        Err(CustodyError::TooEarly)
    } else {
        Ok(RecordModel { status: RecordStatus::Expired, ..r })
    }
}

/// Marks an open auction record expired once its deadline has strictly
/// passed without settlement; amount and counterparty stay untouched, and
/// the resulting state is terminal.
pub fn expire(p: &Policy, r: &CustodyRecord, reading: &TimeReading) -> (res: Result<
    CustodyRecord,
    CustodyError,
>)
    ensures
        match res {
            Ok(r2) => spec_expire(*p, r@, *reading) == Ok::<RecordModel, CustodyError>(r2@),
            Err(e) => spec_expire(*p, r@, *reading) == Err::<RecordModel, CustodyError>(e),
        },
{
    match r.status {
        RecordStatus::Uninitialized => Err(CustodyError::CorruptRecord),
        RecordStatus::Settled => Err(CustodyError::AlreadySettled),
        RecordStatus::Expired => Err(CustodyError::Expired),
        RecordStatus::Open => {
            if !matches!(p.family, PolicyFamily::Auction) {
                return Err(CustodyError::InvalidInstruction);
            }
            if p.signal != r.deadline.signal_kind() {
                return Err(CustodyError::SignalMismatch);
            }
            let order = match compare(reading, &r.deadline) {
                Ok(o) => o,
                Err(e) => { return Err(e) },
            };
            if matches!(order, TimeOrder::Less | TimeOrder::Equal) {
                Err(CustodyError::TooEarly)
            } else {
                let r2 = CustodyRecord { status: RecordStatus::Expired, ..*r };
                proof {
                    assert(r2@ =~= RecordModel { status: RecordStatus::Expired, ..r@ });
                }
                Ok(r2)
            }
        },
    }
}

/// Reads the amount reclaimable from an expired record. This is the only
/// action legal after expiry, and it mutates nothing.
pub fn reclaim(r: &CustodyRecord) -> (res: Result<u64, CustodyError>)
    ensures
        match res {
            Ok(amount) => r@.status == RecordStatus::Expired && amount == r@.amount,
            Err(e) => r@.status != RecordStatus::Expired && e == match r@.status {
                RecordStatus::Uninitialized => CustodyError::CorruptRecord,
                RecordStatus::Settled => CustodyError::AlreadySettled,
                _ => CustodyError::TooEarly,
            },
        },
{
    match r.status {
        RecordStatus::Uninitialized => Err(CustodyError::CorruptRecord),
        RecordStatus::Settled => Err(CustodyError::AlreadySettled),
        RecordStatus::Open => Err(CustodyError::TooEarly),
        RecordStatus::Expired => Ok(r.amount),
    }
}

} // verus!
