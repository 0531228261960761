//! The value transfer executor.
//!
//! Carries out a decision the policy found legal, using checked arithmetic
//! only. It is a pure function from the old record to the new one; the caller
//! persists the result only after success, so a failed update never leaves a
//! partial write behind.

use vstd::prelude::*;

use crate::errors::CustodyError;
use crate::policy::Decision;
use crate::record::{CustodyRecord, RecordModel, RecordStatus};

verus! {

/// What `apply` produces for a record, decision and claimant.
///
/// * An accepted bid replaces the stored amount outright and records the
///   claimant; no arithmetic is involved.
/// * An accepted credit adds to the stored amount; a sum that would not fit
///   in a `u64` is an `ArithmeticFault`, never a wrap or a saturation.
/// * A release settles the record and resets its amount to zero, leaving the
///   recorded counterparty in place.
pub open spec fn spec_apply(r: RecordModel, d: Decision, claimant: Seq<u8>) -> Result<
    RecordModel,
    CustodyError,
> {
    match d {
        Decision::AcceptBid { amount } => Ok(
            RecordModel { amount, counterparty: claimant, ..r },
        ),
        Decision::AcceptCredit { delta } => {
            if r.amount + delta > u64::MAX {
                Err(CustodyError::ArithmeticFault)
            } else {
                Ok(RecordModel { amount: (r.amount + delta) as u64, ..r })
            }
        },
        Decision::Release => Ok(
            RecordModel { amount: 0, status: RecordStatus::Settled, ..r },
        ),
    }
}

/// Carries out a legal decision on a record, with checked arithmetic. The
/// record handed back is freshly built; the stored one is untouched until
/// the caller persists the result.
pub fn apply(r: &CustodyRecord, d: &Decision, claimant: &[u8; 32]) -> (res: Result<
    CustodyRecord,
    CustodyError,
>)
    ensures
        match res {
            Ok(r2) => spec_apply(r@, *d, claimant@) == Ok::<RecordModel, CustodyError>(r2@),
            Err(e) => spec_apply(r@, *d, claimant@) == Err::<RecordModel, CustodyError>(e),
        },
{
    match d {
        Decision::AcceptBid { amount } => {
            let r2 = CustodyRecord { amount: *amount, counterparty: *claimant, ..*r };
            proof {
                assert(r2@ =~= RecordModel { amount: *amount, counterparty: claimant@, ..r@ });
            }
            Ok(r2)
        },
        Decision::AcceptCredit { delta } => {
            match r.amount.checked_add(*delta) {
                Some(sum) => {
                    let r2 = CustodyRecord { amount: sum, ..*r };
                    proof {
                        assert(r2@ =~= RecordModel { amount: sum, ..r@ });
                    }
                    Ok(r2)
                },
                None => Err(CustodyError::ArithmeticFault),
            }
        },
        Decision::Release => {
            let r2 = CustodyRecord { amount: 0, status: RecordStatus::Settled, ..*r };
            proof {
                assert(r2@ =~= RecordModel { amount: 0u64, status: RecordStatus::Settled, ..r@ });
            }
            Ok(r2)
        },
    }
}

/// Moves value between two custody holders: the debit from the source and
/// the credit to the destination are validated together before either leg is
/// committed, so a failure on the second leg can never leave funds debited
/// without a matching credit. `ArithmeticFault` exactly when the source
/// cannot cover the amount or the destination sum would not fit.
pub fn transfer(src: &CustodyRecord, dst: &CustodyRecord, amount: u64) -> (res: Result<
    (CustodyRecord, CustodyRecord),
    CustodyError,
>)
    ensures
        match res {
            Ok((src2, dst2)) => {
                &&& src@.amount >= amount
                &&& dst@.amount + amount <= u64::MAX
                &&& src2@ == RecordModel { amount: (src@.amount - amount) as u64, ..src@ }
                &&& dst2@ == RecordModel { amount: (dst@.amount + amount) as u64, ..dst@ }
            },
            Err(e) => {
                &&& e == CustodyError::ArithmeticFault
                &&& (src@.amount < amount || dst@.amount + amount > u64::MAX)
            },
        },
{
    let debited = match src.amount.checked_sub(amount) {
        Some(v) => v,
        None => { return Err(CustodyError::ArithmeticFault) },
    };
    let credited = match dst.amount.checked_add(amount) {
        Some(v) => v,
        None => { return Err(CustodyError::ArithmeticFault) },
    };
    let src2 = CustodyRecord { amount: debited, ..*src };
    let dst2 = CustodyRecord { amount: credited, ..*dst };
    proof {
        assert(src2@ =~= RecordModel { amount: debited, ..src@ });
        assert(dst2@ =~= RecordModel { amount: credited, ..dst@ });
    }
    Ok((src2, dst2))
}

/// A successful two-leg transfer conserves the total value held across the
/// two records: nothing is minted and nothing is lost.
pub proof fn lemma_transfer_conserves(src: RecordModel, dst: RecordModel, amount: u64)
    requires
        src.amount >= amount,
        dst.amount + amount <= u64::MAX,
    ensures
        (src.amount - amount) + (dst.amount + amount) == src.amount + dst.amount,
{
}

} // verus!
