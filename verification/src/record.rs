//! The custody record: the state persisted in one ledger account.

use vstd::prelude::*;

use crate::time::TimeReading;

verus! {

/// The explicit lifecycle tag of a custody record.
#[derive(Clone, Copy, Debug, PartialEq, Eq, Structural)]
pub enum RecordStatus {
    /// The account has never been written; no record exists yet.
    Uninitialized,
    /// Custody is live: bids, credits and settlement may apply.
    Open,
    /// Custody was released; no further transfer applies.
    Settled,
    /// The deadline passed without settlement; only reclaiming remains legal.
    Expired,
}

/// One custody record, as persisted in a ledger account.
#[derive(Clone, Copy, Debug)]
pub struct CustodyRecord {
    /// The stored point after or before which a transition becomes legal.
    pub deadline: TimeReading,
    /// The value currently held in custody.
    pub amount: u64,
    /// The current claimant, bidder or owner; all-zero when unset.
    pub counterparty: [u8; 32],
    /// The explicit lifecycle tag.
    pub status: RecordStatus,
}

/// An all-zero counterparty, meaning "no claimant recorded".
pub open spec fn spec_no_counterparty() -> Seq<u8> {
    Seq::new(32, |i: int| 0u8)
}

/// Builds the all-zero counterparty.
pub fn no_counterparty() -> (c: [u8; 32])
    ensures
        c@ == spec_no_counterparty(),
{
    let c = [0u8; 32];
    proof {
        assert(c@ =~= spec_no_counterparty());
    }
    c
}

/// The mathematical model of a custody record: the same fields, with the
/// counterparty as a byte sequence.
#[verifier::ext_equal]
pub ghost struct RecordModel {
    pub deadline: TimeReading,
    pub amount: u64,
    pub counterparty: Seq<u8>,
    pub status: RecordStatus,
}

impl RecordModel {
    /// A model is well formed when its counterparty holds exactly 32 bytes.
    pub open spec fn wf(self) -> bool {
        self.counterparty.len() == 32
    }
}

impl View for CustodyRecord {
    type V = RecordModel;

    open spec fn view(&self) -> RecordModel {
        RecordModel {
            deadline: self.deadline,
            amount: self.amount,
            counterparty: self.counterparty@,
            status: self.status,
        }
    }
}

/// What the codec writes into an account on first touch.
#[derive(Clone, Copy, Debug)]
pub struct InitPolicy {
    /// The initial deadline; this fixes the record's signal variant for life.
    pub deadline: TimeReading,
    /// The initial custody amount.
    pub amount: u64,
    /// The initial lifecycle tag; ordinarily `Open`.
    pub status: RecordStatus,
}

/// The record a fresh account starts with under `init`: its deadline, amount
/// and status come from the policy, and no counterparty is recorded yet.
pub open spec fn spec_init_model(init: InitPolicy) -> RecordModel {
    RecordModel {
        deadline: init.deadline,
        amount: init.amount,
        counterparty: spec_no_counterparty(),
        status: init.status,
    }
}

/// Builds the fresh record that an empty account is initialized with.
pub fn init_record(init: &InitPolicy) -> (r: CustodyRecord)
    ensures
        r@ == spec_init_model(*init),
{
    let r = CustodyRecord {
        deadline: init.deadline,
        amount: init.amount,
        counterparty: no_counterparty(),
        status: init.status,
    };
    proof {
        assert(r@ =~= spec_init_model(*init));
    }
    r
}

} // verus!
