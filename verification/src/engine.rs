//! The account lifecycle controller.
//!
//! One inbound request is handled to completion: an empty account is
//! initialized and the invocation ends there; otherwise the stored record is
//! loaded, the single time reading for this invocation is fetched, the policy
//! decides, the executor mutates, and only then is the record stored back.
//! Any failure at any stage discards all in-memory mutations: nothing is
//! written unless the full chain succeeds.

use vstd::prelude::*;
use vstd::bytes::{spec_u64_from_le_bytes, u64_from_le_bytes};
use vstd::slice::{slice_index_get, slice_subrange};

use crate::codec::{load_or_init, save_to_account, spec_decode, spec_encode};
use crate::errors::CustodyError;
use crate::executor::{apply, spec_apply};
use crate::policy::{spec_decide, Action, Policy};
use crate::record::{spec_init_model, CustodyRecord, InitPolicy, RecordModel};
use crate::time::{spec_signal, ClockSnapshot, Oracle, TimeReading};

verus! {

/// What one handled request did to the account.
#[derive(Clone, Copy, Debug)]
pub enum Outcome {
    /// The account was empty; it now holds the fresh record, and first-touch
    /// initialization is terminal for this invocation.
    Initialized,
    /// The stored record was transitioned to the returned state.
    Applied(CustodyRecord),
}

/// The action a payload decodes to: the first byte selects it (0 proposes a
/// value, 1 settles), and a proposal carries exactly eight little-endian
/// amount bytes. Anything else is `InvalidInstruction`.
pub open spec fn spec_parse_instruction(s: Seq<u8>) -> Result<Action, CustodyError> {
    if s.len() == 0 {
        Err(CustodyError::InvalidInstruction)
    } else if s[0] == 0 && s.len() == 9 {
        Ok(Action::Propose { amount: spec_u64_from_le_bytes(s.subrange(1, 9)) })
    } else if s[0] == 1 && s.len() == 1 {
        Ok(Action::Settle)
    } else {
        Err(CustodyError::InvalidInstruction)
    }
}

/// Decodes the inbound instruction payload.
pub fn parse_instruction(data: &[u8]) -> (r: Result<Action, CustodyError>)
    ensures
        r == spec_parse_instruction(data@),
{
    if data.len() == 0 {
        return Err(CustodyError::InvalidInstruction);
    }
    let selector = *slice_index_get(data, 0);
    if selector == 0 && data.len() == 9 {
        let amount = u64_from_le_bytes(slice_subrange(data, 1, 9));
        Ok(Action::Propose { amount })
    } else if selector == 1 && data.len() == 1 {
        Ok(Action::Settle)
    } else {
        Err(CustodyError::InvalidInstruction)
    }
}

/// One full step on a loaded record: the policy decides, the executor
/// carries the decision out.
pub open spec fn spec_step(
    p: Policy,
    r: RecordModel,
    reading: TimeReading,
    action: Action,
    claimant: Seq<u8>,
) -> Result<RecordModel, CustodyError> {
    match spec_decide(p, r, reading, action) {
        Ok(d) => spec_apply(r, d, claimant),
        Err(e) => Err(e),
    }
}

/// What `process` returns and writes, as a function of the old buffer, the
/// policy, the oracle snapshot, the payload and the claimant.
pub open spec fn spec_process(
    buffer: Seq<u8>,
    p: Policy,
    snapshot: Option<ClockSnapshot>,
    instruction: Seq<u8>,
    claimant: Seq<u8>,
    init: InitPolicy,
) -> Result<RecordModel, CustodyError> {
    if buffer.len() == 0 {
        Ok(spec_init_model(init))
    } else {
        match spec_decode(buffer) {
            None => Err(CustodyError::CorruptRecord),
            Some(r) => match snapshot {
                None => Err(CustodyError::OracleUnavailable),
                Some(snap) => match spec_parse_instruction(instruction) {
                    Err(e) => Err(e),
                    Ok(action) => spec_step(p, r, spec_signal(snap, p.signal), action, claimant),
                },
            },
        }
    }
}

/// Handles one inbound request against one account buffer.
///
/// An empty buffer is initialized under `init` and the call ends there.
/// Otherwise the stored record is decoded, the one reading of the policy's
/// trusted signal is fetched and reused for every check, the payload is
/// parsed, the policy decides and the executor applies. The new record is
/// persisted only when every stage succeeded; on any failure the buffer is
/// left exactly as it was.
pub fn process(
    buffer: &mut Vec<u8>,
    p: &Policy,
    oracle: &Oracle,
    instruction: &[u8],
    claimant: &[u8; 32],
    init: &InitPolicy,
) -> (res: Result<Outcome, CustodyError>)
    ensures
        ({
            let verdict = spec_process(
                old(buffer)@,
                *p,
                oracle.spec_snapshot(),
                instruction@,
                claimant@,
                *init,
            );
            match res {
                Ok(Outcome::Initialized) => old(buffer)@.len() == 0 && verdict == Ok::<
                    RecordModel,
                    CustodyError,
                >(spec_init_model(*init)) && final(buffer)@ == spec_encode(spec_init_model(*init)),
                Ok(Outcome::Applied(rec)) => old(buffer)@.len() != 0 && verdict == Ok::<
                    RecordModel,
                    CustodyError,
                >(rec@) && final(buffer)@ == spec_encode(rec@),
                Err(e) => verdict == Err::<RecordModel, CustodyError>(e)
                    && final(buffer)@ == old(buffer)@,
            }
        }),
{
    if buffer.len() == 0 {
        // Initializing an empty account cannot fail; the codec's contract
        // rules the error arm out.
        match load_or_init(buffer, init) {
            Ok(_) => { return Ok(Outcome::Initialized) },
            Err(e) => {
                proof {
                    assert(false);
                }
                return Err(e);
            },
        }
    }
    let record = match crate::codec::load_from_account(buffer) {
        Ok(r) => r,
        Err(e) => { return Err(e) },
    };
    let reading = match oracle.read(p.signal) {
        Ok(r) => r,
        Err(e) => { return Err(e) },
    };
    let action = match parse_instruction(instruction) {
        Ok(a) => a,
        Err(e) => { return Err(e) },
    };
    let decision = match p.decide(&record, &reading, action) {
        Ok(d) => d,
        Err(e) => { return Err(e) },
    };
    let updated = match apply(&record, &decision, claimant) {
        Ok(r) => r,
        Err(e) => { return Err(e) },
    };
    save_to_account(buffer, &updated);
    Ok(Outcome::Applied(updated))
}

} // verus!
