//! The account state codec.
//!
//! A custody record is persisted in a fixed-width little-endian layout:
//! deadline tag (1 byte), deadline value (8 bytes), amount (8 bytes),
//! counterparty (32 bytes), status tag (1 byte). Encoding is explicit and
//! field by field; nothing is read through pointer reinterpretation.

use vstd::prelude::*;
use vstd::bytes::{
    lemma_auto_spec_u64_to_from_le_bytes, spec_u64_from_le_bytes, spec_u64_to_le_bytes,
    u64_from_le_bytes, u64_to_le_bytes,
};
use vstd::slice::{slice_index_get, slice_subrange};

use crate::errors::CustodyError;
use crate::record::{spec_init_model, init_record, CustodyRecord, InitPolicy, RecordModel, RecordStatus};
use crate::time::{SignalKind, TimeReading};

verus! {

/// The serialized width of a custody record, in bytes.
pub const RECORD_WIDTH: usize = 50;

/// The layout tag of each signal variant.
pub open spec fn spec_kind_tag(k: SignalKind) -> u8 {
    match k {
        SignalKind::Slot => 0u8,
        SignalKind::Epoch => 1u8,
        SignalKind::LeaderScheduleEpoch => 2u8,
        SignalKind::UnixTimestamp => 3u8,
    }
}

/// The signal variant a layout tag decodes to, if any.
pub open spec fn spec_tag_kind(t: u8) -> Option<SignalKind> {
    if t == 0 {
        Some(SignalKind::Slot)
    } else if t == 1 {
        Some(SignalKind::Epoch)
    } else if t == 2 {
        Some(SignalKind::LeaderScheduleEpoch)
    } else if t == 3 {
        Some(SignalKind::UnixTimestamp)
    } else {
        None
    }
}

/// The layout tag of each lifecycle status.
pub open spec fn spec_status_tag(st: RecordStatus) -> u8 {
    match st {
        RecordStatus::Uninitialized => 0u8,
        RecordStatus::Open => 1u8,
        RecordStatus::Settled => 2u8,
        RecordStatus::Expired => 3u8,
    }
}

/// The lifecycle status a layout tag decodes to, if any.
pub open spec fn spec_tag_status(t: u8) -> Option<RecordStatus> {
    if t == 0 {
        Some(RecordStatus::Uninitialized)
    } else if t == 1 {
        Some(RecordStatus::Open)
    } else if t == 2 {
        Some(RecordStatus::Settled)
    } else if t == 3 {
        Some(RecordStatus::Expired)
    } else {
        None
    }
}

/// The deadline value as raw bits: a timestamp is stored in two's complement.
pub open spec fn spec_deadline_bits(d: TimeReading) -> u64 {
    match d {
        TimeReading::Slot(v) => v,
        TimeReading::Epoch(v) => v,
        TimeReading::LeaderScheduleEpoch(v) => v,
        TimeReading::UnixTimestamp(t) => t as u64,
    }
}

/// The reading a signal variant and raw deadline bits decode to.
pub open spec fn spec_reading(k: SignalKind, bits: u64) -> TimeReading {
    match k {
        SignalKind::Slot => TimeReading::Slot(bits),
        SignalKind::Epoch => TimeReading::Epoch(bits),
        SignalKind::LeaderScheduleEpoch => TimeReading::LeaderScheduleEpoch(bits),
        SignalKind::UnixTimestamp => TimeReading::UnixTimestamp(bits as i64),
    }
}

/// The 50 bytes a record serializes to.
pub open spec fn spec_encode(r: RecordModel) -> Seq<u8> {
    seq![spec_kind_tag(r.deadline.kind())] + spec_u64_to_le_bytes(spec_deadline_bits(r.deadline))
        + spec_u64_to_le_bytes(r.amount) + r.counterparty + seq![spec_status_tag(r.status)]
}

/// The record a byte sequence decodes to: `None` when the width is wrong or a
/// tag is out of range.
pub open spec fn spec_decode(s: Seq<u8>) -> Option<RecordModel> {
    if s.len() != RECORD_WIDTH {
        None
    } else {
        match (spec_tag_kind(s[0]), spec_tag_status(s[49])) {
            (Some(kind), Some(status)) => Some(
                RecordModel {
                    deadline: spec_reading(kind, spec_u64_from_le_bytes(s.subrange(1, 9))),
                    amount: spec_u64_from_le_bytes(s.subrange(9, 17)),
                    counterparty: s.subrange(17, 49),
                    status,
                },
            ),
            _ => None,
        }
    }
}

/// Storing a timestamp as raw bits loses nothing.
proof fn lemma_i64_bits_roundtrip(t: i64)
    ensures
        (t as u64) as i64 == t,
{
    assert((t as u64) as i64 == t) by (bit_vector);
}

/// Reading raw bits back as a timestamp loses nothing.
proof fn lemma_u64_bits_roundtrip(b: u64)
    ensures
        (b as i64) as u64 == b,
{
    assert((b as i64) as u64 == b) by (bit_vector);
}

/// A well-formed record's encoding is exactly 50 bytes wide.
pub proof fn lemma_encode_len(r: RecordModel)
    requires
        r.wf(),
    ensures
        spec_encode(r).len() == RECORD_WIDTH,
{
    lemma_auto_spec_u64_to_from_le_bytes();
}

/// Decoding inverts encoding: every well-formed record comes back unchanged
/// from its own serialized bytes.
pub proof fn lemma_decode_encode(r: RecordModel)
    requires
        r.wf(),
    ensures
        spec_decode(spec_encode(r)) == Some(r),
{
    lemma_auto_spec_u64_to_from_le_bytes();
    let s = spec_encode(r);
    assert(s.len() == RECORD_WIDTH);
    assert(s[0] == spec_kind_tag(r.deadline.kind()));
    assert(s[49] == spec_status_tag(r.status));
    assert(s.subrange(1, 9) =~= spec_u64_to_le_bytes(spec_deadline_bits(r.deadline)));
    assert(s.subrange(9, 17) =~= spec_u64_to_le_bytes(r.amount));
    assert(s.subrange(17, 49) =~= r.counterparty);
    assert(spec_tag_kind(spec_kind_tag(r.deadline.kind())) == Some(r.deadline.kind()));
    assert(spec_tag_status(spec_status_tag(r.status)) == Some(r.status));
    if let TimeReading::UnixTimestamp(t) = r.deadline {
        lemma_i64_bits_roundtrip(t);
    }
    assert(spec_reading(r.deadline.kind(), spec_deadline_bits(r.deadline)) == r.deadline);
    assert(spec_decode(s) == Some(r));
}

/// Encoding inverts decoding: bytes that decode at all are exactly the
/// decoded record's encoding, and that record is well formed.
pub proof fn lemma_encode_decode(s: Seq<u8>)
    requires
        spec_decode(s) is Some,
    ensures
        spec_decode(s)->Some_0.wf(),
        spec_encode(spec_decode(s)->Some_0) == s,
{
    lemma_auto_spec_u64_to_from_le_bytes();
    let r = spec_decode(s)->Some_0;
    assert(r.counterparty.len() == 32);
    lemma_u64_bits_roundtrip(spec_u64_from_le_bytes(s.subrange(1, 9)));
    assert(spec_deadline_bits(r.deadline) == spec_u64_from_le_bytes(s.subrange(1, 9)));
    assert(spec_kind_tag(r.deadline.kind()) == s[0]);
    assert(spec_status_tag(r.status) == s[49]);
    assert(spec_encode(r) =~= s);
}

/// Two well-formed records with the same encoding are the same record: the
/// persisted representation is unique.
pub proof fn lemma_encode_injective(a: RecordModel, b: RecordModel)
    requires
        a.wf(),
        b.wf(),
        spec_encode(a) == spec_encode(b),
    ensures
        a == b,
{
    lemma_decode_encode(a);
    lemma_decode_encode(b);
}

/// Serializes a record into its fixed-width layout.
pub fn encode_record(r: &CustodyRecord) -> (out: Vec<u8>)
    ensures
        out@ == spec_encode(r@),
        out@.len() == RECORD_WIDTH,
{
    let mut out: Vec<u8> = Vec::new();
    let kind_tag: u8 = match r.deadline {
        TimeReading::Slot(_) => 0,
        TimeReading::Epoch(_) => 1,
        TimeReading::LeaderScheduleEpoch(_) => 2,
        TimeReading::UnixTimestamp(_) => 3,
    };
    out.push(kind_tag);
    let bits: u64 = match r.deadline {
        TimeReading::Slot(v) => v,
        TimeReading::Epoch(v) => v,
        TimeReading::LeaderScheduleEpoch(v) => v,
        TimeReading::UnixTimestamp(t) => #[verifier::truncate] (t as u64),
    };
    let mut deadline_bytes = u64_to_le_bytes(bits);
    out.append(&mut deadline_bytes);
    let mut amount_bytes = u64_to_le_bytes(r.amount);
    out.append(&mut amount_bytes);
    let mut i: usize = 0;
    while i < 32
        invariant
            0 <= i <= 32,
            out@ == seq![spec_kind_tag(r@.deadline.kind())]
                + spec_u64_to_le_bytes(spec_deadline_bits(r@.deadline))
                + spec_u64_to_le_bytes(r@.amount) + r@.counterparty.subrange(0, i as int),
        decreases 32 - i,
    {
        out.push(r.counterparty[i]);
        proof {
            assert(r@.counterparty.subrange(0, i + 1) =~= r@.counterparty.subrange(0, i as int)
                + seq![r@.counterparty[i as int]]);
        }
        i = i + 1;
    }
    let status_tag: u8 = match r.status {
        RecordStatus::Uninitialized => 0,
        RecordStatus::Open => 1,
        RecordStatus::Settled => 2,
        RecordStatus::Expired => 3,
    };
    out.push(status_tag);
    proof {
        assert(r@.counterparty.subrange(0, 32) =~= r@.counterparty);
        assert(out@ =~= spec_encode(r@));
        lemma_encode_len(r@);
    }
    out
}

/// Deserializes a record from account bytes, failing with `CorruptRecord`
/// exactly when the bytes are not a record's encoding.
pub fn decode_record(bytes: &[u8]) -> (r: Result<CustodyRecord, CustodyError>)
    ensures
        match r {
            Ok(rec) => spec_decode(bytes@) == Some(rec@),
            Err(e) => spec_decode(bytes@) is None && e == CustodyError::CorruptRecord,
        },
{
    if bytes.len() != RECORD_WIDTH {
        return Err(CustodyError::CorruptRecord);
    }
    let kind_tag = *slice_index_get(bytes, 0);
    let status_tag = *slice_index_get(bytes, 49);
    let kind = if kind_tag == 0 {
        SignalKind::Slot
    } else if kind_tag == 1 {
        SignalKind::Epoch
    } else if kind_tag == 2 {
        SignalKind::LeaderScheduleEpoch
    } else if kind_tag == 3 {
        SignalKind::UnixTimestamp
    } else {
        return Err(CustodyError::CorruptRecord);
    };
    let status = if status_tag == 0 {
        RecordStatus::Uninitialized
    } else if status_tag == 1 {
        RecordStatus::Open
    } else if status_tag == 2 {
        RecordStatus::Settled
    } else if status_tag == 3 {
        RecordStatus::Expired
    } else {
        return Err(CustodyError::CorruptRecord);
    };
    let bits = u64_from_le_bytes(slice_subrange(bytes, 1, 9));
    let deadline = match kind {
        SignalKind::Slot => TimeReading::Slot(bits),
        SignalKind::Epoch => TimeReading::Epoch(bits),
        SignalKind::LeaderScheduleEpoch => TimeReading::LeaderScheduleEpoch(bits),
        SignalKind::UnixTimestamp => TimeReading::UnixTimestamp(
            #[verifier::truncate] (bits as i64),
        ),
    };
    let amount = u64_from_le_bytes(slice_subrange(bytes, 9, 17));
    let cp_slice = slice_subrange(bytes, 17, 49);
    let mut counterparty = [0u8; 32];
    let mut i: usize = 0;
    while i < 32
        invariant
            0 <= i <= 32,
            bytes@.len() == RECORD_WIDTH,
            cp_slice@.len() == 32,
            cp_slice@ == bytes@.subrange(17, 49),
            counterparty@.len() == 32,
            forall|j: int| 0 <= j < i ==> counterparty@[j] == cp_slice@[j],
        decreases 32 - i,
    {
        counterparty[i] = *slice_index_get(cp_slice, i);
        i = i + 1;
    }
    let rec = CustodyRecord { deadline, amount, counterparty, status };
    proof {
        assert(rec@.counterparty =~= bytes@.subrange(17, 49));
        assert(spec_decode(bytes@) == Some(rec@));
    }
    Ok(rec)
}

/// Reads the custody record persisted in an account buffer.
/// Fails with `CorruptRecord` exactly when the stored bytes are not a
/// record's encoding.
pub fn load_from_account(buffer: &Vec<u8>) -> (r: Result<CustodyRecord, CustodyError>)
    ensures
        match r {
            Ok(rec) => spec_decode(buffer@) == Some(rec@),
            Err(e) => spec_decode(buffer@) is None && e == CustodyError::CorruptRecord,
        },
{
    decode_record(buffer.as_slice())
}

/// Writes a record back into an account buffer, resizing it to the record's
/// serialized width.
pub fn save_to_account(buffer: &mut Vec<u8>, r: &CustodyRecord)
    ensures
        final(buffer)@ == spec_encode(r@),
{
    let encoded = encode_record(r);
    *buffer = encoded;
}

/// Loads the record stored in `buffer`, or, when the account is still empty,
/// constructs a fresh record under `init`, resizes the buffer and writes it.
/// The flag reports whether this call initialized the account; first-touch
/// initialization is terminal for the invocation.
pub fn load_or_init(buffer: &mut Vec<u8>, init: &InitPolicy) -> (r: Result<
    (CustodyRecord, bool),
    CustodyError,
>)
    ensures
        old(buffer)@.len() == 0 ==> match r {
            Ok((rec, was_init)) => was_init && rec@ == spec_init_model(*init) && final(buffer)@
                == spec_encode(rec@),
            Err(_) => false,
        },
        old(buffer)@.len() != 0 ==> final(buffer)@ == old(buffer)@ && match r {
            Ok((rec, was_init)) => !was_init && spec_decode(old(buffer)@) == Some(rec@),
            Err(e) => spec_decode(old(buffer)@) is None && e == CustodyError::CorruptRecord,
        },
{
    if buffer.len() == 0 {
        let rec = init_record(init);
        save_to_account(buffer, &rec);
        Ok((rec, true))
    } else {
        match load_from_account(buffer) {
            Ok(rec) => Ok((rec, false)),
            Err(e) => Err(e),
        }
    }
}

} // verus!
