use timegate::codec::{decode_record, encode_record, load_from_account, RECORD_WIDTH};
use timegate::engine::{parse_instruction, process, Outcome};
use timegate::errors::CustodyError;
use timegate::gates::{accrued_reward, admin_configured_value, elapsed_between, lottery_index,
    select_winner, span_elapsed};
use timegate::policy::{expire, reclaim, Action, Policy, PolicyFamily};
use timegate::record::{CustodyRecord, InitPolicy, RecordStatus};
use timegate::time::{compare, decode_clock, ClockSnapshot, Oracle, SignalKind, TimeOrder,
    TimeReading};

fn snapshot_at_slot(slot: u64) -> ClockSnapshot {
    ClockSnapshot {
        slot,
        epoch: 0,
        leader_schedule_epoch: 0,
        unix_timestamp: 0,
        epoch_start_timestamp: 0,
    }
}

fn propose_payload(amount: u64) -> Vec<u8> {
    let mut payload = vec![0u8];
    payload.extend_from_slice(&amount.to_le_bytes());
    payload
}

fn settle_payload() -> Vec<u8> {
    vec![1u8]
}

fn lock_policy() -> Policy {
    Policy { family: PolicyFamily::TimeLock, signal: SignalKind::Slot, reserve: 0 }
}

fn auction_policy(reserve: u64) -> Policy {
    Policy { family: PolicyFamily::Auction, signal: SignalKind::Slot, reserve }
}

#[test]
fn empty_account_is_initialized_and_terminal() {
    let mut buffer: Vec<u8> = Vec::new();
    let init = InitPolicy {
        deadline: TimeReading::Slot(1000),
        amount: 700,
        status: RecordStatus::Open,
    };
    let oracle = Oracle::new(Some(snapshot_at_slot(5)));
    let outcome = process(
        &mut buffer,
        &lock_policy(),
        &oracle,
        &settle_payload(),
        &[0u8; 32],
        &init,
    )
    .unwrap();
    assert!(matches!(outcome, Outcome::Initialized));
    assert_eq!(buffer.len(), RECORD_WIDTH);
    let rec = load_from_account(&buffer).unwrap();
    assert_eq!(rec.deadline, TimeReading::Slot(1000));
    assert_eq!(rec.amount, 700);
    assert_eq!(rec.counterparty, [0u8; 32]);
    assert_eq!(rec.status, RecordStatus::Open);
}

#[test]
fn lock_withdraw_before_and_at_deadline() {
    // Scenario: a lock that opens at slot 1000.
    let mut buffer: Vec<u8> = Vec::new();
    let init = InitPolicy {
        deadline: TimeReading::Slot(1000),
        amount: 250,
        status: RecordStatus::Open,
    };
    let policy = lock_policy();
    let owner = [7u8; 32];
    let early = Oracle::new(Some(snapshot_at_slot(500)));
    let due = Oracle::new(Some(snapshot_at_slot(1000)));

    process(&mut buffer, &policy, &early, &settle_payload(), &owner, &init).unwrap();

    let err = process(&mut buffer, &policy, &early, &settle_payload(), &owner, &init)
        .unwrap_err();
    assert_eq!(err, CustodyError::TooEarly);
    assert!(err.is_policy_violation());
    assert_eq!(load_from_account(&buffer).unwrap().amount, 250);

    let outcome = process(&mut buffer, &policy, &due, &settle_payload(), &owner, &init).unwrap();
    match outcome {
        Outcome::Applied(rec) => {
            assert_eq!(rec.amount, 0);
            assert_eq!(rec.status, RecordStatus::Settled);
        }
        _ => panic!("expected an applied transition"),
    }
    let stored = load_from_account(&buffer).unwrap();
    assert_eq!(stored.amount, 0);
    assert_eq!(stored.status, RecordStatus::Settled);
}

#[test]
fn auction_bids_respect_reserve_and_strict_outbidding() {
    // Scenario: an auction with a reserve price of 1000.
    let mut buffer: Vec<u8> = Vec::new();
    let init = InitPolicy {
        deadline: TimeReading::Slot(10_000),
        amount: 0,
        status: RecordStatus::Open,
    };
    let policy = auction_policy(1000);
    let oracle = Oracle::new(Some(snapshot_at_slot(50)));
    let first_bidder = [1u8; 32];
    let second_bidder = [2u8; 32];

    process(&mut buffer, &policy, &oracle, &settle_payload(), &first_bidder, &init).unwrap();

    let below_reserve = process(
        &mut buffer,
        &policy,
        &oracle,
        &propose_payload(900),
        &first_bidder,
        &init,
    )
    .unwrap_err();
    assert_eq!(below_reserve, CustodyError::ValueTooLow);
    assert_eq!(load_from_account(&buffer).unwrap().amount, 0);

    process(&mut buffer, &policy, &oracle, &propose_payload(1500), &first_bidder, &init).unwrap();
    let after_first = load_from_account(&buffer).unwrap();
    assert_eq!(after_first.amount, 1500);
    assert_eq!(after_first.counterparty, first_bidder);

    let not_outbidding = process(
        &mut buffer,
        &policy,
        &oracle,
        &propose_payload(1200),
        &second_bidder,
        &init,
    )
    .unwrap_err();
    assert_eq!(not_outbidding, CustodyError::ValueTooLow);
    let unchanged = load_from_account(&buffer).unwrap();
    assert_eq!(unchanged.amount, 1500);
    assert_eq!(unchanged.counterparty, first_bidder);

    process(&mut buffer, &policy, &oracle, &propose_payload(2000), &second_bidder, &init).unwrap();
    let after_second = load_from_account(&buffer).unwrap();
    assert_eq!(after_second.amount, 2000);
    assert_eq!(after_second.counterparty, second_bidder);
}

#[test]
fn equal_bid_is_rejected() {
    let mut buffer: Vec<u8> = Vec::new();
    let init = InitPolicy {
        deadline: TimeReading::Slot(10_000),
        amount: 0,
        status: RecordStatus::Open,
    };
    let policy = auction_policy(100);
    let oracle = Oracle::new(Some(snapshot_at_slot(1)));
    process(&mut buffer, &policy, &oracle, &settle_payload(), &[3u8; 32], &init).unwrap();
    process(&mut buffer, &policy, &oracle, &propose_payload(500), &[3u8; 32], &init).unwrap();
    let err = process(&mut buffer, &policy, &oracle, &propose_payload(500), &[4u8; 32], &init)
        .unwrap_err();
    assert_eq!(err, CustodyError::ValueTooLow);
    let rec = load_from_account(&buffer).unwrap();
    assert_eq!(rec.amount, 500);
    assert_eq!(rec.counterparty, [3u8; 32]);
}

#[test]
fn bid_after_deadline_is_too_late() {
    let mut buffer: Vec<u8> = Vec::new();
    let init = InitPolicy {
        deadline: TimeReading::Slot(100),
        amount: 0,
        status: RecordStatus::Open,
    };
    let policy = auction_policy(0);
    let late = Oracle::new(Some(snapshot_at_slot(100)));
    process(&mut buffer, &policy, &late, &settle_payload(), &[0u8; 32], &init).unwrap();
    let err = process(&mut buffer, &policy, &late, &propose_payload(10), &[5u8; 32], &init)
        .unwrap_err();
    assert_eq!(err, CustodyError::TooLate);
}

#[test]
fn settle_twice_reports_already_settled_and_changes_nothing() {
    // Scenario: settling an auction twice.
    let mut buffer: Vec<u8> = Vec::new();
    let init = InitPolicy {
        deadline: TimeReading::Slot(10_000),
        amount: 0,
        status: RecordStatus::Open,
    };
    let policy = auction_policy(0);
    let oracle = Oracle::new(Some(snapshot_at_slot(10)));
    let bidder = [9u8; 32];
    process(&mut buffer, &policy, &oracle, &settle_payload(), &bidder, &init).unwrap();
    process(&mut buffer, &policy, &oracle, &propose_payload(800), &bidder, &init).unwrap();

    process(&mut buffer, &policy, &oracle, &settle_payload(), &bidder, &init).unwrap();
    let after_first = buffer.clone();

    let err = process(&mut buffer, &policy, &oracle, &settle_payload(), &bidder, &init)
        .unwrap_err();
    assert_eq!(err, CustodyError::AlreadySettled);
    assert_eq!(buffer, after_first);
}

#[test]
fn credit_overflow_is_rejected_and_amount_unchanged() {
    let mut buffer: Vec<u8> = Vec::new();
    let init = InitPolicy {
        deadline: TimeReading::Slot(1_000_000),
        amount: u64::MAX - 5,
        status: RecordStatus::Open,
    };
    let policy = lock_policy();
    let oracle = Oracle::new(Some(snapshot_at_slot(1)));
    process(&mut buffer, &policy, &oracle, &settle_payload(), &[0u8; 32], &init).unwrap();

    let err = process(&mut buffer, &policy, &oracle, &propose_payload(10), &[0u8; 32], &init)
        .unwrap_err();
    assert_eq!(err, CustodyError::ArithmeticFault);
    assert_eq!(load_from_account(&buffer).unwrap().amount, u64::MAX - 5);

    process(&mut buffer, &policy, &oracle, &propose_payload(5), &[0u8; 32], &init).unwrap();
    assert_eq!(load_from_account(&buffer).unwrap().amount, u64::MAX);
}

#[test]
fn mixed_signals_are_rejected_never_coerced() {
    // A record created against unix timestamps, driven by a slot policy.
    let mut buffer: Vec<u8> = Vec::new();
    let init = InitPolicy {
        deadline: TimeReading::UnixTimestamp(1_700_000_000),
        amount: 0,
        status: RecordStatus::Open,
    };
    let policy = lock_policy();
    let oracle = Oracle::new(Some(snapshot_at_slot(2_000_000_000)));
    process(&mut buffer, &policy, &oracle, &settle_payload(), &[0u8; 32], &init).unwrap();
    let err = process(&mut buffer, &policy, &oracle, &settle_payload(), &[0u8; 32], &init)
        .unwrap_err();
    assert_eq!(err, CustodyError::SignalMismatch);
}

#[test]
fn compare_readings() {
    assert_eq!(
        compare(&TimeReading::Slot(4), &TimeReading::Slot(9)).unwrap(),
        TimeOrder::Less
    );
    assert_eq!(
        compare(&TimeReading::Epoch(9), &TimeReading::Epoch(9)).unwrap(),
        TimeOrder::Equal
    );
    assert_eq!(
        compare(&TimeReading::UnixTimestamp(5), &TimeReading::UnixTimestamp(-5)).unwrap(),
        TimeOrder::Greater
    );
    assert_eq!(
        compare(&TimeReading::Slot(5), &TimeReading::UnixTimestamp(5)).unwrap_err(),
        CustodyError::SignalMismatch
    );
    assert_eq!(
        compare(&TimeReading::Epoch(5), &TimeReading::LeaderScheduleEpoch(5)).unwrap_err(),
        CustodyError::SignalMismatch
    );
}

#[test]
fn oracle_unavailable_aborts_without_writing() {
    let mut buffer: Vec<u8> = Vec::new();
    let init = InitPolicy {
        deadline: TimeReading::Slot(10),
        amount: 0,
        status: RecordStatus::Open,
    };
    let policy = lock_policy();
    let present = Oracle::new(Some(snapshot_at_slot(1)));
    process(&mut buffer, &policy, &present, &settle_payload(), &[0u8; 32], &init).unwrap();
    let before = buffer.clone();
    let absent = Oracle::new(None);
    let err = process(&mut buffer, &policy, &absent, &settle_payload(), &[0u8; 32], &init)
        .unwrap_err();
    assert_eq!(err, CustodyError::OracleUnavailable);
    assert_eq!(buffer, before);
}

#[test]
fn record_roundtrips_through_the_codec() {
    let rec = CustodyRecord {
        deadline: TimeReading::UnixTimestamp(-123_456_789),
        amount: 0xDEAD_BEEF_0102_0304,
        counterparty: [0xAB; 32],
        status: RecordStatus::Open,
    };
    let bytes = encode_record(&rec);
    assert_eq!(bytes.len(), RECORD_WIDTH);
    let back = decode_record(&bytes).unwrap();
    assert_eq!(back.deadline, rec.deadline);
    assert_eq!(back.amount, rec.amount);
    assert_eq!(back.counterparty, rec.counterparty);
    assert_eq!(back.status, rec.status);
}

#[test]
fn record_layout_is_fixed_little_endian() {
    let rec = CustodyRecord {
        deadline: TimeReading::Epoch(0x0102_0304_0506_0708),
        amount: 1,
        counterparty: [0x11; 32],
        status: RecordStatus::Settled,
    };
    let bytes = encode_record(&rec);
    assert_eq!(bytes[0], 1); // the epoch signal tag
    assert_eq!(&bytes[1..9], &[0x08, 0x07, 0x06, 0x05, 0x04, 0x03, 0x02, 0x01]);
    assert_eq!(&bytes[9..17], &[1, 0, 0, 0, 0, 0, 0, 0]);
    assert_eq!(&bytes[17..49], &[0x11; 32]);
    assert_eq!(bytes[49], 2); // the settled status tag
}

#[test]
fn corrupt_bytes_are_rejected() {
    assert_eq!(
        decode_record(&[0u8; 10]).unwrap_err(),
        CustodyError::CorruptRecord
    );
    let mut bytes = vec![0u8; RECORD_WIDTH];
    bytes[0] = 9; // no such signal tag
    assert_eq!(decode_record(&bytes).unwrap_err(), CustodyError::CorruptRecord);
    let mut bytes = vec![0u8; RECORD_WIDTH];
    bytes[49] = 77; // no such status tag
    assert_eq!(decode_record(&bytes).unwrap_err(), CustodyError::CorruptRecord);
}

#[test]
fn corrupt_record_aborts_processing() {
    let mut buffer = vec![5u8; 3];
    let init = InitPolicy {
        deadline: TimeReading::Slot(10),
        amount: 0,
        status: RecordStatus::Open,
    };
    let err = process(
        &mut buffer,
        &lock_policy(),
        &Oracle::new(Some(snapshot_at_slot(1))),
        &settle_payload(),
        &[0u8; 32],
        &init,
    )
    .unwrap_err();
    assert_eq!(err, CustodyError::CorruptRecord);
    assert_eq!(buffer, vec![5u8; 3]);
}

#[test]
fn instruction_payloads_parse_strictly() {
    assert_eq!(parse_instruction(&[]).unwrap_err(), CustodyError::InvalidInstruction);
    assert_eq!(parse_instruction(&[2]).unwrap_err(), CustodyError::InvalidInstruction);
    assert_eq!(parse_instruction(&[0, 1, 2]).unwrap_err(), CustodyError::InvalidInstruction);
    assert_eq!(parse_instruction(&[1, 0]).unwrap_err(), CustodyError::InvalidInstruction);
    assert_eq!(parse_instruction(&settle_payload()).unwrap(), Action::Settle);
    assert_eq!(
        parse_instruction(&propose_payload(0x0102030405060708)).unwrap(),
        Action::Propose { amount: 0x0102030405060708 }
    );
}

#[test]
fn clock_bytes_decode_field_by_field() {
    let mut bytes = Vec::new();
    bytes.extend_from_slice(&77u64.to_le_bytes());
    bytes.extend_from_slice(&(-3i64).to_le_bytes());
    bytes.extend_from_slice(&12u64.to_le_bytes());
    bytes.extend_from_slice(&13u64.to_le_bytes());
    bytes.extend_from_slice(&1_700_000_000i64.to_le_bytes());
    let snap = decode_clock(&bytes).unwrap();
    assert_eq!(snap.slot, 77);
    assert_eq!(snap.epoch_start_timestamp, -3);
    assert_eq!(snap.epoch, 12);
    assert_eq!(snap.leader_schedule_epoch, 13);
    assert_eq!(snap.unix_timestamp, 1_700_000_000);
    assert_eq!(
        decode_clock(&bytes[..39]).unwrap_err(),
        CustodyError::OracleUnavailable
    );
}

#[test]
fn expired_records_only_allow_reclaiming() {
    let policy = auction_policy(0);
    let rec = CustodyRecord {
        deadline: TimeReading::Slot(100),
        amount: 40,
        counterparty: [6u8; 32],
        status: RecordStatus::Open,
    };
    // Not yet past the deadline: expiry is premature.
    assert_eq!(
        expire(&policy, &rec, &TimeReading::Slot(100)).unwrap_err(),
        CustodyError::TooEarly
    );
    let expired = expire(&policy, &rec, &TimeReading::Slot(101)).unwrap();
    assert_eq!(expired.status, RecordStatus::Expired);
    assert_eq!(expired.amount, 40);
    assert_eq!(expired.counterparty, [6u8; 32]);

    assert_eq!(reclaim(&expired).unwrap(), 40);
    assert_eq!(reclaim(&rec).unwrap_err(), CustodyError::TooEarly);

    // A time lock has no expiry action at all.
    let lock = Policy { family: PolicyFamily::TimeLock, signal: SignalKind::Slot, reserve: 0 };
    assert_eq!(
        expire(&lock, &rec, &TimeReading::Slot(101)).unwrap_err(),
        CustodyError::InvalidInstruction
    );
    // And an expired record accepts no further transition.
    assert_eq!(
        expire(&policy, &expired, &TimeReading::Slot(300)).unwrap_err(),
        CustodyError::Expired
    );
}

#[test]
fn gate_helpers_compute_exact_values() {
    assert_eq!(
        elapsed_between(&TimeReading::Epoch(1187), &TimeReading::Epoch(1189)).unwrap(),
        2
    );
    assert_eq!(
        elapsed_between(&TimeReading::Epoch(10), &TimeReading::Epoch(4)).unwrap_err(),
        CustodyError::ArithmeticFault
    );
    assert_eq!(
        elapsed_between(&TimeReading::Slot(1), &TimeReading::UnixTimestamp(2)).unwrap_err(),
        CustodyError::SignalMismatch
    );
    assert_eq!(
        elapsed_between(
            &TimeReading::UnixTimestamp(i64::MIN),
            &TimeReading::UnixTimestamp(i64::MAX)
        )
        .unwrap(),
        u64::MAX
    );
    assert!(span_elapsed(&TimeReading::Epoch(1187), &TimeReading::Epoch(1189), 2).unwrap());
    assert!(!span_elapsed(&TimeReading::Epoch(1187), &TimeReading::Epoch(1188), 2).unwrap());
    assert!(!span_elapsed(&TimeReading::Epoch(9), &TimeReading::Epoch(4), 2).unwrap());

    assert_eq!(accrued_reward(120, 5).unwrap(), 600);
    assert_eq!(
        accrued_reward(u64::MAX, 2).unwrap_err(),
        CustodyError::ArithmeticFault
    );

    assert_eq!(lottery_index(1_700_000_042), 42);
    assert!(select_winner(42));
    assert!(!select_winner(41));
    assert_eq!(admin_configured_value(), 42);
}

#[test]
fn error_codes_are_distinct() {
    let errors = [
        CustodyError::OracleUnavailable,
        CustodyError::SignalMismatch,
        CustodyError::CorruptRecord,
        CustodyError::InvalidInstruction,
        CustodyError::ArithmeticFault,
        CustodyError::TooEarly,
        CustodyError::TooLate,
        CustodyError::AlreadySettled,
        CustodyError::ValueTooLow,
        CustodyError::Expired,
    ];
    for (i, a) in errors.iter().enumerate() {
        for (j, b) in errors.iter().enumerate() {
            assert_eq!(i == j, a.code() == b.code());
        }
    }
    assert!(CustodyError::TooEarly.is_policy_violation());
    assert!(CustodyError::TooLate.is_policy_violation());
    assert!(CustodyError::AlreadySettled.is_policy_violation());
    assert!(CustodyError::ValueTooLow.is_policy_violation());
    assert!(CustodyError::Expired.is_policy_violation());
    assert!(!CustodyError::ArithmeticFault.is_policy_violation());
    assert!(!CustodyError::CorruptRecord.is_policy_violation());
}

#[test]
fn error_descriptions_are_distinct() {
    let errors = [
        CustodyError::OracleUnavailable,
        CustodyError::SignalMismatch,
        CustodyError::CorruptRecord,
        CustodyError::InvalidInstruction,
        CustodyError::ArithmeticFault,
        CustodyError::TooEarly,
        CustodyError::TooLate,
        CustodyError::AlreadySettled,
        CustodyError::ValueTooLow,
        CustodyError::Expired,
    ];
    for (i, a) in errors.iter().enumerate() {
        for (j, b) in errors.iter().enumerate() {
            assert_eq!(i == j, a.describe() == b.describe());
        }
    }
    assert_eq!(
        CustodyError::TooEarly.describe(),
        "the gating time has not been reached yet"
    );
}
