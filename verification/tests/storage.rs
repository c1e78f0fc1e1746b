use bolt12_payment::bindings::{read_retry, read_route_parameters};
use bolt12_payment::error::WireError;
use bolt12_payment::recurrence::{
    RecurrenceAttempt, RecurrenceCancellationState, RecurrenceId, RecurrenceRetryState,
    RecurrenceState, RecurrenceStatus,
};
use bolt12_payment::types::{OfferId, PaymentId, Retry, RouteParameters, TimeSpan};
use bolt12_payment::wire::{read_bigsize, write_bigsize};
use lightning::routing::router::RouteParametersConfig;
use lightning::util::ser::{BigSize, Writeable};

fn state() -> RecurrenceState {
    RecurrenceState { original_offer: vec![1, 2, 3], ..RecurrenceState::default() }
}

fn full() -> RecurrenceState {
    RecurrenceState {
        id: RecurrenceId([7; 32]),
        original_offer: vec![9; 300],
        amount_msat: Some(150),
        maximum_amount_msat: Some(200),
        quantity: Some(3),
        payer_note: Some("caf\u{e9}\u{7}".to_string()),
        routing_override: Some(RouteParameters {
            max_total_routing_fee_msat: Some(77),
            max_total_cltv_expiry_delta: 144,
            max_path_count: 2,
            max_channel_saturation_power_of_half: 1,
        }),
        retry_policy: Retry::Timeout(TimeSpan { secs: 10, nanos: 999_999_999 }),
        retry_state: RecurrenceRetryState { attempts: 2, next_retry_at: Some(88) },
        pay_next_automatically: true,
        initial_start: 4,
        paid_count: 5,
        basetime: 6,
        opaque_state: Some(vec![0, 1]),
        last_successful_payment_id: Some(PaymentId([3; 32])),
        attempt: Some(RecurrenceAttempt::Submitted {
            payment_id: PaymentId([4; 32]),
            amount_msat: 150,
        }),
        cancellation: RecurrenceCancellationState::NotRequested,
        transition_id: 9,
        status: RecurrenceStatus::Active,
    }
}

fn written(state: &RecurrenceState) -> Vec<u8> {
    let mut out = Vec::new();
    state.write(&mut out);
    out
}

/// The length prefix and the records behind it.
fn stream(records: &[u8]) -> Vec<u8> {
    let mut out = BigSize(records.len() as u64).encode();
    out.extend_from_slice(records);
    out
}

fn record(typ: u8, value: &[u8]) -> Vec<u8> {
    let mut out = vec![typ];
    out.extend(BigSize(value.len() as u64).encode());
    out.extend_from_slice(value);
    out
}

/// The records of `state()`, by type.
fn minimal_records() -> Vec<(u8, Vec<u8>)> {
    vec![
        (0, vec![0; 32]),
        (2, vec![0, 3, 1, 2, 3]),
        (14, vec![0, 0, 0, 0, 0]),
        (16, vec![6, 0, 4, 0, 0, 0, 0]),
        (18, vec![0]),
        (20, vec![0; 8]),
        (22, vec![0; 8]),
        (24, vec![0; 8]),
        (32, vec![0, 0]),
        (34, vec![0; 8]),
        (36, vec![0, 0]),
    ]
}

fn joined(records: &[(u8, Vec<u8>)]) -> Vec<u8> {
    let mut out = Vec::new();
    for (typ, value) in records {
        out.extend(record(*typ, value));
    }
    out
}

fn read_error(bytes: &[u8]) -> Option<WireError> {
    RecurrenceState::read(bytes).err()
}

#[test]
fn sizes_are_written_as_elsewhere() {
    for v in [0, 1, 0xfc, 0xfd, 0xffff, 0x1_0000, 0xffff_ffff, 0x1_0000_0000, u64::MAX] {
        let mut out = Vec::new();
        write_bigsize(&mut out, v);
        assert_eq!(out, BigSize(v).encode());
        assert_eq!(read_bigsize(&out), Ok((v, out.len())));
    }
    assert_eq!(read_bigsize(&[0xfd, 0, 0xfc]), Err(WireError::InvalidValue));
    assert_eq!(read_bigsize(&[0xfd, 1]), Err(WireError::ShortRead));
    assert_eq!(read_bigsize(&[]), Err(WireError::ShortRead));
}

#[test]
fn route_parameters_are_read_as_they_were_written() {
    let config = RouteParametersConfig {
        max_total_routing_fee_msat: Some(77),
        max_total_cltv_expiry_delta: 144,
        max_path_count: 2,
        max_channel_saturation_power_of_half: 1,
    };
    let mut bytes = config.encode();
    let n = bytes.len();
    bytes.push(0xaa);
    let (p, used) = read_route_parameters(&bytes).unwrap();
    assert_eq!(used, n);
    assert_eq!(p, full().routing_override.unwrap());
    assert_eq!(read_route_parameters(&bytes[..n - 1]), Err(WireError::ShortRead));
    assert_eq!(read_route_parameters(&[0]), Err(WireError::InvalidValue));
}

#[test]
fn retry_strategies_are_read_as_they_were_written() {
    let timeout = lightning::ln::channelmanager::Retry::Timeout(std::time::Duration::new(10, 5));
    assert_eq!(
        read_retry(&timeout.encode()),
        Ok((Retry::Timeout(TimeSpan { secs: 10, nanos: 5 }), 13))
    );
    let attempts = lightning::ln::channelmanager::Retry::Attempts(7);
    assert_eq!(read_retry(&attempts.encode()), Ok((Retry::Attempts(7), 5)));
    assert_eq!(read_retry(&[]), Err(WireError::ShortRead));
    assert_eq!(read_retry(&[4]), Err(WireError::UnknownRequiredFeature));
    assert_eq!(
        read_retry(&[2, 0, 0, 0, 0, 0, 0, 0, 0, 0x3b, 0x9a, 0xca, 0x00]),
        Err(WireError::InvalidValue)
    );
}

#[test]
fn statuses_are_told_apart() {
    for (status, id) in [
        (RecurrenceStatus::Active, 0),
        (RecurrenceStatus::CancellationPending, 2),
        (RecurrenceStatus::Cancelled, 4),
        (RecurrenceStatus::Completed, 6),
        (RecurrenceStatus::Missed, 8),
        (RecurrenceStatus::RequiresAttention, 10),
    ] {
        let mut out = Vec::new();
        status.write(&mut out);
        assert_eq!(out, vec![id, 0]);
        assert_eq!(RecurrenceStatus::read(&out), Ok((status, 2)));
    }
    assert_eq!(RecurrenceStatus::read(&[12, 0]), Err(WireError::UnknownRequiredFeature));
    assert_eq!(RecurrenceStatus::read(&[0]), Err(WireError::ShortRead));
}

#[test]
fn cancellation_states_are_told_apart() {
    for (state, id) in [
        (RecurrenceCancellationState::NotRequested, 0),
        (RecurrenceCancellationState::Pending, 2),
        (RecurrenceCancellationState::Cancelled, 4),
    ] {
        let mut out = Vec::new();
        state.write(&mut out);
        assert_eq!(out, vec![id, 0]);
        assert_eq!(RecurrenceCancellationState::read(&out), Ok((state, 2)));
    }
    assert_eq!(
        RecurrenceCancellationState::read(&[6, 0]),
        Err(WireError::UnknownRequiredFeature)
    );
}

#[test]
fn retry_states_and_attempts_have_their_fields() {
    let mut out = Vec::new();
    RecurrenceRetryState { attempts: 3, next_retry_at: Some(9) }.write(&mut out);
    assert_eq!(out, vec![16, 0, 4, 0, 0, 0, 3, 2, 8, 0, 0, 0, 0, 0, 0, 0, 9]);
    assert_eq!(
        RecurrenceRetryState::read(&out),
        Ok((RecurrenceRetryState { attempts: 3, next_retry_at: Some(9) }, 17))
    );
    assert_eq!(RecurrenceRetryState::read(&[0]), Err(WireError::InvalidValue));

    let attempt =
        RecurrenceAttempt::Submitted { payment_id: PaymentId([4; 32]), amount_msat: 0x0102 };
    let mut out = Vec::new();
    attempt.write(&mut out);
    let mut expected = vec![2, 44, 0, 32];
    expected.extend_from_slice(&[4; 32]);
    expected.extend_from_slice(&[2, 8, 0, 0, 0, 0, 0, 0, 1, 2]);
    assert_eq!(out, expected);
    assert_eq!(RecurrenceAttempt::read(&out), Ok((attempt, 46)));
    out[0] = 0;
    assert_eq!(
        RecurrenceAttempt::read(&out),
        Ok((
            RecurrenceAttempt::Prepared { payment_id: PaymentId([4; 32]), amount_msat: 0x0102 },
            46
        ))
    );
}

#[test]
fn a_minimal_state_has_the_required_records() {
    assert_eq!(written(&state()), stream(&joined(&minimal_records())));
}

#[test]
fn a_state_is_read_as_it_was_written() {
    let bytes = {
        let mut bytes = written(&full());
        bytes.extend_from_slice(&[1, 2, 3]);
        bytes
    };
    let (read, used) = RecurrenceState::read(&bytes).unwrap();
    assert_eq!(used, bytes.len() - 3);
    assert_eq!(written(&read), bytes[..used].to_vec());
    assert_eq!(read.id, RecurrenceId([7; 32]));
    assert_eq!(read.original_offer, vec![9; 300]);
    assert_eq!(read.amount_msat, Some(150));
    assert_eq!(read.maximum_amount_msat, Some(200));
    assert_eq!(read.quantity, Some(3));
    assert_eq!(read.payer_note.as_deref(), Some("caf\u{e9}\u{7}"));
    assert_eq!(read.routing_override, full().routing_override);
    assert_eq!(read.retry_policy, full().retry_policy);
    assert_eq!(read.retry_state, full().retry_state);
    assert!(read.pay_next_automatically);
    assert_eq!((read.initial_start, read.paid_count, read.basetime), (4, 5, 6));
    assert_eq!(read.opaque_state, Some(vec![0, 1]));
    assert_eq!(read.last_successful_payment_id, Some(PaymentId([3; 32])));
    assert_eq!(read.attempt, full().attempt);
    assert_eq!(read.cancellation, RecurrenceCancellationState::NotRequested);
    assert_eq!(read.transition_id, 9);
    assert_eq!(read.status, RecurrenceStatus::Active);
}

#[test]
fn outside_encodings_are_embedded() {
    let bytes = written(&full());
    let route = RouteParametersConfig {
        max_total_routing_fee_msat: Some(77),
        max_total_cltv_expiry_delta: 144,
        max_path_count: 2,
        max_channel_saturation_power_of_half: 1,
    };
    let retry =
        lightning::ln::channelmanager::Retry::Timeout(std::time::Duration::new(10, 999_999_999));
    let mut both = record(12, &route.encode());
    both.extend(record(14, &retry.encode()));
    assert!(bytes.windows(both.len()).any(|w| w == both.as_slice()));
    let note = record(10, &"caf\u{e9}\u{7}".to_string().encode());
    assert!(bytes.windows(note.len()).any(|w| w == note.as_slice()));
}

#[test]
fn malformed_streams_are_refused() {
    let good = joined(&minimal_records());
    assert!(RecurrenceState::read(&stream(&good)).is_ok());
    assert_eq!(read_error(&[]), Some(WireError::ShortRead));
    let mut short = stream(&good);
    short.pop();
    assert_eq!(read_error(&short), Some(WireError::ShortRead));

    for missing in 0..minimal_records().len() {
        let mut records = minimal_records();
        records.remove(missing);
        assert_eq!(read_error(&stream(&joined(&records))), Some(WireError::InvalidValue));
    }
    let mut records = minimal_records();
    records.swap(0, 1);
    assert_eq!(read_error(&stream(&joined(&records))), Some(WireError::InvalidValue));
    let mut records = minimal_records();
    records.push((38, vec![]));
    assert_eq!(read_error(&stream(&joined(&records))), Some(WireError::UnknownRequiredFeature));
    let mut records = minimal_records();
    records.push((37, vec![1, 2]));
    assert!(RecurrenceState::read(&stream(&joined(&records))).is_ok());
    let mut records = minimal_records();
    records[4].1 = vec![2];
    assert_eq!(read_error(&stream(&joined(&records))), Some(WireError::InvalidValue));
    let mut records = minimal_records();
    records[5].1.push(0);
    assert_eq!(read_error(&stream(&joined(&records))), Some(WireError::InvalidValue));
    let mut records = minimal_records();
    records.insert(2, (10, vec![0, 1, 0xff]));
    assert_eq!(read_error(&stream(&joined(&records))), Some(WireError::InvalidValue));
}

#[test]
fn states_that_break_a_rule_are_not_read() {
    let mut bad = full();
    bad.amount_msat = Some(201);
    assert_eq!(read_error(&written(&bad)), Some(WireError::InvalidValue));
}

fn verdict(change: fn(&mut RecurrenceState)) -> Result<(), WireError> {
    let mut state = full();
    change(&mut state);
    state.validate()
}

#[test]
fn states_are_validated() {
    let refused = Err(WireError::InvalidValue);
    assert_eq!(RecurrenceState::default().validate(), refused);
    assert_eq!(state().validate(), Ok(()));
    assert_eq!(full().validate(), Ok(()));
    assert_eq!(verdict(|s| s.original_offer.clear()), refused);
    assert_eq!(verdict(|s| s.amount_msat = Some(0)), refused);
    assert_eq!(verdict(|s| s.maximum_amount_msat = Some(0)), refused);
    assert_eq!(verdict(|s| s.quantity = Some(0)), refused);
    assert_eq!(verdict(|s| s.amount_msat = Some(201)), refused);
    assert_eq!(verdict(|s| s.amount_msat = Some(200)), Ok(()));
    assert_eq!(verdict(|s| s.initial_start = 7), refused);
    assert_eq!(verdict(|s| s.initial_start = 6), Ok(()));
    assert_eq!(verdict(|s| s.paid_count = 10), refused);
    assert_eq!(verdict(|s| s.paid_count = 9), Ok(()));
    assert_eq!(verdict(|s| s.retry_state.attempts = 0), refused);
    let payment_id = PaymentId([4; 32]);
    assert_eq!(
        RecurrenceState {
            attempt: Some(RecurrenceAttempt::Prepared { payment_id, amount_msat: 0 }),
            ..full()
        }
        .validate(),
        refused
    );
    assert_eq!(
        RecurrenceState {
            attempt: Some(RecurrenceAttempt::Prepared { payment_id, amount_msat: 201 }),
            ..full()
        }
        .validate(),
        refused
    );
}

#[test]
fn status_and_cancellation_have_to_agree() {
    let idle = |status, cancellation| {
        RecurrenceState { status, cancellation, ..state() }.validate().is_ok()
    };
    use_all(|status, cancellation| {
        let expected = match status {
            RecurrenceStatus::Active => cancellation == RecurrenceCancellationState::NotRequested,
            RecurrenceStatus::CancellationPending => {
                cancellation == RecurrenceCancellationState::Pending
            },
            RecurrenceStatus::Cancelled => cancellation == RecurrenceCancellationState::Cancelled,
            RecurrenceStatus::Completed | RecurrenceStatus::Missed => {
                cancellation == RecurrenceCancellationState::NotRequested
            },
            RecurrenceStatus::RequiresAttention => true,
        };
        assert_eq!(idle(status, cancellation), expected);
    });
}

fn use_all(check: impl Fn(RecurrenceStatus, RecurrenceCancellationState)) {
    for status in [
        RecurrenceStatus::Active,
        RecurrenceStatus::CancellationPending,
        RecurrenceStatus::Cancelled,
        RecurrenceStatus::Completed,
        RecurrenceStatus::Missed,
        RecurrenceStatus::RequiresAttention,
    ] {
        for cancellation in [
            RecurrenceCancellationState::NotRequested,
            RecurrenceCancellationState::Pending,
            RecurrenceCancellationState::Cancelled,
        ] {
            check(status, cancellation);
        }
    }
}

#[test]
fn nothing_is_under_way_in_a_terminal_state() {
    let ended = |status, cancellation, attempt: bool, retry: bool| {
        let mut s = RecurrenceState { status, cancellation, ..full() };
        if !attempt {
            s.attempt = None;
        }
        if !retry {
            s.retry_state.next_retry_at = None;
        }
        s.validate().is_ok()
    };
    for (status, cancellation) in [
        (RecurrenceStatus::Cancelled, RecurrenceCancellationState::Cancelled),
        (RecurrenceStatus::Completed, RecurrenceCancellationState::NotRequested),
        (RecurrenceStatus::Missed, RecurrenceCancellationState::NotRequested),
    ] {
        assert!(ended(status, cancellation, false, false));
        assert!(!ended(status, cancellation, true, false));
        assert!(!ended(status, cancellation, false, true));
    }
    let pending = RecurrenceCancellationState::Pending;
    assert!(!ended(RecurrenceStatus::CancellationPending, pending, true, true));
    assert!(ended(RecurrenceStatus::CancellationPending, pending, false, true));
    assert!(ended(RecurrenceStatus::RequiresAttention, pending, true, true));
}

#[test]
fn identifiers_are_named_by_hexadecimal_text() {
    let mut id = [0u8; 32];
    id[0] = 0x0f;
    id[1] = 0xa9;
    id[31] = 0xff;
    let id = RecurrenceId(id);
    let text = id.encode_to_hex_str();
    assert_eq!(text, format!("0fa9{}ff", "0".repeat(58)));
    assert_eq!(RecurrenceId::decode_from_hex_str(&text), Some(id));
    assert_eq!(RecurrenceId::decode_from_hex_str(&text.to_uppercase()), Some(id));
    assert_eq!(RecurrenceId::decode_from_hex_str(&text[2..]), None);
    assert_eq!(RecurrenceId::decode_from_hex_str(&format!("{}00", text)), None);
    assert_eq!(RecurrenceId::decode_from_hex_str(&"g".repeat(64)), None);
    assert_eq!(RecurrenceId::decode_from_hex_str(&"\u{e9}".repeat(32)), None);
    assert_eq!(RecurrenceId::decode_from_hex_str(""), None);
}

#[test]
fn identifiers_are_stored_as_their_bytes() {
    let id = RecurrenceId([6; 32]);
    let mut out = Vec::new();
    id.write(&mut out);
    assert_eq!(out, vec![6; 32]);
    assert_eq!(RecurrenceId::read(&out), Ok((id, 32)));
    assert_eq!(RecurrenceId::read(&out[..31]), Err(WireError::ShortRead));
    assert_eq!(RecurrenceId::from(OfferId([6; 32])), id);
}
