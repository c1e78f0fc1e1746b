use std::collections::HashMap;

use bolt12_payment::bolt12::{validate_recurrence_amount, Bolt12Payment};
use bolt12_payment::cancellation::CancellationStage;
use bolt12_payment::details::{persisted, RecurrenceDetails, StoreError};
use bolt12_payment::error::Error;
use bolt12_payment::initiate::{RecurrenceConfig, RecurrencePlan};
use bolt12_payment::next_payment::{DuePayment, PeriodQuery, Timing};
use bolt12_payment::payment::{PaymentDirection, PaymentKind, PaymentStatus};
use bolt12_payment::recurrence::{
    RecurrenceAttempt, RecurrenceCancellationState, RecurrenceId, RecurrenceStatus,
};
use bolt12_payment::submission::{Stage, Submission};
use bolt12_payment::types::{
    Config, Offer, OfferAmount, OfferId, OfferRecurrence, PaymentId, Retry, RouteParameters,
    TimeSpan,
};
use bolt12_payment::window::{RecurrencePaymentWindow, WindowRequest};
use lightning::util::ser::Writeable;

type Details = RecurrenceDetails<u8, String>;

const TIMEOUT: TimeSpan = TimeSpan { secs: 10, nanos: 0 };
const NODE_WIDE: RouteParameters = RouteParameters {
    max_total_routing_fee_msat: Some(5_000),
    max_total_cltv_expiry_delta: 500,
    max_path_count: 4,
    max_channel_saturation_power_of_half: 3,
};
const OWN: RouteParameters = RouteParameters {
    max_total_routing_fee_msat: None,
    max_total_cltv_expiry_delta: 144,
    max_path_count: 1,
    max_channel_saturation_power_of_half: 0,
};
const DEFAULTS: RouteParameters = RouteParameters {
    max_total_routing_fee_msat: None,
    max_total_cltv_expiry_delta: 1008,
    max_path_count: 10,
    max_channel_saturation_power_of_half: 2,
};

fn handler() -> Bolt12Payment {
    Bolt12Payment::new(
        Config { route_parameters: Some(NODE_WIDE), payment_retry_timeout: TIMEOUT },
        true,
        None,
    )
}

fn stopped() -> Bolt12Payment {
    Bolt12Payment::new(
        Config { route_parameters: None, payment_retry_timeout: TIMEOUT },
        false,
        None,
    )
}

fn ldk_offer() -> lightning::offers::offer::Offer {
    "lno1zcss9mk8y3wkklfvevcrszlmu23kfrxh49px20665dqwmn4p72pksese".parse().unwrap()
}

fn monthly(amount: Option<OfferAmount>) -> Offer {
    Offer {
        id: OfferId(ldk_offer().id().0),
        amount,
        recurrence: Some(OfferRecurrence { explicit_basetime: Some(1_000), limit: Some(3) }),
        encoded: ldk_offer().encode(),
    }
}

fn hundred() -> Option<OfferAmount> {
    Some(OfferAmount::Bitcoin { amount_msats: 100 })
}

fn plan() -> RecurrencePlan {
    handler()
        .initiate_recurrence(
            &monthly(hundred()),
            Some(2),
            Some(150),
            Some(200),
            Some(3),
            Some("rent\u{7}".to_string()),
            Some(OWN),
            Some(2),
        )
        .unwrap()
}

const ID: RecurrenceId = RecurrenceId([7; 32]);
const FIRST: PaymentId = PaymentId([1; 32]);
const SECOND: PaymentId = PaymentId([2; 32]);

fn first() -> Submission<u8, String> {
    plan().register(ID, FIRST, 9)
}

/// A record after its first payment went through.
fn paid_once() -> Details {
    let mut details = first().details;
    details.paid_count = 1;
    details.attempt = None;
    details.opaque_state = Some(vec![4, 5, 6]);
    details.transition_id = 5;
    details
}

fn query(details: Details) -> PeriodQuery<u8, String> {
    handler().pay_next_recurrence(ID, Ok(Some(details))).unwrap()
}

fn schedule() -> Option<OfferRecurrence> {
    monthly(None).recurrence
}

fn due(details: Details) -> DuePayment {
    match query(details).period(schedule(), Some(3)).unwrap().answer(Some((10, 20)), 15) {
        Timing::Due(due) => due,
        _ => panic!("the payment is due"),
    }
}

#[test]
fn validates_fixed_amounts_and_maximum_ceiling() {
    assert_eq!(validate_recurrence_amount(Some(100), None, None).unwrap(), 100);
    assert_eq!(validate_recurrence_amount(Some(100), Some(150), Some(200)).unwrap(), 150);
    assert!(validate_recurrence_amount(Some(100), Some(250), Some(200)).is_err());
    assert!(validate_recurrence_amount(None, None, None).is_err());
}

#[test]
fn the_ceiling_itself_may_be_paid() {
    assert_eq!(validate_recurrence_amount(None, Some(200), Some(200)), Ok(200));
    assert_eq!(validate_recurrence_amount(None, Some(201), Some(200)), Err(Error::InvalidAmount));
    assert_eq!(validate_recurrence_amount(Some(201), None, Some(200)), Err(Error::InvalidAmount));
}

fn refusal(
    handler: Bolt12Payment, offer: &Offer, first_period: Option<u32>, amount: Option<u64>,
    maximum: Option<u64>, quantity: Option<u64>,
) -> Option<Error> {
    handler
        .initiate_recurrence(offer, first_period, amount, maximum, quantity, None, None, None)
        .err()
}

#[test]
fn terms_are_checked_before_anything_is_registered() {
    let offer = monthly(hundred());
    let h = handler();
    assert_eq!(refusal(stopped(), &offer, Some(0), None, None, None), Some(Error::NotRunning));
    let mut once = monthly(hundred());
    once.recurrence = None;
    assert_eq!(
        refusal(h, &once, Some(0), None, None, None),
        Some(Error::InvoiceRequestCreationFailed)
    );
    assert_eq!(
        refusal(h, &offer, None, None, None, None),
        Some(Error::InvoiceRequestCreationFailed)
    );
    let dollars = monthly(Some(OfferAmount::Currency { amount: 5 }));
    assert_eq!(refusal(h, &dollars, Some(0), Some(1), None, None), Some(Error::UnsupportedCurrency));
    let open = monthly(None);
    assert_eq!(refusal(h, &open, Some(0), None, None, None), Some(Error::InvalidAmount));
    assert_eq!(refusal(h, &open, Some(0), Some(0), None, None), Some(Error::InvalidAmount));
    assert_eq!(refusal(h, &offer, Some(0), None, Some(99), None), Some(Error::InvalidAmount));
    assert_eq!(refusal(h, &offer, Some(0), Some(0), Some(0), None), Some(Error::InvalidAmount));
    assert_eq!(refusal(h, &offer, Some(0), None, None, Some(0)), Some(Error::InvalidQuantity));
    assert_eq!(refusal(h, &offer, Some(0), None, Some(100), Some(1)), None);
}

#[test]
fn the_first_record_holds_the_terms() {
    let s = first();
    let d = &s.details;
    assert_eq!(d.id, ID);
    assert_eq!(d.original_offer, ldk_offer().encode());
    assert_eq!(d.amount_msat, Some(150));
    assert_eq!(d.maximum_amount_msat, Some(200));
    assert_eq!(d.quantity, Some(3));
    assert_eq!(d.payer_note.as_deref(), Some("rent\u{7}"));
    assert_eq!(d.routing_override, Some(OWN));
    assert_eq!(d.retry_policy, Retry::Timeout(TIMEOUT));
    assert_eq!(d.recurrence_retry_policy, Some(9));
    assert_eq!(d.retry_state.attempts, 0);
    assert_eq!(d.retry_state.next_retry_at, None);
    assert!(!d.pay_next_automatically);
    assert_eq!(d.initial_start, Some(2));
    assert_eq!(d.paid_count, 0);
    assert_eq!(d.basetime, Some(1_000));
    assert_eq!(d.opaque_state, None);
    assert_eq!(d.last_successful_payment_id, None);
    assert_eq!(
        d.attempt,
        Some(RecurrenceAttempt::Prepared { payment_id: FIRST, amount_msat: 150 })
    );
    assert_eq!(d.cancellation, RecurrenceCancellationState::NotRequested);
    assert_eq!(d.failure, None);
    assert_eq!(d.transition_id, 0);
    assert_eq!(d.status, RecurrenceStatus::Active);

    assert_eq!(s.request.amount_msat, Some(150));
    assert_eq!(s.request.params.counter, 0);
    assert_eq!(s.request.params.start, Some(2));
    assert_eq!(s.request.params.prev_state, None);
    assert_eq!(s.request.params.quantity, Some(3));
    assert_eq!(s.request.params.expected_invoice_recurrence_basetime, Some(1_000));
    assert_eq!(s.request.optional.payer_note.as_deref(), Some("rent\u{7}"));
    assert_eq!(s.request.optional.route_params_config, OWN);
    assert_eq!(s.request.optional.retry_strategy, Retry::Timeout(TIMEOUT));
}

#[test]
fn the_first_payment_takes_default_routes_unless_given_some() {
    let plan = handler()
        .initiate_recurrence(&monthly(hundred()), Some(0), None, None, None, None, None, None)
        .unwrap();
    assert_eq!(plan.amount_msat, 100);
    let s: Submission<u8, String> = plan.register(ID, FIRST, 9);
    assert_eq!(s.request.optional.route_params_config, DEFAULTS);
    assert_eq!(s.details.routing_override, None);
}

#[test]
fn an_implicit_schedule_has_no_basetime_yet() {
    let mut offer = monthly(hundred());
    offer.recurrence = Some(OfferRecurrence { explicit_basetime: None, limit: None });
    let plan =
        handler().initiate_recurrence(&offer, Some(0), None, None, None, None, None, None).unwrap();
    assert_eq!(plan.basetime, None);
}

#[test]
fn a_payment_is_recorded_then_submitted() {
    let mut s = first();
    assert_eq!(s.stage, Stage::RecordAttempt);
    assert_eq!(s.result(), None);
    s.advance(true);
    assert_eq!(s.stage, Stage::RecordPayment);
    let payment = s.payment();
    assert_eq!(payment.id, FIRST);
    assert_eq!(payment.amount_msat, Some(150));
    assert_eq!(payment.fee_paid_msat, None);
    assert_eq!(payment.direction, PaymentDirection::Outbound);
    assert_eq!(payment.status, PaymentStatus::Pending);
    match payment.kind {
        PaymentKind::Bolt12Offer { hash, preimage, secret, offer_id, payer_note, quantity } => {
            assert_eq!((hash, preimage, secret), (None, None, None));
            assert_eq!(offer_id, OfferId(ldk_offer().id().0));
            assert_eq!(payer_note.as_deref(), Some("rent\u{7}"));
            assert_eq!(quantity, Some(3));
        },
        _ => panic!("an offer was paid"),
    }
    s.advance(true);
    assert_eq!(s.stage, Stage::Submit);
    s.advance(true);
    assert_eq!(s.stage, Stage::RecordOutcome);
    assert_eq!(
        s.details.attempt,
        Some(RecurrenceAttempt::Submitted { payment_id: FIRST, amount_msat: 150 })
    );
    assert_eq!(s.details.transition_id, 1);
    assert_eq!(s.details.status, RecurrenceStatus::Active);
    s.advance(false);
    assert_eq!(s.result(), Some(Ok((ID, FIRST))));
}

#[test]
fn an_attempt_that_is_not_recorded_goes_no_further() {
    let mut s = first();
    s.advance(false);
    assert_eq!(s.stage, Stage::Failed);
    assert_eq!(s.result(), Some(Err(Error::PersistenceFailed)));
}

#[test]
fn identifiers_stay_valid_when_submission_fails() {
    let mut s = first();
    s.advance(true);
    s.advance(true);
    s.advance(false);
    assert_eq!(s.details.status, RecurrenceStatus::RequiresAttention);
    assert_eq!(
        s.details.attempt,
        Some(RecurrenceAttempt::Prepared { payment_id: FIRST, amount_msat: 150 })
    );
    assert_eq!(s.details.transition_id, 1);
    s.advance(true);
    assert_eq!(s.result(), Some(Ok((ID, FIRST))));
}

#[test]
fn a_payment_that_is_not_recorded_is_not_submitted() {
    let mut s = first();
    s.advance(true);
    s.advance(false);
    assert_eq!(s.stage, Stage::RecordOutcome);
    assert_eq!(s.details.status, RecurrenceStatus::RequiresAttention);
    assert_eq!(s.details.transition_id, 1);
    s.advance(true);
    assert_eq!(s.result(), Some(Ok((ID, FIRST))));
}

#[test]
fn a_started_recurrence_is_configured() {
    let config = RecurrenceConfig {
        amount_msat: Some(150),
        maximum_amount_msat: Some(200),
        quantity: None,
        payer_note: Some("rent".to_string()),
        routing_override: Some(OWN),
        initial_start: Some(2),
        pay_next_automatically: true,
        retry_policy: 42u8,
    };
    let offer = monthly(hundred());
    assert_eq!(
        stopped().start_recurrence(&offer, Some(2), &config).err(),
        Some(Error::NotRunning)
    );
    let plan = handler().start_recurrence(&offer, Some(2), &config).unwrap();
    assert_eq!(plan.amount_msat, 150);
    assert_eq!(plan.maximum_amount_msat, Some(200));
    assert_eq!(plan.quantity, None);
    assert_eq!(plan.payer_note.as_deref(), Some("rent"));
    assert_eq!(plan.route_parameters, Some(OWN));
    assert_eq!(plan.initial_start, Some(2));
    let stored: Details = plan.register(ID, FIRST, 9).details;
    let done = config.clone().apply(Ok(Some(stored))).unwrap();
    assert!(done.pay_next_automatically);
    assert_eq!(done.recurrence_retry_policy, Some(42));
    assert_eq!(done.transition_id, 1);
    assert_eq!(done.status, RecurrenceStatus::Active);
    assert_eq!(
        config.clone().apply::<String>(Ok(None)).err(),
        Some(Error::PersistenceFailed)
    );
    assert_eq!(config.apply::<String>(Err(StoreError)).err(), Some(Error::PersistenceFailed));
}

#[test]
fn lookups_are_answered() {
    let h = handler();
    assert_eq!(h.recurrence(Ok(Some(paid_once()))).unwrap().id, ID);
    assert_eq!(h.recurrence::<u8, String>(Ok(None)).err(), Some(Error::InvalidOfferId));
    assert_eq!(
        h.recurrence::<u8, String>(Err(StoreError)).err(),
        Some(Error::PersistenceFailed)
    );
    assert_eq!(persisted(Ok(())), Ok(()));
    assert_eq!(persisted(Err(StoreError)), Err(Error::PersistenceFailed));
}

#[test]
fn settings_change_one_thing_each() {
    let h = handler();
    let d = h.set_pay_next_automatically(Ok(Some(paid_once())), true).unwrap();
    assert!(d.pay_next_automatically);
    assert_eq!(d.transition_id, 6);
    assert_eq!(d.routing_override, Some(OWN));
    let d = h.set_recurrence_route_parameters(Ok(Some(d)), None).unwrap();
    assert!(d.pay_next_automatically);
    assert_eq!(d.transition_id, 7);
    assert_eq!(d.routing_override, None);
    assert_eq!(
        h.set_pay_next_automatically::<u8, String>(Ok(None), true).err(),
        Some(Error::InvalidOfferId)
    );
    assert_eq!(
        h.set_recurrence_route_parameters::<u8, String>(Err(StoreError), None).err(),
        Some(Error::PersistenceFailed)
    );
}

#[test]
fn the_next_payment_follows_the_record() {
    let q = query(paid_once());
    assert_eq!(q.counter, 1);
    assert_eq!(q.offer_id, OfferId(ldk_offer().id().0));
    assert_eq!(q.details.initial_start, Some(2));
    let w = q.period(schedule(), Some(3)).unwrap();
    assert_eq!((w.basetime, w.period_index), (1_000, 3));

    let due = due(paid_once());
    assert_eq!(due.amount_msat, 150);
    assert_eq!(
        due.attempt(SECOND),
        RecurrenceAttempt::Prepared { payment_id: SECOND, amount_msat: 150 }
    );
    let mut claimed = paid_once();
    claimed.attempt = Some(due.attempt(SECOND));
    claimed.transition_id = 6;
    let mut s = due.claimed(&handler(), SECOND, Ok(Some(claimed))).unwrap();
    assert_eq!(s.stage, Stage::RecordPayment);
    assert_eq!(s.recurrence_id, ID);
    assert_eq!(s.request.amount_msat, Some(150));
    assert_eq!(s.request.params.counter, 1);
    assert_eq!(s.request.params.start, Some(2));
    assert_eq!(s.request.params.prev_state, Some(vec![4, 5, 6]));
    assert_eq!(s.request.params.quantity, Some(3));
    assert_eq!(s.request.params.expected_invoice_recurrence_basetime, Some(1_000));
    assert_eq!(s.request.optional.payer_note.as_deref(), Some("rent\u{FFFD}"));
    assert_eq!(s.request.optional.route_params_config, OWN);
    assert_eq!(s.request.optional.retry_strategy, Retry::Timeout(TIMEOUT));
    let payment = s.payment();
    assert_eq!((payment.id, payment.amount_msat), (SECOND, Some(150)));
    match payment.kind {
        PaymentKind::Bolt12Offer { payer_note, .. } => {
            assert_eq!(payer_note.as_deref(), Some("rent\u{7}"))
        },
        _ => panic!("an offer was paid"),
    }
    s.advance(true);
    s.advance(true);
    assert_eq!(
        s.details.attempt,
        Some(RecurrenceAttempt::Submitted { payment_id: SECOND, amount_msat: 150 })
    );
    assert_eq!(s.details.transition_id, 7);
    s.advance(true);
    assert_eq!(s.result(), Some(Ok((ID, SECOND))));
}

#[test]
fn later_payments_fall_back_to_the_routes_of_the_node() {
    let mut claimed = paid_once();
    claimed.routing_override = None;
    claimed.payer_note = None;
    let s = due(paid_once()).claimed(&handler(), SECOND, Ok(Some(claimed))).unwrap();
    assert_eq!(s.request.optional.route_params_config, NODE_WIDE);
    assert_eq!(s.request.optional.payer_note, None);
    let mut claimed = paid_once();
    claimed.routing_override = None;
    let s = due(paid_once()).claimed(&stopped(), SECOND, Ok(Some(claimed))).unwrap();
    assert_eq!(s.request.optional.route_params_config, DEFAULTS);
}

#[test]
fn a_claim_may_be_lost() {
    let h = handler();
    assert_eq!(
        due(paid_once()).claimed::<u8, String>(&h, SECOND, Ok(None)).err(),
        Some(Error::PaymentSendingFailed)
    );
    assert_eq!(
        due(paid_once()).claimed::<u8, String>(&h, SECOND, Err(StoreError)).err(),
        Some(Error::PersistenceFailed)
    );
}

#[test]
fn there_is_not_always_a_next_payment() {
    let next = |h: Bolt12Payment, d: Details| h.pay_next_recurrence(ID, Ok(Some(d))).err();
    assert_eq!(next(stopped(), paid_once()), Some(Error::NotRunning));
    assert_eq!(
        handler().pay_next_recurrence::<u8, String>(ID, Ok(None)).err(),
        Some(Error::InvalidOfferId)
    );
    assert_eq!(
        handler().pay_next_recurrence::<u8, String>(ID, Err(StoreError)).err(),
        Some(Error::PersistenceFailed)
    );
    assert_eq!(next(handler(), first().details), Some(Error::InvalidOffer));
    let mut d = paid_once();
    d.status = RecurrenceStatus::Completed;
    assert_eq!(next(handler(), d), Some(Error::InvalidOffer));
    let mut d = paid_once();
    d.attempt = first().details.attempt;
    assert_eq!(next(handler(), d), Some(Error::PaymentSendingFailed));
    let mut d = paid_once();
    d.paid_count = u32::MAX as u64 + 1;
    assert_eq!(next(handler(), d), Some(Error::InvalidAmount));
    let mut d = paid_once();
    d.original_offer = vec![1, 2, 3];
    assert_eq!(next(handler(), d), Some(Error::InvalidOffer));
    let mut d = paid_once();
    d.paid_count = u32::MAX as u64;
    assert_eq!(query(d).counter, u32::MAX);
}

#[test]
fn periods_have_to_be_on_schedule() {
    let err = |r: Result<_, Error>| r.err();
    assert_eq!(err(query(paid_once()).period(None, Some(1)).map(|_| ())), Some(Error::InvalidOffer));
    assert_eq!(
        err(query(paid_once()).period(schedule(), None).map(|_| ())),
        Some(Error::InvalidOffer)
    );
    assert_eq!(
        err(query(paid_once()).period(schedule(), Some(4)).map(|_| ())),
        Some(Error::InvalidOffer)
    );
    assert!(query(paid_once()).period(schedule(), Some(3)).is_ok());
    let endless = Some(OfferRecurrence { explicit_basetime: None, limit: None });
    assert!(query(paid_once()).period(endless, Some(u32::MAX)).is_ok());
    let mut d = paid_once();
    d.basetime = None;
    assert_eq!(err(query(d).period(schedule(), Some(1)).map(|_| ())), Some(Error::InvalidOffer));
}

#[test]
fn payments_are_made_within_their_window() {
    let at = |window, now| query(paid_once()).period(schedule(), Some(1)).unwrap().answer(window, now);
    assert_eq!(at(None, 15).refusal(), Some(Error::InvalidOffer));
    assert!(matches!(at(None, 15), Timing::Refused(_)));
    assert!(matches!(at(Some((10, 20)), 9), Timing::Refused(Error::InvalidOffer)));
    assert_eq!(at(Some((10, 20)), 10).refusal(), None);
    assert!(matches!(at(Some((10, 20)), 19), Timing::Due(_)));
    match at(Some((10, 20)), 20) {
        Timing::Missed(d) => {
            assert_eq!(d.status, RecurrenceStatus::Missed);
            assert_eq!(d.transition_id, 6);
            assert_eq!(
                handler().pay_next_recurrence(ID, Ok(Some(d.clone()))).err(),
                Some(Error::InvalidOffer)
            );
            assert_eq!(handler().remove_recurrence(Ok(Some(d))), Ok(()));
        },
        _ => panic!("the period is over"),
    }
    assert_eq!(at(Some((10, 20)), 20).refusal(), Some(Error::InvalidOffer));
    let mut d = paid_once();
    d.amount_msat = None;
    let late = query(d).period(schedule(), Some(1)).unwrap().answer(Some((10, 20)), 15);
    assert_eq!(late.refusal(), Some(Error::InvalidAmount));
}

#[test]
fn windows_are_payable_while_they_are_open() {
    let h = handler();
    let request = h.recurrence_payment_window(&monthly(None), 4).unwrap();
    assert_eq!(request, WindowRequest { basetime: 1_000, period_index: 4 });
    let window = |payable| RecurrencePaymentWindow {
        period_index: 4,
        opens_at: 10,
        closes_at: 20,
        currently_payable: payable,
    };
    assert_eq!(request.answer(Some((10, 20)), 9), Ok(window(false)));
    assert_eq!(request.answer(Some((10, 20)), 10), Ok(window(true)));
    assert_eq!(request.answer(Some((10, 20)), 19), Ok(window(true)));
    assert_eq!(request.answer(Some((10, 20)), 20), Ok(window(false)));
    assert_eq!(request.answer(None, 20), Err(Error::InvalidOffer));

    let mut offer = monthly(None);
    offer.recurrence = Some(OfferRecurrence { explicit_basetime: None, limit: None });
    assert_eq!(h.recurrence_payment_window(&offer, 0), Err(Error::InvalidOffer));
    offer.recurrence = None;
    assert_eq!(h.recurrence_payment_window(&offer, 0), Err(Error::InvalidOffer));
}

#[test]
fn the_next_window_is_that_of_the_next_payment() {
    let h = handler();
    let next = |d: Details, period| {
        h.next_recurrence_payment_window(Ok(Some(d)), schedule(), period)
    };
    let request = next(paid_once(), Some(3)).unwrap();
    assert_eq!(request, WindowRequest { basetime: 1_000, period_index: 3 });
    let payment = query(paid_once()).period(schedule(), Some(3)).unwrap();
    assert_eq!(
        (request.basetime, request.period_index),
        (payment.basetime, payment.period_index)
    );
    for now in [9, 10, 19, 20] {
        let payable = request.answer(Some((10, 20)), now).unwrap().currently_payable;
        let due = payment.clone().answer(Some((10, 20)), now).refusal().is_none();
        assert_eq!(payable, due);
    }

    let mut d = paid_once();
    d.paid_count = 2;
    d.initial_start = Some(1);
    let window = next(d, Some(3)).unwrap().answer(Some((30, 40)), 35).unwrap();
    assert_eq!((window.period_index, window.opens_at, window.closes_at), (3, 30, 40));
}

#[test]
fn there_is_not_always_a_next_window() {
    let h = handler();
    let next = |d: Details, period| {
        h.next_recurrence_payment_window(Ok(Some(d)), schedule(), period)
    };
    assert_eq!(
        h.next_recurrence_payment_window::<u8, String>(Ok(None), schedule(), Some(3)),
        Err(Error::InvalidOfferId)
    );
    assert_eq!(
        h.next_recurrence_payment_window::<u8, String>(Err(StoreError), schedule(), Some(3)),
        Err(Error::PersistenceFailed)
    );
    assert_eq!(
        h.next_recurrence_payment_window(Ok(Some(paid_once())), None, Some(3)),
        Err(Error::InvalidOffer)
    );
    assert_eq!(next(paid_once(), None), Err(Error::InvalidOffer));
    let mut d = paid_once();
    d.basetime = None;
    assert_eq!(next(d, Some(3)), Err(Error::InvalidOffer));
    let mut d = paid_once();
    d.original_offer = vec![0xff];
    assert_eq!(next(d, Some(3)), Err(Error::InvalidOffer));
    let mut d = paid_once();
    d.paid_count = u32::MAX as u64 + 1;
    assert_eq!(next(d, None), Err(Error::InvalidAmount));
}

#[test]
fn a_removed_recurrence_is_gone() {
    let h = handler();
    let other = RecurrenceId([8; 32]);
    let mut records = HashMap::new();
    records.insert(ID, with_status(RecurrenceStatus::Completed));
    records.insert(other, RecurrenceDetails { id: other, ..paid_once() });
    assert_eq!(
        h.remove_recurrence(Ok(records.get(&other).cloned())),
        Err(Error::InvalidOffer)
    );
    assert_eq!(h.remove_recurrence(Ok(records.get(&ID).cloned())), Ok(()));
    records.remove(&ID);
    assert_eq!(h.recurrence(Ok(records.get(&ID).cloned())).err(), Some(Error::InvalidOfferId));
    assert_eq!(
        h.remove_recurrence(Ok(records.get(&ID).cloned())),
        Err(Error::InvalidOfferId)
    );
    assert_eq!(h.recurrence(Ok(records.get(&other).cloned())).unwrap().id, other);
}

#[test]
fn changes_of_the_record_are_announced() {
    let mut s = first();
    assert!(!s.changes_record(true) && !s.changes_record(false));
    s.advance(true);
    assert!(!s.changes_record(true) && s.changes_record(false));
    s.advance(true);
    assert!(s.changes_record(true) && s.changes_record(false));

    let mut c = handler().cancel_recurrence(ID, Ok(Some(paid_once()))).unwrap().unwrap();
    assert!(!c.changes_record(true) && !c.changes_record(false));
    c.advance(true);
    assert!(c.changes_record(false));
    let mut d = paid_once();
    d.paid_count = 0;
    let c = handler().cancel_recurrence(ID, Ok(Some(d))).unwrap().unwrap();
    assert!(c.changes_record(true) && !c.changes_record(false));

    let w = query(paid_once()).period(schedule(), Some(3)).unwrap();
    assert!(!w.is_missed(None, 50));
    assert!(!w.is_missed(Some((10, 20)), 9));
    assert!(!w.is_missed(Some((10, 20)), 19));
    assert!(w.is_missed(Some((10, 20)), 20));
    assert!(!w.is_missed(Some((30, 20)), 25));
}

fn with_status(status: RecurrenceStatus) -> Details {
    let mut d = paid_once();
    d.status = status;
    d
}

#[test]
fn only_what_is_over_or_stuck_is_removed() {
    let h = handler();
    for status in [
        RecurrenceStatus::Cancelled,
        RecurrenceStatus::Completed,
        RecurrenceStatus::Missed,
        RecurrenceStatus::RequiresAttention,
    ] {
        assert_eq!(h.remove_recurrence(Ok(Some(with_status(status)))), Ok(()));
        assert_eq!(
            h.cancel_recurrence(ID, Ok(Some(with_status(status)))).err(),
            Some(Error::InvalidOffer)
        );
    }
    for status in [RecurrenceStatus::Active, RecurrenceStatus::CancellationPending] {
        assert_eq!(
            h.remove_recurrence(Ok(Some(with_status(status)))),
            Err(Error::InvalidOffer)
        );
        assert!(h.cancel_recurrence(ID, Ok(Some(with_status(status)))).is_ok());
    }
    assert_eq!(h.remove_recurrence::<u8, String>(Ok(None)), Err(Error::InvalidOfferId));
    assert_eq!(h.remove_recurrence::<u8, String>(Err(StoreError)), Err(Error::PersistenceFailed));
}

#[test]
fn cancelling_an_unpaid_recurrence_is_a_local_matter() {
    let mut c = handler().cancel_recurrence(ID, Ok(Some(first().details))).unwrap().unwrap();
    assert_eq!(c.stage, CancellationStage::RecordPending);
    assert_eq!(c.details.status, RecurrenceStatus::CancellationPending);
    assert_eq!(c.details.cancellation, RecurrenceCancellationState::Pending);
    assert_eq!(c.details.transition_id, 1);
    c.advance(true);
    assert_eq!(c.stage, CancellationStage::Abandon);
    assert_eq!(c.payment(), Some(FIRST));
    c.advance(true);
    assert_eq!(c.stage, CancellationStage::RecordCancelled);
    assert_eq!(c.details.status, RecurrenceStatus::Cancelled);
    assert_eq!(c.details.cancellation, RecurrenceCancellationState::Cancelled);
    assert_eq!(c.details.transition_id, 2);
    assert_eq!(c.result(), None);
    c.advance(true);
    assert_eq!(c.result(), Some(Ok(())));
    assert_eq!(handler().remove_recurrence(Ok(Some(c.details))), Ok(()));
}

#[test]
fn the_payee_is_told_once_it_was_paid() {
    let mut c = handler().cancel_recurrence(ID, Ok(Some(paid_once()))).unwrap().unwrap();
    assert_eq!(c.payment(), None);
    c.advance(true);
    assert_eq!(c.stage, CancellationStage::Notify);
    let params = c.params();
    assert_eq!((params.counter, params.start), (1, Some(2)));
    assert_eq!(params.prev_state, Some(vec![4, 5, 6]));
    c.advance(false);
    assert_eq!(c.stage, CancellationStage::RecordCancelled);
    c.advance(true);
    assert_eq!(c.result(), Some(Ok(())));
    assert_eq!(c.details.transition_id, 7);
}

#[test]
fn a_cancellation_can_fail() {
    let begin = |d: Details| handler().cancel_recurrence(ID, Ok(Some(d))).unwrap().unwrap();
    let mut c = begin(paid_once());
    c.advance(false);
    assert_eq!(c.result(), Some(Err(Error::PersistenceFailed)));
    assert_eq!(c.details.status, RecurrenceStatus::CancellationPending);

    let mut c = begin(paid_once());
    c.advance(true);
    c.advance(true);
    c.advance(false);
    assert_eq!(c.result(), Some(Err(Error::PersistenceFailed)));

    let mut d = paid_once();
    d.original_offer = vec![1];
    let mut c = begin(d);
    c.advance(true);
    assert_eq!(c.result(), Some(Err(Error::InvalidOffer)));
    assert_eq!(c.details.status, RecurrenceStatus::CancellationPending);

    let mut d = paid_once();
    d.paid_count = u32::MAX as u64 + 1;
    let mut c = begin(d);
    c.advance(true);
    assert_eq!(c.result(), Some(Err(Error::InvalidAmount)));

    assert_eq!(
        handler().cancel_recurrence::<u8, String>(ID, Ok(None)).err(),
        Some(Error::InvalidOfferId)
    );
    assert_eq!(
        handler().cancel_recurrence::<u8, String>(ID, Err(StoreError)).err(),
        Some(Error::PersistenceFailed)
    );
}

#[test]
fn a_pending_cancellation_is_left_alone() {
    let pending = with_status(RecurrenceStatus::CancellationPending);
    assert!(handler().cancel_recurrence(ID, Ok(Some(pending.clone()))).unwrap().is_none());
    assert_eq!(
        handler().pay_next_recurrence(ID, Ok(Some(pending))).err(),
        Some(Error::InvalidOffer)
    );
}
