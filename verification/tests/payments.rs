use bolt12_payment::async_payments::paths_set;
use bolt12_payment::bolt12::Bolt12Payment;
use bolt12_payment::error::Error;
use bolt12_payment::payer_proof::{PayerProofOptions, ProofStep};
use bolt12_payment::payment::{PaymentDirection, PaymentKind, PaymentStatus};
use bolt12_payment::sending::{OfferOutcome, OfferRequest};
use bolt12_payment::types::{
    AsyncPaymentsRole, Config, HumanReadableName, Offer, OfferAmount, OfferId, OfferRecurrence,
    PaymentId, Retry, RouteParameters, TimeSpan,
};
use lightning::util::ser::Writeable;

const TIMEOUT: TimeSpan = TimeSpan { secs: 10, nanos: 0 };
const NODE_WIDE: RouteParameters = RouteParameters {
    max_total_routing_fee_msat: Some(5_000),
    max_total_cltv_expiry_delta: 500,
    max_path_count: 4,
    max_channel_saturation_power_of_half: 3,
};
const OWN: RouteParameters = RouteParameters {
    max_total_routing_fee_msat: None,
    max_total_cltv_expiry_delta: 144,
    max_path_count: 1,
    max_channel_saturation_power_of_half: 0,
};
const ID: PaymentId = PaymentId([1; 32]);
const NOW: TimeSpan = TimeSpan { secs: 1_700_000_000, nanos: 500 };

fn node(route_parameters: Option<RouteParameters>, is_running: bool) -> Bolt12Payment {
    Bolt12Payment::new(Config { route_parameters, payment_retry_timeout: TIMEOUT }, is_running, None)
}

fn offer(amount: Option<OfferAmount>) -> Offer {
    Offer { id: OfferId([8; 32]), amount, recurrence: None, encoded: vec![] }
}

fn hundred() -> Offer {
    offer(Some(OfferAmount::Bitcoin { amount_msats: 100 }))
}

#[test]
fn an_offer_with_an_amount_is_paid_as_it_is() {
    let p = node(Some(NODE_WIDE), true)
        .send(ID, &hundred(), None, Some("hi".to_string()), None)
        .unwrap();
    assert!(matches!(p.request, OfferRequest::Plain { amount_msats: None }));
    assert_eq!(p.params.payer_note.as_deref(), Some("hi"));
    assert_eq!(p.params.route_params_config, NODE_WIDE);
    assert_eq!(p.params.retry_strategy, Retry::Timeout(TIMEOUT));
    let recording = p.answered(OfferOutcome::Accepted).unwrap();
    assert_eq!(recording.payment.id, ID);
    assert_eq!(recording.payment.amount_msat, Some(100));
    assert_eq!(recording.payment.fee_paid_msat, None);
    assert_eq!(recording.payment.direction, PaymentDirection::Outbound);
    assert_eq!(recording.payment.status, PaymentStatus::Pending);
    match &recording.payment.kind {
        PaymentKind::Bolt12Offer { hash, preimage, secret, offer_id, payer_note, quantity } => {
            assert_eq!((hash, preimage, secret), (&None, &None, &None));
            assert_eq!(*offer_id, OfferId([8; 32]));
            assert_eq!(payer_note.as_deref(), Some("hi"));
            assert_eq!(*quantity, None);
        },
        _ => panic!("an offer was paid"),
    }
    assert_eq!(recording.stored(Ok(())), Ok(ID));
}

#[test]
fn several_items_are_asked_for_by_quantity() {
    let p = node(None, true).send(ID, &hundred(), Some(3), None, Some(OWN)).unwrap();
    assert!(matches!(p.request, OfferRequest::WithQuantity { amount_msats: None, quantity: 3 }));
    assert_eq!(p.params.route_params_config, OWN);
    assert_eq!(p.quantity, Some(3));
}

#[test]
fn routes_are_limited_by_defaults_at_last() {
    let p = node(None, true).send(ID, &hundred(), None, None, None).unwrap();
    let defaults = lightning::routing::router::RouteParametersConfig::default();
    assert_eq!(
        p.params.route_params_config.max_total_routing_fee_msat,
        defaults.max_total_routing_fee_msat
    );
    assert_eq!(
        p.params.route_params_config.max_total_cltv_expiry_delta,
        defaults.max_total_cltv_expiry_delta
    );
    assert_eq!(p.params.route_params_config.max_path_count, defaults.max_path_count);
    assert_eq!(
        p.params.route_params_config.max_channel_saturation_power_of_half,
        defaults.max_channel_saturation_power_of_half
    );
}

#[test]
fn given_routes_override_every_field() {
    let p = node(Some(NODE_WIDE), true).send(ID, &hundred(), None, None, Some(OWN)).unwrap();
    assert_eq!(p.params.route_params_config, OWN);
}

#[test]
fn not_every_offer_is_paid() {
    let send = |n: Bolt12Payment, o: Offer| n.send(ID, &o, None, None, None).err();
    assert_eq!(send(node(None, false), hundred()), Some(Error::NotRunning));
    assert_eq!(
        send(node(None, true), offer(Some(OfferAmount::Currency { amount: 1 }))),
        Some(Error::UnsupportedCurrency)
    );
    assert_eq!(send(node(None, true), offer(None)), Some(Error::InvalidOffer));
    let give =
        |n: Bolt12Payment, o: Offer, a| n.send_using_amount(ID, &o, a, None, None, None).err();
    assert_eq!(give(node(None, false), hundred(), 100), Some(Error::NotRunning));
    assert_eq!(
        give(node(None, true), offer(Some(OfferAmount::Currency { amount: 1 })), 100),
        Some(Error::UnsupportedCurrency)
    );
    assert_eq!(give(node(None, true), hundred(), 99), Some(Error::InvalidAmount));
    assert_eq!(give(node(None, true), hundred(), 100), None);
    assert_eq!(give(node(None, true), hundred(), 101), None);
    assert_eq!(give(node(None, true), offer(None), 0), None);
}

#[test]
fn a_given_amount_is_what_is_asked_and_recorded() {
    let n = node(None, true);
    let p = n.send_using_amount(ID, &offer(None), 70, Some(2), None, None).unwrap();
    assert!(matches!(
        p.request,
        OfferRequest::WithQuantity { amount_msats: Some(70), quantity: 2 }
    ));
    let r = p.answered(OfferOutcome::Accepted).unwrap();
    assert_eq!(r.payment.amount_msat, Some(70));
    let p = n.send_using_amount(ID, &hundred(), 170, None, None, None).unwrap();
    assert!(matches!(p.request, OfferRequest::Plain { amount_msats: Some(170) }));
}

#[test]
fn a_name_comes_before_a_quantity() {
    let hrn = HumanReadableName { user: "ada".to_string(), domain: "example.org".to_string() };
    let p = node(None, true)
        .send_using_amount_inner(ID, &hundred(), 100, Some(2), None, None, Some(hrn))
        .unwrap();
    match &p.request {
        OfferRequest::FromHrn { hrn, amount_msats } => {
            assert_eq!((hrn.user.as_str(), hrn.domain.as_str()), ("ada", "example.org"));
            assert_eq!(*amount_msats, 100);
        },
        _ => panic!("the offer has a name"),
    }
    match p.answered(OfferOutcome::Accepted).unwrap().payment.kind {
        PaymentKind::Bolt12Offer { quantity, .. } => assert_eq!(quantity, Some(2)),
        _ => panic!("an offer was paid"),
    }
}

#[test]
fn refused_payments_are_recorded_and_duplicates_are_not() {
    let n = node(None, true);
    let send = || n.send(ID, &hundred(), None, None, None).unwrap();
    let give = || n.send_using_amount(ID, &hundred(), 100, None, None, None).unwrap();
    let r = send().answered(OfferOutcome::Refused).unwrap();
    assert_eq!(r.payment.status, PaymentStatus::Failed);
    assert_eq!(r.payment.id, ID);
    assert_eq!(r.stored(Ok(())), Err(Error::InvoiceRequestCreationFailed));
    let r = give().answered(OfferOutcome::Refused).unwrap();
    assert_eq!(r.payment.status, PaymentStatus::Failed);
    assert_eq!(r.stored(Ok(())), Err(Error::PaymentSendingFailed));
    assert_eq!(
        send().answered(OfferOutcome::DuplicatePaymentId).err(),
        Some(Error::DuplicatePayment)
    );
    assert_eq!(
        give().answered(OfferOutcome::DuplicatePaymentId).err(),
        Some(Error::DuplicatePayment)
    );
    let r = send().answered(OfferOutcome::Accepted).unwrap();
    assert_eq!(r.stored(Err(Error::PersistenceFailed)), Err(Error::PersistenceFailed));
}

#[test]
fn offers_are_planned() {
    let n = node(None, false);
    let plan = n.receive(true, NOW, 500, "tea", Some(3600), Some(2)).unwrap();
    assert_eq!(plan.amount_msats, Some(500));
    assert_eq!(plan.description, "tea");
    assert_eq!(plan.absolute_expiry, Some(TimeSpan { secs: 1_700_003_600, nanos: 500 }));
    assert_eq!(plan.max_quantity, Some(2));
    assert_eq!(plan.built(Some(5)), Ok(5));
    let plan = n.receive_inner(true, NOW, 500, "tea", None, None).unwrap();
    assert_eq!(plan.absolute_expiry, None);
    assert_eq!(plan.max_quantity, None);
    assert_eq!(plan.built::<u8>(None), Err(Error::OfferCreationFailed));
    assert_eq!(
        n.receive(true, NOW, 500, "tea", None, Some(0)).err(),
        Some(Error::InvalidQuantity)
    );
    assert_eq!(
        n.receive(false, NOW, 500, "tea", None, Some(0)).err(),
        Some(Error::OfferCreationFailed)
    );
}

#[test]
fn offers_may_leave_the_amount_open() {
    let n = node(None, false);
    let plan = n.receive_variable_amount(true, NOW, "tip", Some(1)).unwrap();
    assert_eq!(plan.amount_msats, None);
    assert_eq!(plan.description, "tip");
    assert_eq!(plan.absolute_expiry, Some(TimeSpan { secs: 1_700_000_001, nanos: 500 }));
    assert_eq!(plan.max_quantity, None);
    assert_eq!(
        n.receive_variable_amount(false, NOW, "tip", None).err(),
        Some(Error::OfferCreationFailed)
    );
}

#[test]
fn refunds_are_planned_and_recorded() {
    let plan = node(Some(NODE_WIDE), false).initiate_refund(
        ID,
        NOW,
        900,
        60,
        Some(4),
        Some("sorry".to_string()),
        None,
    );
    assert_eq!(plan.amount_msat, 900);
    assert_eq!(plan.absolute_expiry, TimeSpan { secs: 1_700_000_060, nanos: 500 });
    assert_eq!(plan.retry_strategy, Retry::Timeout(TIMEOUT));
    assert_eq!(plan.route_parameters, NODE_WIDE);
    let recording = plan.clone().built(Some(7)).unwrap();
    let payment = recording.payment.clone();
    assert_eq!(recording.stored(Ok(())), Ok(7));
    assert_eq!(payment.id, ID);
    assert_eq!(payment.amount_msat, Some(900));
    assert_eq!(payment.status, PaymentStatus::Pending);
    assert_eq!(payment.direction, PaymentDirection::Outbound);
    match payment.kind {
        PaymentKind::Bolt12Refund { hash, preimage, secret, payer_note, quantity } => {
            assert_eq!((hash, preimage, secret), (None, None, None));
            assert_eq!(payer_note.as_deref(), Some("sorry"));
            assert_eq!(quantity, Some(4));
        },
        _ => panic!("a refund was offered"),
    }
    let recording = plan.clone().built(Some(7)).unwrap();
    assert_eq!(recording.stored(Err(Error::PersistenceFailed)), Err(Error::PersistenceFailed));
    assert_eq!(plan.built::<u8>(None).err(), Some(Error::RefundCreationFailed));
}

#[test]
fn refunds_are_requested_by_a_running_node() {
    assert_eq!(node(None, false).request_refund_payment().err(), Some(Error::NotRunning));
    let request = node(None, true).request_refund_payment().unwrap();
    assert_eq!(request.answered(Some(3)), Ok(3));
    assert_eq!(request.answered::<u8>(None), Err(Error::InvoiceRequestCreationFailed));
}

fn options() -> PayerProofOptions {
    PayerProofOptions {
        note: Some("see".to_string()),
        include_offer_description: true,
        include_offer_issuer: false,
        include_invoice_amount: true,
        include_invoice_created_at: false,
        extra_tlv_types: vec![90, 84],
    }
}

#[test]
fn proofs_disclose_what_is_asked_for() {
    let plan = node(None, false).create_payer_proof(ID, Some(options()));
    assert_eq!(plan.payment_id, ID);
    assert_eq!(plan.steps.len(), 5);
    assert!(matches!(plan.steps[0], ProofStep::IncludeType(90)));
    assert!(matches!(plan.steps[1], ProofStep::IncludeType(84)));
    assert!(matches!(plan.steps[2], ProofStep::IncludeOfferDescription));
    assert!(matches!(plan.steps[3], ProofStep::IncludeInvoiceAmount));
    assert!(matches!(&plan.steps[4], ProofStep::Note(note) if note == "see"));
    let rest = PayerProofOptions {
        note: None,
        include_offer_description: false,
        include_offer_issuer: true,
        include_invoice_amount: false,
        include_invoice_created_at: true,
        extra_tlv_types: vec![],
    };
    let plan = node(None, false).create_payer_proof(ID, Some(rest));
    assert_eq!(plan.steps.len(), 2);
    assert!(matches!(plan.steps[0], ProofStep::IncludeOfferIssuer));
    assert!(matches!(plan.steps[1], ProofStep::IncludeInvoiceCreatedAt));
}

#[test]
fn proofs_disclose_nothing_by_default() {
    let n = node(None, false);
    assert!(n.create_payer_proof(ID, None).steps.is_empty());
    assert!(n.create_payer_proof(ID, Some(PayerProofOptions::default())).steps.is_empty());
    assert_eq!(
        PayerProofOptions::default(),
        PayerProofOptions {
            note: None,
            include_offer_description: false,
            include_offer_issuer: false,
            include_invoice_amount: false,
            include_invoice_created_at: false,
            extra_tlv_types: vec![],
        }
    );
    assert_eq!(n.create_payer_proof(ID, None).built(Some(1)), Ok(1));
    assert_eq!(
        n.create_payer_proof(ID, None).built::<u8>(None),
        Err(Error::PayerProofCreationFailed)
    );
}

const POINT: [u8; 33] = [
    0x02, 0x79, 0xbe, 0x66, 0x7e, 0xf9, 0xdc, 0xbb, 0xac, 0x55, 0xa0, 0x62, 0x95, 0xce, 0x87, 0x0b,
    0x07, 0x02, 0x9b, 0xfc, 0xdb, 0x2d, 0xce, 0x28, 0xd9, 0x59, 0xf2, 0x81, 0x5b, 0x16, 0xf8, 0x17,
    0x98,
];

fn one_path() -> Vec<u8> {
    let mut bytes = vec![0, 1];
    bytes.extend_from_slice(&POINT);
    bytes.extend_from_slice(&POINT);
    bytes.push(1);
    bytes.extend_from_slice(&POINT);
    bytes.extend_from_slice(&[0, 3, 7, 8, 9]);
    bytes
}

fn issuer() -> bitcoin::secp256k1::PublicKey {
    bitcoin::secp256k1::PublicKey::from_slice(&POINT).unwrap()
}

#[test]
fn offers_are_decoded() {
    let built = lightning::offers::offer::OfferBuilder::new(issuer())
        .amount_msats(1_000)
        .description("tea".to_string())
        .build()
        .unwrap();
    let schedule = Some(OfferRecurrence { explicit_basetime: Some(4), limit: None });
    let offer = Offer::decode(built.encode(), schedule).unwrap();
    assert_eq!(offer.id, OfferId(built.id().0));
    assert_eq!(offer.amount, Some(OfferAmount::Bitcoin { amount_msats: 1_000 }));
    assert_eq!(offer.recurrence, schedule);
    assert_eq!(offer.encoded, built.encode());
    let open = lightning::offers::offer::OfferBuilder::new(issuer()).build().unwrap();
    assert_eq!(Offer::decode(open.encode(), None).unwrap().amount, None);
    assert!(Offer::decode(vec![1, 2, 3], None).is_none());
}

#[test]
fn other_currencies_are_not_paid() {
    let mut encoded = vec![6, 3, 85, 83, 68, 8, 1, 10, 10, 1, 120, 22, 33];
    encoded.extend_from_slice(&POINT);
    let dollars = Offer::decode(encoded, None).unwrap();
    assert_eq!(dollars.amount, Some(OfferAmount::Currency { amount: 10 }));
    let n = node(None, true);
    assert_eq!(
        n.send(ID, &dollars, None, None, None).err(),
        Some(Error::UnsupportedCurrency)
    );
}

#[test]
fn an_async_offer_is_handed_on() {
    let n = node(None, false);
    assert_eq!(n.receive_async(Some(1)), Ok(1));
    assert_eq!(n.receive_async::<u8>(None), Err(Error::OfferCreationFailed));
}

#[test]
fn paths_are_read_and_written() {
    let n = Bolt12Payment::new(
        Config { route_parameters: None, payment_retry_timeout: TIMEOUT },
        false,
        Some(AsyncPaymentsRole::Server),
    );
    let paths = n.set_paths_to_static_invoice_server(one_path()).unwrap();
    assert_eq!(paths.len(), 1);
    let recipient = n.blinded_paths_for_async_recipient(vec![5]).unwrap();
    assert_eq!(recipient.recipient_id, vec![5]);
    assert_eq!(recipient.clone().paths(Some(paths.clone())), Ok(paths.clone()));
    assert_eq!(recipient.clone().encoded_paths(Some(paths)), Ok(one_path()));
    assert_eq!(recipient.clone().encoded_paths(Some(vec![])), Ok(vec![0, 0]));
    assert_eq!(recipient.clone().paths(None), Err(Error::InvalidBlindedPaths));
    assert_eq!(recipient.encoded_paths(None), Err(Error::InvalidBlindedPaths));
}

#[test]
fn malformed_paths_are_refused() {
    let n = node(None, true);
    let mut bytes = one_path();
    bytes.pop();
    assert_eq!(
        n.set_paths_to_static_invoice_server(bytes).err(),
        Some(Error::InvalidBlindedPaths)
    );
    assert_eq!(
        n.set_paths_to_static_invoice_server(vec![]).err(),
        Some(Error::InvalidBlindedPaths)
    );
    assert_eq!(paths_set(true), Ok(()));
    assert_eq!(paths_set(false), Err(Error::InvalidBlindedPaths));
}

#[test]
fn only_a_server_makes_paths() {
    let with = |role| {
        Bolt12Payment::new(
            Config { route_parameters: None, payment_retry_timeout: TIMEOUT },
            true,
            role,
        )
        .blinded_paths_for_async_recipient(vec![])
        .err()
    };
    assert_eq!(with(None), Some(Error::AsyncPaymentServicesDisabled));
    assert_eq!(
        with(Some(AsyncPaymentsRole::Client)),
        Some(Error::AsyncPaymentServicesDisabled)
    );
    assert_eq!(with(Some(AsyncPaymentsRole::Server)), None);
}
