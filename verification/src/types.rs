//! The plain values that payments are described with.

use vstd::prelude::*;

use crate::error::WireError;
use crate::tlv::{
    complete, holds_fields, lemma_struct_round_trip, parse_struct, records_from, struct_bytes,
    Schema, Table,
};
use crate::wire::{be_bytes, lemma_pow256, lemma_uint_round_trip, parse_uint};

verus! {

/// Identifies one payment.
#[derive(Clone, Copy, Debug, PartialEq, Eq, Hash)]
pub struct PaymentId(pub [u8; 32]);

/// Identifies an offer by its contents.
#[derive(Clone, Copy, Debug, PartialEq, Eq, Hash)]
pub struct OfferId(pub [u8; 32]);

impl View for PaymentId {
    type V = Seq<u8>;

    open spec fn view(&self) -> Seq<u8> {
        self.0@
    }
}

impl View for OfferId {
    type V = Seq<u8>;

    open spec fn view(&self) -> Seq<u8> {
        self.0@
    }
}

/// Limits on the routes that a payment may take.
#[derive(Clone, Copy, Debug, PartialEq, Eq, Structural)]
pub struct RouteParameters {
    /// The most that may be paid in fees, in millisatoshi.
    pub max_total_routing_fee_msat: Option<u64>,
    /// The largest total of expiry deltas that is accepted.
    pub max_total_cltv_expiry_delta: u32,
    /// The most paths that a payment may be split over.
    pub max_path_count: u8,
    /// The largest share of a channel's capacity that is used, as a power of one half.
    pub max_channel_saturation_power_of_half: u8,
}

/// A span of time: whole seconds, and less than a second in nanoseconds.
#[derive(Clone, Copy, Debug, PartialEq, Eq, Structural)]
pub struct TimeSpan {
    pub secs: u64,
    pub nanos: u32,
}

/// The number of nanoseconds in a second.
pub const NANOS_PER_SEC: u32 = 1_000_000_000;

impl TimeSpan {
    /// Whether the nanoseconds make up less than a second.
    pub open spec fn wf(self) -> bool {
        self.nanos < NANOS_PER_SEC
    }
}

/// For how long a payment is tried again.
#[derive(Clone, Copy, Debug, PartialEq, Eq, Structural)]
pub enum Retry {
    /// A number of attempts.
    Attempts(u32),
    /// The time since the first attempt.
    Timeout(TimeSpan),
}

impl Retry {
    /// Whether a timeout is a well-formed span of time.
    pub open spec fn wf(self) -> bool {
        self matches Retry::Timeout(span) ==> span.wf()
    }
}

/// How a retry strategy stands on the wire: a byte for its kind, then its number.
pub open spec fn retry_bytes(retry: Retry) -> Seq<u8> {
    match retry {
        Retry::Attempts(n) => seq![0u8] + be_bytes(n as nat, 4),
        Retry::Timeout(span) => seq![2u8] + be_bytes(span.secs as nat, 8) + be_bytes(
            span.nanos as nat,
            4,
        ),
    }
}

/// Reads a retry strategy.
pub open spec fn parse_retry(s: Seq<u8>) -> Result<(Retry, int), WireError> {
    if s.len() == 0 {
        Err(WireError::ShortRead)
    } else if s[0] == 0 {
        match parse_uint(s.skip(1), 4) {
            Err(e) => Err(e),
            Ok((n, _)) => Ok((Retry::Attempts(n as u32), 5)),
        }
    } else if s[0] == 2 {
        match parse_uint(s.skip(1), 8) {
            Err(e) => Err(e),
            Ok((secs, _)) => match parse_uint(s.skip(9), 4) {
                Err(e) => Err(e),
                Ok((nanos, _)) => if nanos >= NANOS_PER_SEC {
                    Err(WireError::InvalidValue)
                } else {
                    Ok((Retry::Timeout(TimeSpan { secs, nanos: nanos as u32 }), 13))
                },
            },
        }
    } else {
        Err(WireError::UnknownRequiredFeature)
    }
}

/// The number of bytes that a parser used, or its error.
pub open spec fn used<T>(parsed: Result<(T, int), WireError>) -> Result<int, WireError> {
    match parsed {
        Ok((_, n)) => Ok(n),
        Err(e) => Err(e),
    }
}

/// The fields of route parameters: the fee limit is optional, the others are required.
pub open spec fn route_parameters_schema() -> Schema {
    Schema {
        first: 1,
        required: seq![false, true, true, true],
        field: |i: int, s: Seq<u8>|
            if i == 0 {
                used(parse_uint(s, 8))
            } else if i == 1 {
                used(parse_uint(s, 4))
            } else {
                used(parse_uint(s, 1))
            },
    }
}

/// Route parameters as a table of fields.
pub open spec fn route_parameters_fields(p: RouteParameters) -> Table {
    seq![
        match p.max_total_routing_fee_msat {
            Some(fee) => Some(be_bytes(fee as nat, 8)),
            None => None,
        },
        Some(be_bytes(p.max_total_cltv_expiry_delta as nat, 4)),
        Some(be_bytes(p.max_path_count as nat, 1)),
        Some(be_bytes(p.max_channel_saturation_power_of_half as nat, 1)),
    ]
}

/// The route parameters that a table of fields stands for.
pub open spec fn route_parameters_of(t: Table) -> RouteParameters {
    RouteParameters {
        max_total_routing_fee_msat: match t[0] {
            Some(value) => Some(parse_uint(value, 8)->Ok_0.0),
            None => None,
        },
        max_total_cltv_expiry_delta: parse_uint(t[1]->0, 4)->Ok_0.0 as u32,
        max_path_count: parse_uint(t[2]->0, 1)->Ok_0.0 as u8,
        max_channel_saturation_power_of_half: parse_uint(t[3]->0, 1)->Ok_0.0 as u8,
    }
}

/// Route parameters on the wire.
pub open spec fn route_parameters_bytes(p: RouteParameters) -> Seq<u8> {
    struct_bytes(1, route_parameters_fields(p))
}

/// Reads route parameters.
pub open spec fn parse_route_parameters(s: Seq<u8>) -> Result<(RouteParameters, int), WireError> {
    match parse_struct(route_parameters_schema(), s) {
        Err(e) => Err(e),
        Ok((table, n)) => Ok((route_parameters_of(table), n)),
    }
}

/// What is read where a retry strategy was written is that strategy.
pub proof fn lemma_retry_round_trip(retry: Retry, tail: Seq<u8>)
    requires
        retry.wf(),
    ensures
        parse_retry(retry_bytes(retry) + tail) == Ok::<(Retry, int), WireError>(
            (retry, retry_bytes(retry).len() as int),
        ),
{
    lemma_pow256();
    let s = retry_bytes(retry) + tail;
    match retry {
        Retry::Attempts(n) => {
            lemma_uint_round_trip(n as u64, 4, tail);
            assert(s.skip(1) =~= be_bytes(n as nat, 4) + tail);
        },
        Retry::Timeout(span) => {
            let rest = be_bytes(span.nanos as nat, 4) + tail;
            lemma_uint_round_trip(span.secs, 8, rest);
            lemma_uint_round_trip(span.nanos as u64, 4, tail);
            assert(s.skip(1) =~= be_bytes(span.secs as nat, 8) + rest);
            assert(s.skip(9) =~= rest);
        },
    }
}

/// What is read where route parameters were written is those parameters.
pub proof fn lemma_route_parameters_round_trip(p: RouteParameters, tail: Seq<u8>)
    ensures
        parse_route_parameters(route_parameters_bytes(p) + tail) == Ok::<
            (RouteParameters, int),
            WireError,
        >((p, route_parameters_bytes(p).len() as int)),
        route_parameters_bytes(p).len() <= 40,
{
    let schema = route_parameters_schema();
    let t = route_parameters_fields(p);
    let none = Seq::<u8>::empty();
    lemma_pow256();
    if let Some(fee) = p.max_total_routing_fee_msat {
        lemma_uint_round_trip(fee, 8, none);
        assert(be_bytes(fee as nat, 8) + none =~= be_bytes(fee as nat, 8));
    }
    lemma_uint_round_trip(p.max_total_cltv_expiry_delta as u64, 4, none);
    lemma_uint_round_trip(p.max_path_count as u64, 1, none);
    lemma_uint_round_trip(p.max_channel_saturation_power_of_half as u64, 1, none);
    assert(t[1]->0 + none =~= t[1]->0);
    assert(t[2]->0 + none =~= t[2]->0);
    assert(t[3]->0 + none =~= t[3]->0);
    assert(records_from(1, t, 0).len() <= 26 && struct_bytes(1, t).len() <= 40) by {
        reveal_with_fuel(records_from, 5);
    }
    assert(holds_fields(schema, t));
    assert(complete(schema, t));
    lemma_struct_round_trip(schema, t, tail);
    assert(route_parameters_of(t) == p);
}

/// What an offer asks for.
#[derive(Clone, Copy, Debug, PartialEq, Eq, Structural)]
pub enum OfferAmount {
    /// An amount of bitcoin, in millisatoshi.
    Bitcoin { amount_msats: u64 },
    /// An amount of some other currency.
    Currency { amount: u64 },
}

/// The schedule of a recurring offer, as far as payments depend on it.
#[derive(Clone, Copy, Debug, PartialEq, Eq, Structural)]
pub struct OfferRecurrence {
    /// When the first period begins, if the offer says so and payments have to follow it.
    pub explicit_basetime: Option<u64>,
    /// The last period that may be paid.
    pub limit: Option<u32>,
}

/// An offer, as far as payments depend on it.
#[derive(Clone, Debug)]
pub struct Offer {
    pub id: OfferId,
    /// The amount asked for; without one the payer chooses.
    pub amount: Option<OfferAmount>,
    /// The schedule, if the offer is a recurring one.
    pub recurrence: Option<OfferRecurrence>,
    /// The offer's encoding.
    pub encoded: Vec<u8>,
}

/// A name by which an offer can be found.
#[derive(Clone, Debug)]
pub struct HumanReadableName {
    pub user: String,
    pub domain: String,
}

/// The role that the node plays in asynchronous payments.
#[derive(Clone, Copy, Debug, PartialEq, Eq, Structural)]
pub enum AsyncPaymentsRole {
    /// The node is often offline.
    Client,
    /// The node serves clients that are.
    Server,
}

/// The settings that payments depend on.
#[derive(Clone, Copy, Debug, PartialEq, Eq, Structural)]
pub struct Config {
    /// Limits on routes that hold unless a payment brings its own.
    pub route_parameters: Option<RouteParameters>,
    /// For how long a payment is tried again.
    pub payment_retry_timeout: TimeSpan,
}

} // verus!
