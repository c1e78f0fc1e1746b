//! The functions of other crates that the decisions and the wire format rest on.
//!
//! The contracts in this file are not proved: each says what the function behind it is documented
//! or seen to do.

use lightning::blinded_path::message::BlindedMessagePath;
use lightning::ln::channelmanager::Retry as LdkRetry;
use lightning::ln::msgs::DecodeError;
use lightning::offers::offer::{Amount, Offer};
use lightning::offers::parse::Bolt12ParseError;
use lightning::routing::router::RouteParametersConfig;
use lightning::util::ser::{Readable, Writeable};
use vstd::prelude::*;
use vstd::utf8::{decode_utf8, valid_utf8};

use crate::error::WireError;
use crate::types::{
    parse_retry, parse_route_parameters, retry_bytes, route_parameters_bytes, OfferAmount, OfferId,
    Retry, RouteParameters, TimeSpan,
};

verus! {

/// A blinded path for messages; its contents are never looked into.
#[verifier::external_type_specification]
#[verifier::external_body]
pub struct ExBlindedMessagePath(lightning::blinded_path::message::BlindedMessagePath);

/// Why an offer could not be parsed.
#[verifier::external_type_specification]
#[verifier::external_body]
pub struct ExBolt12ParseError(lightning::offers::parse::Bolt12ParseError);

/// Why blinded paths could not be read.
#[verifier::external_type_specification]
#[verifier::external_body]
pub struct ExDecodeError(lightning::ln::msgs::DecodeError);

/// `String::from_utf8`: text from its UTF-8 bytes, if they are valid UTF-8.
#[verifier::external_body]
pub(crate) fn string_from_utf8(bytes: Vec<u8>) -> (r: Option<String>)
    ensures
        match r {
            Some(text) => valid_utf8(bytes@) && text@ == decode_utf8(bytes@),
            None => !valid_utf8(bytes@),
        },
{
    String::from_utf8(bytes).ok()
}

/// What is left of a text from somebody else when it is displayed.
pub uninterp spec fn printable_text(text: Seq<char>) -> Seq<char>;

/// `<lightning_types::string::UntrustedString as ToString>::to_string`: the text with the
/// characters that cannot be printed replaced, one for one, by U+FFFD. Control characters are
/// among those replaced; which others are follows the tables of the Unicode general categories and
/// is not spelled out here.
#[verifier::external_body]
pub(crate) fn display_untrusted(text: &String) -> (r: String)
    ensures
        r@ == printable_text(text@),
        r@.len() == text@.len(),
        forall|i: int|
            0 <= i < r@.len() ==> #[trigger] r@[i] == text@[i] || r@[i] == '\u{FFFD}',
        forall|i: int|
            0 <= i < r@.len() && (text@[i] as u32 <= 0x1F || 0x7F <= text@[i] as u32 <= 0x9F)
                ==> #[trigger] r@[i] == '\u{FFFD}',
{
    lightning_types::string::UntrustedString(text.clone()).to_string()
}

/// `<lightning::routing::router::RouteParametersConfig as Default>::default`: no limit on fees of
/// its own, at most 1008 blocks, at most ten paths, at most a quarter of a channel.
#[verifier::external_body]
pub(crate) fn default_route_parameters() -> (r: RouteParameters)
    ensures
        r == (RouteParameters {
            max_total_routing_fee_msat: None,
            max_total_cltv_expiry_delta: 1008,
            max_path_count: 10,
            max_channel_saturation_power_of_half: 2,
        }),
{
    let p = RouteParametersConfig::default();
    RouteParameters {
        max_total_routing_fee_msat: p.max_total_routing_fee_msat,
        max_total_cltv_expiry_delta: p.max_total_cltv_expiry_delta,
        max_path_count: p.max_path_count,
        max_channel_saturation_power_of_half: p.max_channel_saturation_power_of_half,
    }
}

/// `<lightning::routing::router::RouteParametersConfig as Writeable>::encode`: a length-prefixed
/// stream of the records 1 (the fee limit, if there is one), 3, 5 and 7.
#[verifier::external_body]
pub(crate) fn encode_route_parameters(p: &RouteParameters) -> (r: Vec<u8>)
    ensures
        r@ == route_parameters_bytes(*p),
{
    RouteParametersConfig {
        max_total_routing_fee_msat: p.max_total_routing_fee_msat,
        max_total_cltv_expiry_delta: p.max_total_cltv_expiry_delta,
        max_path_count: p.max_path_count,
        max_channel_saturation_power_of_half: p.max_channel_saturation_power_of_half,
    }.encode()
}

/// `<lightning::routing::router::RouteParametersConfig as Readable>::read` from a byte slice: reads
/// the records that `encode` writes, passes over other odd records, and leaves the bytes behind
/// them. The four numbers are the fields in their order.
#[verifier::external_body]
fn read_route_parameters_config(s: &[u8]) -> (r: Result<
    ((Option<u64>, u32, u8, u8), &[u8]),
    WireError,
>)
    ensures
        match (r, parse_route_parameters(s@)) {
            (Ok((p, rest)), Ok((parsed, n))) => {
                &&& parsed == (RouteParameters {
                    max_total_routing_fee_msat: p.0,
                    max_total_cltv_expiry_delta: p.1,
                    max_path_count: p.2,
                    max_channel_saturation_power_of_half: p.3,
                })
                &&& 0 <= n <= s@.len()
                &&& rest@ == s@.skip(n)
            },
            (Err(e), Err(f)) => e == f,
            _ => false,
        },
{
    let mut rest = s;
    match RouteParametersConfig::read(&mut rest) {
        Ok(p) => Ok(((p.max_total_routing_fee_msat, p.max_total_cltv_expiry_delta, p.max_path_count,
            p.max_channel_saturation_power_of_half), rest)),
        Err(DecodeError::UnknownVersion) => Err(WireError::UnknownVersion),
        Err(DecodeError::UnknownRequiredFeature) => Err(WireError::UnknownRequiredFeature),
        Err(DecodeError::InvalidValue) => Err(WireError::InvalidValue),
        Err(DecodeError::ShortRead) => Err(WireError::ShortRead),
        Err(DecodeError::BadLengthDescriptor) => Err(WireError::BadLengthDescriptor),
        Err(DecodeError::Io(_)) => Err(WireError::Io),
        Err(DecodeError::UnsupportedCompression) => Err(WireError::UnsupportedCompression),
        Err(DecodeError::DangerousValue) => Err(WireError::DangerousValue),
    }
}

/// `<lightning::ln::channelmanager::Retry as Writeable>::encode`: a byte for the kind, then the
/// attempts as four bytes, or the seconds as eight and the nanoseconds as four.
#[verifier::external_body]
pub(crate) fn encode_retry(retry: &Retry) -> (r: Vec<u8>)
    requires
        retry.wf(),
    ensures
        r@ == retry_bytes(*retry),
{
    match retry {
        Retry::Attempts(n) => LdkRetry::Attempts(*n).encode(),
        Retry::Timeout(span) => LdkRetry::Timeout(
            std::time::Duration::new(span.secs, span.nanos)).encode(),
    }
}

/// `<lightning::ln::channelmanager::Retry as Readable>::read` from a byte slice: reads what
/// `encode` writes and leaves the bytes behind it.
#[verifier::external_body]
fn read_retry_rest(s: &[u8]) -> (r: Result<(Retry, &[u8]), WireError>)
    ensures
        match (r, parse_retry(s@)) {
            (Ok((retry, rest)), Ok((parsed, n))) => {
                &&& retry == parsed
                &&& 0 <= n <= s@.len()
                &&& rest@ == s@.skip(n)
            },
            (Err(e), Err(f)) => e == f,
            _ => false,
        },
{
    let mut rest = s;
    match LdkRetry::read(&mut rest) {
        Ok(LdkRetry::Attempts(n)) => Ok((Retry::Attempts(n), rest)),
        Ok(LdkRetry::Timeout(d)) => Ok((Retry::Timeout(TimeSpan {
            secs: d.as_secs(), nanos: d.subsec_nanos() }), rest)),
        Err(DecodeError::UnknownVersion) => Err(WireError::UnknownVersion),
        Err(DecodeError::UnknownRequiredFeature) => Err(WireError::UnknownRequiredFeature),
        Err(DecodeError::InvalidValue) => Err(WireError::InvalidValue),
        Err(DecodeError::ShortRead) => Err(WireError::ShortRead),
        Err(DecodeError::BadLengthDescriptor) => Err(WireError::BadLengthDescriptor),
        Err(DecodeError::Io(_)) => Err(WireError::Io),
        Err(DecodeError::UnsupportedCompression) => Err(WireError::UnsupportedCompression),
        Err(DecodeError::DangerousValue) => Err(WireError::DangerousValue),
    }
}

/// The blinded paths that an encoding stands for, if it stands for any.
pub uninterp spec fn decoded_blinded_paths(bytes: Seq<u8>) -> Option<Seq<BlindedMessagePath>>;

/// `<Vec<lightning::blinded_path::message::BlindedMessagePath> as Readable>::read` from a byte
/// slice: succeeds or fails, and yields the paths it yields, by the bytes alone.
#[verifier::external_body]
pub(crate) fn read_blinded_paths(bytes: &[u8]) -> (r: Result<Vec<BlindedMessagePath>, DecodeError>)
    ensures
        match r {
            Ok(paths) => decoded_blinded_paths(bytes@) == Some(paths@),
            Err(_) => decoded_blinded_paths(bytes@) is None,
        },
{
    Vec::<BlindedMessagePath>::read(&mut &bytes[..])
}

/// The encoding of blinded paths.
pub uninterp spec fn encoded_blinded_paths(paths: Seq<BlindedMessagePath>) -> Seq<u8>;

/// `<Vec<lightning::blinded_path::message::BlindedMessagePath> as Writeable>::encode`: the encoding
/// of the paths, which depends on nothing else. Writing to memory does not fail.
#[verifier::external_body]
pub(crate) fn encode_blinded_paths(paths: &Vec<BlindedMessagePath>) -> (r: Vec<u8>)
    ensures
        r@ == encoded_blinded_paths(paths@),
{
    paths.encode()
}

/// The identifier and the amount of the offer that an encoding stands for, if it stands for one.
pub uninterp spec fn decoded_offer(encoded: Seq<u8>) -> Option<(Seq<u8>, Option<OfferAmount>)>;

/// `<lightning::offers::offer::Offer as TryFrom<Vec<u8>>>::try_from`, and `Offer::id` and
/// `Offer::amount` of what it yields: the encoding alone decides whether it is an offer, which
/// identifier it has and what it asks for.
#[verifier::external_body]
pub(crate) fn parse_offer(encoded: Vec<u8>) -> (r: Result<
    (OfferId, Option<OfferAmount>),
    Bolt12ParseError,
>)
    ensures
        match r {
            Ok((id, amount)) => decoded_offer(encoded@) == Some((id@, amount)),
            Err(_) => decoded_offer(encoded@) is None,
        },
{
    match Offer::try_from(encoded) {
        Ok(offer) => Ok((OfferId(offer.id().0), match offer.amount() {
            Some(Amount::Bitcoin { amount_msats }) => Some(OfferAmount::Bitcoin { amount_msats }),
            Some(Amount::Currency { amount, .. }) => Some(OfferAmount::Currency { amount }),
            None => None,
        })),
        Err(e) => Err(e),
    }
}

/// Reads a retry strategy off the front of `s`, and tells how many bytes it takes.
pub fn read_retry(s: &[u8]) -> (r: Result<(Retry, usize), WireError>)
    ensures
        match r {
            Ok((retry, n)) => parse_retry(s@) == Ok::<(Retry, int), WireError>((retry, n as int))
                && n <= s@.len(),
            Err(e) => parse_retry(s@) == Err::<(Retry, int), WireError>(e),
        },
{
    match read_retry_rest(s) {
        Err(e) => Err(e),
        Ok((retry, rest)) => Ok((retry, s.len() - rest.len())),
    }
}

/// Reads route parameters off the front of `s`, and tells how many bytes they take.
pub fn read_route_parameters(s: &[u8]) -> (r: Result<(RouteParameters, usize), WireError>)
    ensures
        match r {
            Ok((p, n)) => parse_route_parameters(s@) == Ok::<(RouteParameters, int), WireError>(
                (p, n as int),
            ) && n <= s@.len(),
            Err(e) => parse_route_parameters(s@) == Err::<(RouteParameters, int), WireError>(e),
        },
{
    match read_route_parameters_config(s) {
        Err(e) => Err(e),
        Ok((fields, rest)) => {
            let p = RouteParameters {
                max_total_routing_fee_msat: fields.0,
                max_total_cltv_expiry_delta: fields.1,
                max_path_count: fields.2,
                max_channel_saturation_power_of_half: fields.3,
            };
            Ok((p, s.len() - rest.len()))
        },
    }
}

} // verus!
