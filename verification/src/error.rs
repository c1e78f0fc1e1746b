//! The errors the payment handler answers with, and those of the wire format.

use vstd::prelude::*;

verus! {

/// Why an operation of the payment handler was refused.
#[derive(Clone, Copy, Debug, PartialEq, Eq, Structural)]
pub enum Error {
    /// The node is not running.
    NotRunning,
    /// An amount is missing, zero, too small or above its ceiling.
    InvalidAmount,
    /// A quantity of zero was asked for.
    InvalidQuantity,
    /// The offer, or the recurrence it started, does not allow the operation.
    InvalidOffer,
    /// No recurrence has the given identifier.
    InvalidOfferId,
    /// The offer is denominated in a currency other than bitcoin.
    UnsupportedCurrency,
    /// A record could not be read or written.
    PersistenceFailed,
    /// The invoice request could not be created.
    InvoiceRequestCreationFailed,
    /// The payment could not be sent.
    PaymentSendingFailed,
    /// A payment with the same identifier exists.
    DuplicatePayment,
    /// The offer could not be created.
    OfferCreationFailed,
    /// The refund could not be created.
    RefundCreationFailed,
    /// The payer proof could not be created.
    PayerProofCreationFailed,
    /// The node does not serve asynchronous payments.
    AsyncPaymentServicesDisabled,
    /// The blinded paths are malformed or were not accepted.
    InvalidBlindedPaths,
}

/// Why bytes could not be read as a value.
#[derive(Clone, Copy, Debug, PartialEq, Eq, Structural)]
pub enum WireError {
    /// The version is not known.
    UnknownVersion,
    /// A field that has to be understood is not known.
    UnknownRequiredFeature,
    /// The bytes do not stand for a value, or the value breaks a rule of its type.
    InvalidValue,
    /// The bytes end too early.
    ShortRead,
    /// A length does not describe the data that follows it.
    BadLengthDescriptor,
    /// Reading failed.
    Io,
    /// The data is compressed.
    UnsupportedCompression,
    /// The value is well-formed but must not be used.
    DangerousValue,
}

} // verus!
