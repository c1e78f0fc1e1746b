//! Blinded paths between a static invoice server and the recipients it serves.

use lightning::blinded_path::message::BlindedMessagePath;
use vstd::prelude::*;

use crate::bindings::{
    decoded_blinded_paths, encode_blinded_paths, encoded_blinded_paths, read_blinded_paths,
};
use crate::bolt12::Bolt12Payment;
use crate::error::Error;
use crate::types::AsyncPaymentsRole;

verus! {

/// A recipient that paths may be made for.
#[derive(Clone, Debug)]
pub struct AsyncRecipient {
    pub recipient_id: Vec<u8>,
}

/// Whether the node serves recipients that are often offline.
pub open spec fn serves(handler: Bolt12Payment) -> bool {
    handler.async_payments_role == Some(AsyncPaymentsRole::Server)
}

impl AsyncRecipient {
    /// Takes the paths that the node made for the recipient, if it made any.
    pub fn paths(self, paths: Option<Vec<BlindedMessagePath>>) -> (r: Result<
        Vec<BlindedMessagePath>,
        Error,
    >)
        ensures
            r == (match paths {
                Some(paths) => Ok(paths),
                None => Err(Error::InvalidBlindedPaths),
            }),
    {
        match paths {
            Some(paths) => Ok(paths),
            None => Err(Error::InvalidBlindedPaths),
        }
    }

    /// Takes the paths that the node made for the recipient, if it made any, and encodes them.
    pub fn encoded_paths(self, paths: Option<Vec<BlindedMessagePath>>) -> (r: Result<
        Vec<u8>,
        Error,
    >)
        ensures
            match (r, paths) {
                (Ok(bytes), Some(paths)) => bytes@ == encoded_blinded_paths(paths@),
                (Err(e), None) => e == Error::InvalidBlindedPaths,
                _ => false,
            },
    {
        match self.paths(paths) {
            Ok(paths) => Ok(encode_blinded_paths(&paths)),
            Err(e) => Err(e),
        }
    }
}

/// What is answered when paths were handed to the node: it accepts them or not.
pub fn paths_set(accepted: bool) -> (r: Result<(), Error>)
    ensures
        r == (if accepted {
            Ok(())
        } else {
            Err(Error::InvalidBlindedPaths)
        }),
{
    if accepted {
        Ok(())
    } else {
        Err(Error::InvalidBlindedPaths)
    }
}

impl Bolt12Payment {
    /// Takes the offer that the node has for receiving async payments as an often-offline
    /// recipient, if it built one with its static invoice server.
    pub fn receive_async<O>(&self, offer: Option<O>) -> (r: Result<O, Error>)
        ensures
            r == (match offer {
                Some(offer) => Ok(offer),
                None => Err(Error::OfferCreationFailed),
            }),
    {
        match offer {
            Some(offer) => Ok(offer),
            None => Err(Error::OfferCreationFailed),
        }
    }

    /// Reads the paths that an async recipient uses to interactively build offers with a static
    /// invoice server. The paths returned are to be handed to the node.
    pub fn set_paths_to_static_invoice_server(&self, paths: Vec<u8>) -> (r: Result<
        Vec<BlindedMessagePath>,
        Error,
    >)
        ensures
            match (r, decoded_blinded_paths(paths@)) {
                (Ok(read), Some(decoded)) => read@ == decoded,
                (Err(e), None) => e == Error::InvalidBlindedPaths,
                _ => false,
            },
    {
        match read_blinded_paths(paths.as_slice()) {
            Ok(read) => Ok(read),
            Err(_) => Err(Error::InvalidBlindedPaths),
        }
    }

    /// Decides whether paths may be made for an async recipient to communicate with this node and
    /// interactively build offers and static invoices: only if the node is a server.
    pub fn blinded_paths_for_async_recipient(&self, recipient_id: Vec<u8>) -> (r: Result<
        AsyncRecipient,
        Error,
    >)
        ensures
            r == (if serves(*self) {
                Ok(AsyncRecipient { recipient_id })
            } else {
                Err(Error::AsyncPaymentServicesDisabled)
            }),
    {
        match self.async_payments_role {
            Some(AsyncPaymentsRole::Server) => Ok(AsyncRecipient { recipient_id }),
            _ => Err(Error::AsyncPaymentServicesDisabled),
        }
    }
}

} // verus!
