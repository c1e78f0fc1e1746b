//! Offers, as far as payments depend on them.

use vstd::prelude::*;

use crate::bindings::{decoded_offer, parse_offer};
use crate::types::{Offer, OfferAmount, OfferRecurrence};

verus! {

impl Offer {
    /// Whether this is the offer of an encoding, with what was read from it.
    pub open spec fn read_from(
        self,
        encoded: Seq<u8>,
        id: Seq<u8>,
        amount: Option<OfferAmount>,
        recurrence: Option<OfferRecurrence>,
    ) -> bool {
        &&& self.id@ == id
        &&& self.amount == amount
        &&& self.recurrence == recurrence
        &&& self.encoded@ == encoded
    }

    /// The offer that an encoding stands for, if it stands for one. `recurrence` is its schedule.
    pub fn decode(encoded: Vec<u8>, recurrence: Option<OfferRecurrence>) -> (r: Option<Offer>)
        ensures
            match (r, decoded_offer(encoded@)) {
                (Some(offer), Some((id, amount))) => offer.read_from(
                    encoded@,
                    id,
                    amount,
                    recurrence,
                ),
                (None, None) => true,
                _ => false,
            },
    {
        let copy = encoded.clone();
        assert(copy@ =~= encoded@);
        match parse_offer(copy) {
            Ok((id, amount)) => Some(Offer { id, amount, recurrence, encoded }),
            Err(_) => None,
        }
    }
}

} // verus!
