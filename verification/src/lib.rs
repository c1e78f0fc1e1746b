//! Decisions and wire format behind a BOLT 12 payment handler.
//!
//! `bolt12`, `initiate`, `next_payment`, `submission`, `cancellation` and `window` decide on
//! recurring payments; `sending`, `receiving`, `async_payments` and `payer_proof` on everything
//! else that the handler does. `recurrence` holds the persisted state of a recurring offer and its
//! invariants; `wire`, `text`, `tlv`, `recurrence_wire` and `state_wire` are its format. `laws`
//! and `records` state what holds across operations; `recurrence_laws`, `payment_laws`,
//! `state_laws` and `wire_laws` what each operation does with what it is given; and `bindings` what
//! is taken from other crates.

pub mod async_payments;
pub mod bindings;
pub mod bolt12;
pub mod cancellation;
pub mod details;
pub mod error;
pub mod hex;
pub mod initiate;
pub mod laws;
pub mod next_payment;
pub mod offer;
pub mod payer_proof;
pub mod payment;
pub mod payment_laws;
pub mod receiving;
pub mod records;
pub mod recurrence;
pub mod recurrence_laws;
pub mod recurrence_wire;
pub mod sending;
pub mod state_laws;
pub mod state_wire;
pub mod submission;
pub mod text;
pub mod tlv;
pub mod types;
pub mod window;
pub mod wire;
pub mod wire_laws;
