//! Construction and canonical encoding of payment offers.
//!
//! An [`offer::Offer`] is an immutable proposal for payment: a semantic
//! record (description, amount, supported chains, expiry, routing paths,
//! signing key, ...) frozen together with its canonical wire form. The wire
//! form is a sequence of tagged records emitted in ascending type order by
//! the codec in [`tlv`] and [`wire`], with minimal big-endian integers and
//! selective omission of fields equal to their implied defaults; [`laws`]
//! states and proves the field semantics once for all inputs.

pub mod laws;
pub mod offer;
pub mod tlv;
pub mod types;
pub mod wire;
