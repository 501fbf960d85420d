//! A minimal value-transfer and payment-request ledger.
//!
//! Each participant identity owns at most one `CashAccount`, located at a
//! deterministically derived address. An account holds a native-unit balance,
//! a capacity-bounded friend list, and a monotonic request counter. A
//! would-be recipient may open one `PendingRequest` at a time asking a sender
//! for funds; the request is closed by acceptance (which moves the funds) or
//! by decline (which moves nothing).
//!
//! The `Ledger` type holds all persisted records as explicit keyed maps and
//! exposes the eight operations of the system; every operation is specified
//! against a ghost model (`LedgerModel`) and verified to either perform its
//! whole effect or fail with a typed error and no state change.

pub mod address;
pub mod errors;
pub mod laws;
pub mod ledger;
pub mod model;
