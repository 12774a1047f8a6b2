//! A tokenized-bond ledger: bond offerings backed by collateral, holder
//! positions with time-proportional yield, liquidation of under-collateralized
//! bonds, and an escrowed resale order book.
//!
//! Every operation is a pure state transition over plain records. It checks
//! all of its preconditions and computes every amount before it changes
//! anything, so an operation that fails leaves every record as it was. The
//! value movements that a successful operation calls for are returned to the
//! caller, which performs them in the same transaction.
pub mod address;
pub mod error;
pub mod math;
pub mod state;
pub mod accounts;
pub mod events;
pub mod ledger;
pub mod market;

pub use address::Address;
pub use error::BtrustError;
pub use math::Payment;
