//! Transactional core of a fixed-price deposit/withdraw auction: the fee
//! arithmetic, the byte layouts of records and instructions, and the
//! state transitions between them.

pub mod account;
pub mod address;
pub mod error;
pub mod fees;
pub mod instruction;
pub mod ledger;
pub mod processor;
pub mod state;
pub mod transition;
pub mod wire;
