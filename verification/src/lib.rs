//! A time-locked custodial vault: it holds a quantity of a fungible token on
//! behalf of a depositor and releases it to a designated withdrawer only after
//! a configured unlock time, with incremental deposits and partial withdrawals
//! against the locked balance.
//!
//! The vault runs as a deterministic state-transition handler: the host ledger
//! hands it an opaque instruction buffer and the accounts the caller supplied,
//! and the handler computes either a typed failure or the full effect of the
//! operation (new balances, the transfer to request from the token service,
//! and the record to persist).

pub mod addr;
pub mod codec;
pub mod error;
pub mod instruction;
pub mod laws;
pub mod processor;
pub mod spl;
pub mod state;
