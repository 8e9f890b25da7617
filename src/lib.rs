//! A batch disbursement engine: validates a batch of (recipient, amount)
//! pairs, settles the per-recipient transfer results, keeps running
//! statistics, and gates the owner-only operations.
//!
//! A batch runs in three steps. `MultiSender::batch_send_eth` or
//! `MultiSender::batch_send_token` validates the input and changes nothing;
//! the host then makes one transfer attempt per recipient that
//! `Batch::needs_transfer` names; `MultiSender::settle` classifies the
//! replies and counts the batch in the statistics exactly once.

pub mod address;
pub mod amount;
pub mod batch;
pub mod laws;
pub mod state;

pub use address::Address;
pub use amount::Amount;
pub use batch::{Asset, Batch, Error, Outcome, Reason, Reply, Report};
pub use state::{MultiSender, Policy};
