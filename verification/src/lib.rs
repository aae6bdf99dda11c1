//! A threshold-funding ledger.
//!
//! The ledger keeps pots and projects. A pot collects deposits of one token
//! for a target; once it holds its threshold, every deposit instructs the
//! host to transfer all that the pot has collected to the target. A project
//! is registered once under an id of the caller's choice; whoever backs it
//! is entered in its backer log, and the funds are sent on to its wallet.
//!
//! The ledger decides and instructs; it neither moves funds nor judges
//! address strings. Both are the host's business: an address reaches the
//! ledger as the host judged it (see `msg`), and a transfer leaves it as an
//! `Instruction` (see `response`).
//!
//! - `contract` holds the operations, `ledger` the state they work on.
//! - `model` says what each operation does, as functions on what the ledger
//!   holds, and `laws` proves what follows for every run of operations.
//! - `wire` encodes a token transfer for the host.

pub mod addr;
pub mod contract;
pub mod decimal;
pub mod error;
pub mod laws;
pub mod ledger;
pub mod model;
pub mod msg;
pub mod response;
pub mod state;
pub mod types;
pub mod wire;
