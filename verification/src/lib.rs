//! Decision logic of a load generator for a graph-capable record store.
//!
//! Every round wipes two record sets, repopulates them with keyed pairs joined
//! by a directed `has` edge, and then fires a burst of randomized traversals.
//! This crate holds what such a run decides: the records and the requests that
//! carry them, the retry rule of a write task, the bookkeeping of a phase, and
//! the sequence of rounds. Sending a request, sleeping and timing are left to
//! the caller.

pub mod dataset;
pub mod driver;
pub mod error;
pub mod phase;
mod random;
pub mod record;
pub mod request;
pub mod retry;
pub mod store;
pub mod text;
