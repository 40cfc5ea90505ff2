//! Latency benchmarks for read-only RPC calls against blockchain nodes.
//!
//! A benchmark is a run: a small state machine that is told what a node
//! answered and says which request comes next. The caller makes the requests
//! and reads the clock; the run decides, and returns the time it took or the
//! step that failed.
//!
//! - [`node`]: the node benchmark, with its laws in [`node_laws`].
//! - [`contract`]: the contract benchmark, with its laws in [`contract_laws`].
//! - [`driver`]: one node benchmark per endpoint, with its laws in
//!   [`driver_laws`].
//! - [`error`], [`note`], [`pagination`], [`span`], [`clock`], [`path`],
//!   [`wallet`], [`contract_id`]: the values that runs work with.

pub mod clock;
pub mod contract;
pub mod contract_id;
pub mod contract_laws;
pub mod driver;
pub mod driver_laws;
pub mod error;
pub mod node;
pub mod node_laws;
pub mod note;
pub mod pagination;
pub mod path;
pub mod span;
pub mod wallet;
