//! A trajectory-driven agent for probing a flow-rate limiter.
//!
//! The agent walks a sampled value path, turns each change of value into an
//! inflow or an outflow request against the limiter, and keeps a log of the
//! outflows that the limiter turned down for exceeding its limit. The crate
//! holds the agent's decisions; issuing the requests is left to the caller.
//!
//! - [`binary64`] reads double-precision bit patterns as amounts of wad.
//! - [`process`] holds and checks the parameters of the sampled process.
//! - [`revert`] tells the limiter's own rejection from other reverts.
//! - [`agents`] is the agent, with its model as a state machine.
//! - [`laws`] proves what holds of every run of that machine.

pub mod binary64;
pub mod process;
pub mod revert;
pub mod agents;
pub mod laws;
