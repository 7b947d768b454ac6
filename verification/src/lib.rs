//! Verified core of a hierarchical prediction-market engine.
//!
//! Three cooperating state machines are modelled as plain data with
//! verified transition functions:
//!
//! * [`market`] — a single market instance: its betting ledger, stake
//!   accounting, odds, and resolution.
//! * [`factory`] — the registry of created markets and their
//!   parent/child links, with cycle-safe tree queries.
//! * [`spawn_handler`] — the spawn-rule engine: pattern matching against
//!   resolution notifications, template instantiation for derived
//!   markets, and the pending-spawn queue.
//!
//! A fourth, [`hello`], is a minimal counter instance kept as the
//! smallest example of the same operation-handler shape.
//!
//! The host runtime that loads instances, delivers operations and
//! messages, and persists state is out of scope: every transition here
//! is a synchronous function from the old state, the operation and its
//! context (caller identity, current time) to the new state and the
//! messages to emit.  The surrounding program performs the delivery.

pub mod base;
pub mod factory;
pub mod hello;
pub mod market;
pub mod spawn_handler;
pub mod text;
