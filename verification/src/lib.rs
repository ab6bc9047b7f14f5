//! Unit creation for one node of a DAG-based consensus protocol.
//!
//! A node grows its part of the DAG round by round. For every round it creates
//! one unit whose parents are the units of the round before that the node knew
//! at that moment, and it creates that unit at the first moment at which more
//! than two thirds of all nodes, the node itself among them, have a known unit
//! in the round before.
//!
//! * [`nodes`] holds the counting and indexing types for a fixed population.
//! * [`units`] holds the produced unit and the bytes that its hash is taken of.
//! * [`creator`] holds the per-round candidate tables and the three operations
//!   on them: recording a unit, testing readiness, creating the next unit.
//! * [`engine`] holds the decisions of the driving loop as a step function from
//!   state and event to next state and action.

pub mod creator;
pub mod engine;
pub mod nodes;
pub mod units;
