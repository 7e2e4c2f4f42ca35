//! Heterogeneous lists and tuples, and a reactive animation engine for a text cursor and
//! selection indicator: a push-based signal graph, damped-spring animation channels, a blink
//! oscillator and a selection controller composing them.
pub mod hlist;
pub mod tuple;
pub mod blink;
pub mod spring;
pub mod registry;
pub mod selection;
pub mod graph;
