//! Retrieval of fixed-size cells, addressed by block and position, from a
//! peer-to-peer overlay: the rules, with the network left to the caller.
pub mod batch;
pub mod bootstrap;
pub mod events;
pub mod identity;
pub mod position;
pub mod retrieval;
