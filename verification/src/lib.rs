//! Core of a market-data viewer that polls exchange endpoints and renders
//! refreshing console tables.
//!
//! The heart of the crate is the concurrent polling/cancellation
//! orchestration layer: one or more periodic fetch-and-render loops run
//! concurrently, a single user-initiated stop signal is multiplexed across
//! all of them, and per-loop outcomes are collected after a clean shutdown.
//! The loops' decisions are verified state machines ([`polling`],
//! [`orchestrator`]); the stop signal is modelled in [`signal`]. Network
//! transport and terminal rendering are outside collaborators: a driver
//! performs them and feeds the resulting events back into the state
//! machines.

pub mod candles;
pub mod menu;
pub mod models;
pub mod orchestrator;
pub mod polling;
pub mod render;
pub mod signal;
pub mod trades;
pub mod urls;
