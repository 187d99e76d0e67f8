//! Assembly core of a parachain node.
//!
//! The library decides, from a single configuration input, which of three
//! operating modes a node runs in — collator, full node, or development —
//! and which collaborator graph each mode requires. Every decision is
//! recorded as an event trace whose shape is pinned down by the contracts:
//! which tasks are spawned and with which labels, which import queue is
//! selected, when the network is started, and what every inherent-data
//! provider carries. The live handles themselves (client, backend, network,
//! task manager) belong to the host blockchain framework and stay outside
//! this crate.

pub mod config;
pub mod error;
pub mod events;
pub mod inherents;
pub mod laws;
pub mod sealing;
pub mod service;
