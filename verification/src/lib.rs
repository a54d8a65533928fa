//! Core of a pipelined dataflow engine for bounded and unbounded streams.
//!
//! A logical stream program is compiled into physical blocks; replicas of each
//! block are placed on hosts and cores, wired together with bounded channels
//! (in-memory or multiplexed over one TCP link per host pair), and run a
//! pull-based operator chain that carries data, event-time watermarks and
//! control markers end to end.

pub mod batch_mode;
pub mod batcher;
pub mod channel;
pub mod config;
pub mod coord;
pub mod element;
pub mod ext;
pub mod graph;
pub mod network;
pub mod routing;
pub mod start;
pub mod stream;
pub mod watermark;
pub mod window;
