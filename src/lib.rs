//! Low-latency socket building blocks.
//!
//! The library holds the decisions of a cross-platform socket layer and of a
//! batched datagram engine, proved against their contracts: which options a
//! configuration sets and in which order, how a setup reacts to the result of
//! each native call, how generic addresses map onto the native structures and
//! back, and how batched receives and sends complete. The native calls
//! themselves are made by a driver that hands each result back.

pub mod affinity;
pub mod buffer_pool;
pub mod config;
pub mod error;
pub mod platform;
pub mod raw;
pub mod rt;
pub mod setup;
pub mod tcp;
pub mod udp;

pub use affinity::parse_cpu_list;
pub use buffer_pool::BufferPool;
pub use config::{apply_low_latency, NetConfig};
pub use error::NetError;
pub use platform::Platform;
pub use rt::{NetHandle, Runtime};
