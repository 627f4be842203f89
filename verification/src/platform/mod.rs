//! The decisions of the platform layer: what the readings of the operating
//! system mean, and how the processes talk to each other.
pub mod ipc;
pub mod low;
pub mod transport;
