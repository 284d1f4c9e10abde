//! Data plane of a minimal unencrypted tunnel.
//!
//! The crate holds the decisions of the relay between a virtual network
//! interface and a datagram socket: which kind of frame was read, which peer
//! it is for, and what the relay does next. Reading and writing the two
//! devices is left to the program that embeds the crate.

pub mod addr;
pub mod config;
pub mod inspect;
pub mod logging;
pub mod peers;
pub mod relay;

pub use addr::VirtualAddr;
pub use config::{Config, Interface, Peer};
pub use relay::{Device, Error};
