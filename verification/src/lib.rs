//! A pluggable UDP transport: the contract between a datagram service and the
//! socket it runs on, with the decisions of the transport verified.
//!
//! A service is written against [`SocketProvider`] and runs on any
//! implementation of it: on a socket of the operating system in production,
//! on [`MemorySocket`] where it is tested.
//!
//! - [`address`]: IPv4 socket addresses.
//! - [`timing`]: time limits, and the two timing modes of an endpoint.
//! - [`error`]: what an operation reports when it does not succeed.
//! - [`provider`]: the contract of the transport.
//! - [`script`]: the calls on the underlying socket that bind an endpoint or
//!   change its mode, one at a time.
//! - [`answer`]: what an operation returns for what the underlying socket
//!   answered.
//! - [`memory`]: an endpoint in memory, with the laws that hold of it.

pub mod address;
pub mod answer;
pub mod error;
pub mod memory;
pub mod provider;
pub mod script;
pub mod timing;

pub use crate::address::Address;
pub use crate::error::{Failure, FailureKind, TransportError};
pub use crate::memory::{Datagram, MemorySocket};
pub use crate::provider::{Endpoint, SocketProvider};
pub use crate::script::{Call, Script};
pub use crate::timing::{Mode, Timeout};
