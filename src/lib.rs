//! Addresses that name either an IP socket or a local-domain socket, with
//! their text form and the conversions between observed and named addresses.
use vstd::prelude::*;

pub mod prepare;
pub mod socket_addr;
pub mod text;

pub use prepare::{UnixBindPlan, DEFAULT_SOCKET_MODE};
pub use socket_addr::{AddressError, InetSocketAddr, NamedSocketAddr, SocketAddr, UnixSocketAddr};
