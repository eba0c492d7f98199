//! Negotiation layer of a VPN client daemon: turns an abstract relay
//! selection into a concrete, protocol-specific tunnel configuration,
//! tracks the topology of the last successful synthesis for status
//! display, and negotiates a post-quantum pre-shared key for WireGuard
//! tunnels against a relay-side configuration service.

pub mod net;
pub mod params;
pub mod relay;
pub mod selector;
pub mod tunnel;
pub mod tunnel_config;
pub mod winnet;

pub use net::{IpAddress, Ipv4Address, Ipv6Address, SocketAddress};
