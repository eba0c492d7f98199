//! Tunnel configuration model: WireGuard and OpenVPN connection
//! configurations, tunnel options, and the protocol-tagged tunnel
//! parameters that a synthesis produces.

use vstd::prelude::*;
use crate::net::{IpAddress, Ipv4Address, Ipv6Address, SocketAddress};

verus! {

/// A WireGuard public key.
#[derive(Clone, Copy, PartialEq, Eq, Debug)]
pub struct PublicKey {
    pub key: [u8; 32],
}

/// A WireGuard private key.
#[derive(Clone, Copy, PartialEq, Eq, Debug)]
pub struct PrivateKey {
    pub key: [u8; 32],
}

/// A WireGuard pre-shared key.
#[derive(Clone, Copy, PartialEq, Eq, Debug)]
pub struct PresharedKey {
    pub key: [u8; 32],
}

/// The transport protocol of an endpoint.
#[derive(Clone, Copy, PartialEq, Eq, Debug)]
pub enum TransportProtocol {
    Udp,
    Tcp,
}

/// A remote endpoint: an address, a port and a transport protocol.
#[derive(Clone, Copy, PartialEq, Eq, Debug)]
pub struct Endpoint {
    pub address: SocketAddress,
    pub protocol: TransportProtocol,
}

/// A WireGuard peer: its public key and the endpoint it listens on.
#[derive(Clone, Copy, PartialEq, Eq, Debug)]
pub struct PeerConfig {
    pub public_key: PublicKey,
    pub endpoint: SocketAddress,
}

/// The local WireGuard tunnel identity: the device key and the
/// addresses assigned to the tunnel interface.
#[derive(Clone, Copy, PartialEq, Eq, Debug)]
pub struct TunnelConfig {
    pub private_key: PrivateKey,
    pub ipv4_address: Ipv4Address,
    pub ipv6_address: Ipv6Address,
}

/// A full WireGuard connection configuration.
#[derive(Clone, Copy, PartialEq, Eq, Debug)]
pub struct WireguardConnectionConfig {
    pub tunnel: TunnelConfig,
    pub peer: PeerConfig,
    pub exit_peer: Option<PeerConfig>,
    pub ipv4_gateway: Ipv4Address,
    pub ipv6_gateway: Option<Ipv6Address>,
}

/// An OpenVPN connection configuration. The user name carries the
/// account token; the password is a fixed sentinel.
#[derive(Clone, PartialEq, Debug)]
pub struct OpenVpnConnectionConfig {
    pub endpoint: Endpoint,
    pub username: String,
    pub password: String,
}

/// A user-supplied connection configuration of either protocol.
#[derive(Clone, PartialEq, Debug)]
pub enum ConnectionConfig {
    Wireguard(WireguardConnectionConfig),
    OpenVpn(OpenVpnConnectionConfig),
}

/// OpenVPN-specific tunnel options.
#[derive(Clone, Copy, PartialEq, Eq, Debug)]
pub struct OpenVpnTunnelOptions {
    pub mssfix: Option<u16>,
}

/// WireGuard-specific tunnel options.
#[derive(Clone, Copy, PartialEq, Eq, Debug)]
pub struct WireguardTunnelOptions {
    pub mtu: Option<u16>,
}

/// Protocol-independent tunnel options.
#[derive(Clone, Copy, PartialEq, Eq, Debug)]
pub struct GenericTunnelOptions {
    pub enable_ipv6: bool,
}

/// The tunnel options used when synthesizing parameters. Replacing them
/// takes effect on the next synthesis only.
#[derive(Clone, Copy, PartialEq, Eq, Debug)]
pub struct TunnelOptions {
    pub openvpn: OpenVpnTunnelOptions,
    pub wireguard: WireguardTunnelOptions,
    pub generic: GenericTunnelOptions,
}

/// Proxy settings of an OpenVPN bridge.
#[derive(Clone, Copy, PartialEq, Eq, Debug)]
pub struct ProxySettings {
    pub peer: SocketAddress,
}

/// An obfuscation transport for WireGuard traffic.
#[derive(Clone, Copy, PartialEq, Eq, Debug)]
pub struct ObfuscatorConfig {
    pub endpoint: SocketAddress,
}

/// Parameters of an OpenVPN tunnel.
#[derive(Clone, PartialEq, Debug)]
pub struct OpenVpnTunnelParameters {
    pub config: OpenVpnConnectionConfig,
    pub options: OpenVpnTunnelOptions,
    pub generic_options: GenericTunnelOptions,
    pub proxy: Option<ProxySettings>,
}

/// Parameters of a WireGuard tunnel.
#[derive(Clone, Copy, PartialEq, Eq, Debug)]
pub struct WireguardTunnelParameters {
    pub connection: WireguardConnectionConfig,
    pub options: WireguardTunnelOptions,
    pub generic_options: GenericTunnelOptions,
    pub obfuscation: Option<ObfuscatorConfig>,
}

/// Protocol-tagged tunnel parameters: the synthesizer's product.
#[derive(Clone, PartialEq, Debug)]
pub enum TunnelParameters {
    OpenVpn(OpenVpnTunnelParameters),
    Wireguard(WireguardTunnelParameters),
}

/// The mathematical view of an OpenVPN connection configuration.
#[verifier::ext_equal]
pub ghost struct OpenVpnConnectionConfigView {
    pub endpoint: Endpoint,
    pub username: Seq<char>,
    pub password: Seq<char>,
}

impl View for OpenVpnConnectionConfig {
    type V = OpenVpnConnectionConfigView;

    open spec fn view(&self) -> OpenVpnConnectionConfigView {
        OpenVpnConnectionConfigView {
            endpoint: self.endpoint,
            username: self.username@,
            password: self.password@,
        }
    }
}

#[verifier::ext_equal]
pub ghost enum ConnectionConfigView {
    Wireguard(WireguardConnectionConfig),
    OpenVpn(OpenVpnConnectionConfigView),
}

impl View for ConnectionConfig {
    type V = ConnectionConfigView;

    open spec fn view(&self) -> ConnectionConfigView {
        match self {
            ConnectionConfig::Wireguard(c) => ConnectionConfigView::Wireguard(*c),
            ConnectionConfig::OpenVpn(c) => ConnectionConfigView::OpenVpn(c@),
        }
    }
}

/// The mathematical view of OpenVPN tunnel parameters.
#[verifier::ext_equal]
pub ghost struct OpenVpnTunnelParametersView {
    pub config: OpenVpnConnectionConfigView,
    pub options: OpenVpnTunnelOptions,
    pub generic_options: GenericTunnelOptions,
    pub proxy: Option<ProxySettings>,
}

impl View for OpenVpnTunnelParameters {
    type V = OpenVpnTunnelParametersView;

    open spec fn view(&self) -> OpenVpnTunnelParametersView {
        OpenVpnTunnelParametersView {
            config: self.config@,
            options: self.options,
            generic_options: self.generic_options,
            proxy: self.proxy,
        }
    }
}

/// The mathematical view of tunnel parameters.
#[verifier::ext_equal]
pub ghost enum TunnelParametersView {
    OpenVpn(OpenVpnTunnelParametersView),
    Wireguard(WireguardTunnelParameters),
}

impl View for TunnelParameters {
    type V = TunnelParametersView;

    open spec fn view(&self) -> TunnelParametersView {
        match self {
            TunnelParameters::OpenVpn(p) => TunnelParametersView::OpenVpn(p@),
            TunnelParameters::Wireguard(p) => TunnelParametersView::Wireguard(*p),
        }
    }
}

} // verus!
