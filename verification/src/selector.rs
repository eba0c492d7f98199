//! What the external collaborators hand the synthesizer: the device
//! identity from the credential store, and the relay selection result
//! from the relay selector. Both are modelled as plain values; the
//! lookups themselves are performed by the caller.

use vstd::prelude::*;
use crate::net::{Ipv4Address, Ipv6Address};
use crate::params::{
    ConnectionConfig, ConnectionConfigView, Endpoint, ObfuscatorConfig, PeerConfig, PrivateKey,
    ProxySettings,
};
use crate::relay::{relay_opt_view, Relay, RelayView};

verus! {

/// The WireGuard data of a registered device: its private key and the
/// tunnel addresses assigned to it.
#[derive(Clone, Copy, PartialEq, Eq, Debug)]
pub struct WireguardData {
    pub private_key: PrivateKey,
    pub ipv4_address: Ipv4Address,
    pub ipv6_address: Ipv6Address,
}

/// A registered device.
#[derive(Clone, Copy, PartialEq, Eq, Debug)]
pub struct PrivateDevice {
    pub wg_data: WireguardData,
}

/// The identity used during synthesis: the account token and the
/// registered device. Borrowed read-only from the credential store.
#[derive(Clone, PartialEq, Debug)]
pub struct PrivateAccountAndDevice {
    pub account_token: String,
    pub device: PrivateDevice,
}

/// A user-supplied custom endpoint: a host label (possibly empty) and
/// an explicit connection configuration.
#[derive(Clone, PartialEq, Debug)]
pub struct CustomTunnelEndpoint {
    pub host: String,
    pub config: ConnectionConfig,
}

/// A WireGuard endpoint chosen by the relay selector.
#[derive(Clone, Copy, PartialEq, Eq, Debug)]
pub struct MullvadWireguardEndpoint {
    pub peer: PeerConfig,
    pub exit_peer: Option<PeerConfig>,
    pub ipv4_gateway: Ipv4Address,
    pub ipv6_gateway: Ipv6Address,
}

/// A protocol endpoint chosen by the relay selector.
#[derive(Clone, Copy, PartialEq, Eq, Debug)]
pub enum MullvadEndpoint {
    OpenVpn(Endpoint),
    Wireguard(MullvadWireguardEndpoint),
}

/// A normal (managed-list) relay selection: the exit relay, an optional
/// entry relay for multihop, and the protocol endpoint.
#[derive(Clone, PartialEq, Debug)]
pub struct NormalSelectedRelay {
    pub exit_relay: Relay,
    pub entry_relay: Option<Relay>,
    pub endpoint: MullvadEndpoint,
}

/// The relay chosen by the selector: a user-supplied custom endpoint or
/// a normal relay from the managed list.
#[derive(Clone, PartialEq, Debug)]
pub enum SelectedRelay {
    Custom(CustomTunnelEndpoint),
    Normal(NormalSelectedRelay),
}

/// A bridge chosen by the selector: a managed bridge relay with its
/// proxy settings, or custom proxy settings without a relay.
#[derive(Clone, PartialEq, Debug)]
pub enum SelectedBridge {
    Normal { settings: ProxySettings, relay: Relay },
    Custom(ProxySettings),
}

/// An obfuscator chosen by the selector.
#[derive(Clone, PartialEq, Debug)]
pub struct SelectedObfuscator {
    pub relay: Relay,
    pub config: ObfuscatorConfig,
}

/// The outcome of one relay-selection query.
#[derive(Clone, PartialEq, Debug)]
pub enum RelaySelection {
    /// A relay was chosen, possibly with a bridge and an obfuscator.
    Selected {
        relay: SelectedRelay,
        bridge: Option<SelectedBridge>,
        obfuscator: Option<SelectedObfuscator>,
    },
    /// No bridge matched the constraints.
    NoBridge,
    /// No relay matched the constraints, for any other reason.
    Failed,
}

/// The outcome of resolving a custom endpoint's host label.
#[derive(Clone, Copy, PartialEq, Eq, Debug)]
pub enum HostResolution {
    Resolved,
    Failed,
}

// ------------------------------------------------------------------
// Mathematical views of the model types that carry strings.
// ------------------------------------------------------------------

#[verifier::ext_equal]
pub ghost struct CustomTunnelEndpointView {
    pub host: Seq<char>,
    pub config: ConnectionConfigView,
}

impl View for CustomTunnelEndpoint {
    type V = CustomTunnelEndpointView;

    open spec fn view(&self) -> CustomTunnelEndpointView {
        CustomTunnelEndpointView { host: self.host@, config: self.config@ }
    }
}

#[verifier::ext_equal]
pub ghost struct PrivateAccountAndDeviceView {
    pub account_token: Seq<char>,
    pub device: PrivateDevice,
}

impl View for PrivateAccountAndDevice {
    type V = PrivateAccountAndDeviceView;

    open spec fn view(&self) -> PrivateAccountAndDeviceView {
        PrivateAccountAndDeviceView { account_token: self.account_token@, device: self.device }
    }
}

#[verifier::ext_equal]
pub ghost struct NormalSelectedRelayView {
    pub exit_relay: RelayView,
    pub entry_relay: Option<RelayView>,
    pub endpoint: MullvadEndpoint,
}

impl View for NormalSelectedRelay {
    type V = NormalSelectedRelayView;

    open spec fn view(&self) -> NormalSelectedRelayView {
        NormalSelectedRelayView {
            exit_relay: self.exit_relay@,
            entry_relay: relay_opt_view(self.entry_relay),
            endpoint: self.endpoint,
        }
    }
}

#[verifier::ext_equal]
pub ghost enum SelectedRelayView {
    Custom(CustomTunnelEndpointView),
    Normal(NormalSelectedRelayView),
}

impl View for SelectedRelay {
    type V = SelectedRelayView;

    open spec fn view(&self) -> SelectedRelayView {
        match self {
            SelectedRelay::Custom(c) => SelectedRelayView::Custom(c@),
            SelectedRelay::Normal(n) => SelectedRelayView::Normal(n@),
        }
    }
}

#[verifier::ext_equal]
pub ghost enum SelectedBridgeView {
    Normal { settings: ProxySettings, relay: RelayView },
    Custom(ProxySettings),
}

impl View for SelectedBridge {
    type V = SelectedBridgeView;

    open spec fn view(&self) -> SelectedBridgeView {
        match self {
            SelectedBridge::Normal { settings, relay } => SelectedBridgeView::Normal {
                settings: *settings,
                relay: relay@,
            },
            SelectedBridge::Custom(settings) => SelectedBridgeView::Custom(*settings),
        }
    }
}

#[verifier::ext_equal]
pub ghost struct SelectedObfuscatorView {
    pub relay: RelayView,
    pub config: ObfuscatorConfig,
}

impl View for SelectedObfuscator {
    type V = SelectedObfuscatorView;

    open spec fn view(&self) -> SelectedObfuscatorView {
        SelectedObfuscatorView { relay: self.relay@, config: self.config }
    }
}

#[verifier::ext_equal]
pub ghost enum RelaySelectionView {
    Selected {
        relay: SelectedRelayView,
        bridge: Option<SelectedBridgeView>,
        obfuscator: Option<SelectedObfuscatorView>,
    },
    NoBridge,
    Failed,
}

impl View for RelaySelection {
    type V = RelaySelectionView;

    open spec fn view(&self) -> RelaySelectionView {
        match self {
            RelaySelection::Selected { relay, bridge, obfuscator } => {
                RelaySelectionView::Selected {
                    relay: relay@,
                    bridge: match bridge {
                        Some(b) => Some(b@),
                        None => None,
                    },
                    obfuscator: match obfuscator {
                        Some(o) => Some(o@),
                        None => None,
                    },
                }
            },
            RelaySelection::NoBridge => RelaySelectionView::NoBridge,
            RelaySelection::Failed => RelaySelectionView::Failed,
        }
    }
}

} // verus!
