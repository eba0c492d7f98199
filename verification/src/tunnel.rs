//! The tunnel parameter synthesizer and the topology tracker.
//!
//! `ParametersGenerator::generate` turns one relay selection, together
//! with the device identity and (for custom endpoints) the outcome of
//! resolving the host label, into protocol-specific tunnel parameters,
//! and records the relay topology of the synthesis for status queries.
//! The generator is owned exclusively: Rust's `&mut` borrow serializes
//! syntheses and status reads, so no reader can observe a half-updated
//! snapshot.

use vstd::prelude::*;
use crate::net::ip_text;
use crate::params::{
    ConnectionConfig, ConnectionConfigView, ObfuscatorConfig, OpenVpnConnectionConfig,
    OpenVpnConnectionConfigView, OpenVpnTunnelParameters, OpenVpnTunnelParametersView,
    ProxySettings, TunnelConfig, TunnelOptions, TunnelParameters, TunnelParametersView,
    WireguardConnectionConfig, WireguardTunnelParameters,
};
use crate::relay::{
    custom_hostname, custom_hostname_or_address, custom_relay, custom_relay_view, geo_opt_view,
    relay_opt_view, wg_endpoint_data, GeoIpLocation, GeoIpLocationView, Relay, RelayEndpointData,
    RelayView,
};
use crate::selector::{
    CustomTunnelEndpointView, HostResolution, MullvadEndpoint, NormalSelectedRelay,
    NormalSelectedRelayView, PrivateAccountAndDevice, PrivateAccountAndDeviceView,
    RelaySelection, RelaySelectionView, SelectedBridge, SelectedBridgeView, SelectedObfuscator,
    SelectedObfuscatorView, SelectedRelay, SelectedRelayView,
};

verus! {

/// A synthesis failure.
#[derive(Clone, Copy, PartialEq, Eq, Debug)]
pub enum Error {
    /// Not logged in on a valid device.
    NoAuthDetails,
    /// No relay available.
    NoRelayAvailable,
    /// No bridge available.
    NoBridgeAvailable,
    /// Failed to resolve the hostname of a custom relay.
    ResolveCustomHostname,
}

/// The failure kinds reported to the tunnel state machine.
#[derive(Clone, Copy, PartialEq, Eq, Debug)]
pub enum ParameterGenerationError {
    NoMatchingRelay,
    NoMatchingBridgeRelay,
    CustomTunnelHostResolutionError,
}

/// Maps a synthesis failure to the kind reported to the tunnel state
/// machine.
pub fn map_generation_error(error: &Error) -> (r: ParameterGenerationError)
    ensures
        r == match *error {
            Error::NoBridgeAvailable => ParameterGenerationError::NoMatchingBridgeRelay,
            Error::ResolveCustomHostname => ParameterGenerationError::CustomTunnelHostResolutionError,
            _ => ParameterGenerationError::NoMatchingRelay,
        },
{
    match error {
        Error::NoBridgeAvailable => ParameterGenerationError::NoMatchingBridgeRelay,
        Error::ResolveCustomHostname => ParameterGenerationError::CustomTunnelHostResolutionError,
        _ => ParameterGenerationError::NoMatchingRelay,
    }
}

/// The relays selected by the most recent successful synthesis.
#[derive(PartialEq, Debug)]
pub enum LastSelectedRelays {
    /// Relays of a WireGuard tunnel. Traffic flows
    /// client -> (obfuscator) -> (entry) -> exit.
    Wireguard { wg_entry: Option<Relay>, wg_exit: Relay, obfuscator: Option<Relay> },
    /// Relays of an OpenVPN tunnel. Traffic flows
    /// client -> (bridge) -> relay.
    Openvpn { relay: Relay, bridge: Option<Relay> },
}

/// The mathematical view of a topology snapshot.
#[verifier::ext_equal]
pub ghost enum LastSelectedRelaysView {
    Wireguard { wg_entry: Option<RelayView>, wg_exit: RelayView, obfuscator: Option<RelayView> },
    Openvpn { relay: RelayView, bridge: Option<RelayView> },
}

impl View for LastSelectedRelays {
    type V = LastSelectedRelaysView;

    open spec fn view(&self) -> LastSelectedRelaysView {
        match self {
            LastSelectedRelays::Wireguard { wg_entry, wg_exit, obfuscator } => {
                LastSelectedRelaysView::Wireguard {
                    wg_entry: relay_opt_view(*wg_entry),
                    wg_exit: wg_exit@,
                    obfuscator: relay_opt_view(*obfuscator),
                }
            },
            LastSelectedRelays::Openvpn { relay, bridge } => LastSelectedRelaysView::Openvpn {
                relay: relay@,
                bridge: relay_opt_view(*bridge),
            },
        }
    }
}

/// The view of an optional topology snapshot.
pub open spec fn snapshot_view(s: Option<LastSelectedRelays>) -> Option<LastSelectedRelaysView> {
    match s {
        Some(relays) => Some(relays@),
        None => None,
    }
}

/// The hostname of an optional relay.
pub open spec fn hostname_of(r: Option<RelayView>) -> Option<Seq<char>> {
    match r {
        Some(relay) => Some(relay.hostname),
        None => None,
    }
}

/// The bridge relay of a bridge selection: a custom bridge carries
/// settings only, no relay.
pub open spec fn bridge_relay_of(b: Option<SelectedBridgeView>) -> Option<RelayView> {
    match b {
        Some(SelectedBridgeView::Normal { settings, relay }) => Some(relay),
        Some(SelectedBridgeView::Custom(_)) => None,
        None => None,
    }
}

/// The proxy settings of a bridge selection.
pub open spec fn bridge_settings_of(b: Option<SelectedBridgeView>) -> Option<ProxySettings> {
    match b {
        Some(SelectedBridgeView::Normal { settings, relay }) => Some(settings),
        Some(SelectedBridgeView::Custom(settings)) => Some(settings),
        None => None,
    }
}

/// The relay of an obfuscator selection.
pub open spec fn obfuscator_relay_of(o: Option<SelectedObfuscatorView>) -> Option<RelayView> {
    match o {
        Some(obfuscator) => Some(obfuscator.relay),
        None => None,
    }
}

/// The obfuscation config of an obfuscator selection.
pub open spec fn obfuscator_config_of(o: Option<SelectedObfuscatorView>) -> Option<
    ObfuscatorConfig,
> {
    match o {
        Some(obfuscator) => Some(obfuscator.config),
        None => None,
    }
}

/// The topology recorded for a custom WireGuard endpoint. With an exit
/// peer, the exit descriptor carries the user label (or the exit
/// address text) and the entry descriptor always carries the entry
/// address text; without one, the single descriptor carries the user
/// label or the address text.
pub open spec fn custom_wg_snapshot(
    config: WireguardConnectionConfig,
    host: Seq<char>,
) -> LastSelectedRelaysView {
    match config.exit_peer {
        Some(exit_peer) => LastSelectedRelaysView::Wireguard {
            wg_entry: Some(
                custom_relay_view(
                    ip_text(config.peer.endpoint.ip),
                    config.peer.endpoint.ip,
                    RelayEndpointData::Wireguard(
                        crate::relay::WireguardRelayEndpointData {
                            public_key: config.peer.public_key,
                        },
                    ),
                ),
            ),
            wg_exit: custom_relay_view(
                custom_hostname(host, exit_peer.endpoint.ip),
                exit_peer.endpoint.ip,
                RelayEndpointData::Wireguard(
                    crate::relay::WireguardRelayEndpointData { public_key: exit_peer.public_key },
                ),
            ),
            obfuscator: None,
        },
        None => LastSelectedRelaysView::Wireguard {
            wg_entry: None,
            wg_exit: custom_relay_view(
                custom_hostname(host, config.peer.endpoint.ip),
                config.peer.endpoint.ip,
                RelayEndpointData::Wireguard(
                    crate::relay::WireguardRelayEndpointData { public_key: config.peer.public_key },
                ),
            ),
            obfuscator: None,
        },
    }
}

/// The topology recorded for a custom OpenVPN endpoint.
pub open spec fn custom_openvpn_snapshot(
    config: OpenVpnConnectionConfigView,
    host: Seq<char>,
) -> LastSelectedRelaysView {
    LastSelectedRelaysView::Openvpn {
        relay: custom_relay_view(
            custom_hostname(host, config.endpoint.address.ip),
            config.endpoint.address.ip,
            RelayEndpointData::Openvpn,
        ),
        bridge: None,
    }
}

/// The topology recorded for a custom endpoint of either protocol.
pub open spec fn custom_snapshot(c: CustomTunnelEndpointView) -> LastSelectedRelaysView {
    match c.config {
        ConnectionConfigView::Wireguard(config) => custom_wg_snapshot(config, c.host),
        ConnectionConfigView::OpenVpn(config) => custom_openvpn_snapshot(config, c.host),
    }
}

/// The topology recorded for a normal relay selection.
pub open spec fn normal_snapshot(
    n: NormalSelectedRelayView,
    bridge: Option<SelectedBridgeView>,
    obfuscator: Option<SelectedObfuscatorView>,
) -> LastSelectedRelaysView {
    match n.endpoint {
        MullvadEndpoint::OpenVpn(_) => LastSelectedRelaysView::Openvpn {
            relay: n.exit_relay,
            bridge: bridge_relay_of(bridge),
        },
        MullvadEndpoint::Wireguard(_) => LastSelectedRelaysView::Wireguard {
            wg_entry: n.entry_relay,
            wg_exit: n.exit_relay,
            obfuscator: obfuscator_relay_of(obfuscator),
        },
    }
}

/// The parameters built from a custom endpoint's own connection
/// configuration. No bridge or obfuscator is synthesized for custom
/// endpoints; proxy settings are always absent.
pub open spec fn custom_parameters(
    options: TunnelOptions,
    config: ConnectionConfigView,
) -> TunnelParametersView {
    match config {
        ConnectionConfigView::Wireguard(c) => TunnelParametersView::Wireguard(
            WireguardTunnelParameters {
                connection: c,
                options: options.wireguard,
                generic_options: options.generic,
                obfuscation: None,
            },
        ),
        ConnectionConfigView::OpenVpn(c) => TunnelParametersView::OpenVpn(
            OpenVpnTunnelParametersView {
                config: c,
                options: options.openvpn,
                generic_options: options.generic,
                proxy: None,
            },
        ),
    }
}

/// The parameters built from a normal relay selection: the protocol
/// endpoint combined with the device identity, the configured options,
/// and the selected bridge or obfuscator.
pub open spec fn normal_parameters(
    options: TunnelOptions,
    device: PrivateAccountAndDeviceView,
    n: NormalSelectedRelayView,
    bridge: Option<SelectedBridgeView>,
    obfuscator: Option<SelectedObfuscatorView>,
) -> TunnelParametersView {
    match n.endpoint {
        MullvadEndpoint::OpenVpn(endpoint) => TunnelParametersView::OpenVpn(
            OpenVpnTunnelParametersView {
                config: OpenVpnConnectionConfigView {
                    endpoint,
                    username: device.account_token,
                    password: "-"@,
                },
                options: options.openvpn,
                generic_options: options.generic,
                proxy: bridge_settings_of(bridge),
            },
        ),
        MullvadEndpoint::Wireguard(endpoint) => TunnelParametersView::Wireguard(
            WireguardTunnelParameters {
                connection: WireguardConnectionConfig {
                    tunnel: TunnelConfig {
                        private_key: device.device.wg_data.private_key,
                        ipv4_address: device.device.wg_data.ipv4_address,
                        ipv6_address: device.device.wg_data.ipv6_address,
                    },
                    peer: endpoint.peer,
                    exit_peer: endpoint.exit_peer,
                    ipv4_gateway: endpoint.ipv4_gateway,
                    ipv6_gateway: Some(endpoint.ipv6_gateway),
                },
                options: options.wireguard,
                generic_options: options.generic,
                obfuscation: obfuscator_config_of(obfuscator),
            },
        ),
    }
}

/// The view of an optional device identity.
pub open spec fn device_opt_view(d: Option<PrivateAccountAndDevice>) -> Option<
    PrivateAccountAndDeviceView,
> {
    match d {
        Some(device) => Some(device@),
        None => None,
    }
}

/// The view of a synthesis result.
pub open spec fn result_view(r: Result<TunnelParameters, Error>) -> Result<
    TunnelParametersView,
    Error,
> {
    match r {
        Ok(params) => Ok(params@),
        Err(e) => Err(e),
    }
}

/// What one synthesis returns, for every combination of inputs: the
/// parameters on success, and the exact failure otherwise. Identity is
/// checked first; a missing identity fails the attempt. A custom
/// endpoint whose host label could not be resolved fails the attempt; a
/// resolved one yields parameters built from the user-supplied
/// configuration. A normal selection always yields parameters. The two
/// selection failures are kept distinct, since callers react
/// differently to a missing bridge.
pub open spec fn synthesis_result(
    options: TunnelOptions,
    device: Option<PrivateAccountAndDeviceView>,
    selection: RelaySelectionView,
    resolution: HostResolution,
) -> Result<TunnelParametersView, Error> {
    match device {
        None => Err(Error::NoAuthDetails),
        Some(device) => match selection {
            RelaySelectionView::Selected { relay, bridge, obfuscator } => match relay {
                SelectedRelayView::Custom(custom) => match resolution {
                    HostResolution::Failed => Err(Error::ResolveCustomHostname),
                    HostResolution::Resolved => Ok(custom_parameters(options, custom.config)),
                },
                SelectedRelayView::Normal(normal) => Ok(
                    normal_parameters(options, device, normal, bridge, obfuscator),
                ),
            },
            RelaySelectionView::NoBridge => Err(Error::NoBridgeAvailable),
            RelaySelectionView::Failed => Err(Error::NoRelayAvailable),
        },
    }
}

/// The topology snapshot after one synthesis, for every combination of
/// inputs. It is a function of the synthesis inputs alone: a successful
/// synthesis records its own topology whole, and a failed one clears
/// whatever an earlier synthesis had recorded.
pub open spec fn snapshot_after(
    device: Option<PrivateAccountAndDeviceView>,
    selection: RelaySelectionView,
    resolution: HostResolution,
) -> Option<LastSelectedRelaysView> {
    match device {
        None => None,
        Some(_) => match selection {
            RelaySelectionView::Selected { relay, bridge, obfuscator } => match relay {
                SelectedRelayView::Custom(custom) => match resolution {
                    HostResolution::Failed => None,
                    HostResolution::Resolved => Some(custom_snapshot(custom)),
                },
                SelectedRelayView::Normal(normal) => Some(
                    normal_snapshot(normal, bridge, obfuscator),
                ),
            },
            RelaySelectionView::NoBridge => None,
            RelaySelectionView::Failed => None,
        },
    }
}

/// The status location read from a topology snapshot: nothing before
/// the first successful synthesis or when the stored exit relay carries
/// no location; otherwise the exit relay's location and hostname,
/// together with exactly one of the two hostname shapes — the bridge
/// hostname for OpenVPN, the entry and obfuscator hostnames for
/// WireGuard.
pub open spec fn location_of(snapshot: Option<LastSelectedRelaysView>) -> Option<
    GeoIpLocationView,
> {
    match snapshot {
        None => None,
        Some(LastSelectedRelaysView::Wireguard { wg_entry, wg_exit, obfuscator }) => {
            match wg_exit.location {
                None => None,
                Some(location) => Some(
                    GeoIpLocationView {
                        ipv4: None,
                        ipv6: None,
                        country: location.country,
                        city: Some(location.city),
                        latitude: location.latitude,
                        longitude: location.longitude,
                        mullvad_exit_ip: true,
                        hostname: Some(wg_exit.hostname),
                        bridge_hostname: None,
                        entry_hostname: hostname_of(wg_entry),
                        obfuscator_hostname: hostname_of(obfuscator),
                    },
                ),
            }
        },
        Some(LastSelectedRelaysView::Openvpn { relay, bridge }) => match relay.location {
            None => None,
            Some(location) => Some(
                GeoIpLocationView {
                    ipv4: None,
                    ipv6: None,
                    country: location.country,
                    city: Some(location.city),
                    latitude: location.latitude,
                    longitude: location.longitude,
                    mullvad_exit_ip: true,
                    hostname: Some(relay.hostname),
                    bridge_hostname: hostname_of(bridge),
                    entry_hostname: None,
                    obfuscator_hostname: None,
                },
            ),
        },
    }
}

/// Law: a failed synthesis clears any previously recorded topology, so
/// a subsequent status read returns nothing — whatever had been
/// recorded before, and whichever failure occurred.
pub proof fn lemma_failed_synthesis_clears_topology(
    options: TunnelOptions,
    device: Option<PrivateAccountAndDeviceView>,
    selection: RelaySelectionView,
    resolution: HostResolution,
)
    requires
        synthesis_result(options, device, selection, resolution) is Err,
    ensures
        snapshot_after(device, selection, resolution) is None,
        location_of(snapshot_after(device, selection, resolution)) is None,
{
}

/// Law: syntheses never interleave their effects on the topology
/// snapshot. Each synthesis determines the snapshot from its own
/// inputs alone — `generate` ensures the new snapshot equals
/// `snapshot_after` of the call's inputs, with no dependence on the
/// prior state — and whatever snapshot remains is the whole topology
/// of that one synthesis's selection, never a mixture: a later status
/// read observes one synthesis's fully applied result or nothing.
pub proof fn lemma_snapshot_is_one_whole_synthesis(
    device: Option<PrivateAccountAndDeviceView>,
    selection: RelaySelectionView,
    resolution: HostResolution,
)
    ensures
        snapshot_after(device, selection, resolution) matches Some(snapshot) ==> {
            &&& selection is Selected
            &&& selection matches RelaySelectionView::Selected { relay, bridge, obfuscator }
                ==> snapshot == match relay {
                SelectedRelayView::Custom(custom) => custom_snapshot(custom),
                SelectedRelayView::Normal(normal) => normal_snapshot(normal, bridge, obfuscator),
            }
        },
{
}

/// Law: a status location read from a WireGuard topology reports an
/// entry hostname exactly when an entry relay was recorded, an
/// obfuscator hostname exactly when an obfuscator was recorded, and
/// never a bridge hostname.
pub proof fn lemma_wireguard_status_shape(
    wg_entry: Option<RelayView>,
    wg_exit: RelayView,
    obfuscator: Option<RelayView>,
)
    ensures
        location_of(Some(LastSelectedRelaysView::Wireguard { wg_entry, wg_exit, obfuscator }))
            is Some <==> wg_exit.location is Some,
        location_of(
            Some(LastSelectedRelaysView::Wireguard { wg_entry, wg_exit, obfuscator }),
        ) matches Some(loc) ==> {
            &&& loc.bridge_hostname is None
            &&& loc.entry_hostname is Some <==> wg_entry is Some
            &&& loc.obfuscator_hostname is Some <==> obfuscator is Some
        },
{
}

/// Law: a status location read from an OpenVPN topology reports a
/// bridge hostname exactly when a bridge relay was recorded, and never
/// an entry or obfuscator hostname. Together with the WireGuard shape,
/// the two hostname shapes never both populate.
pub proof fn lemma_openvpn_status_shape(relay: RelayView, bridge: Option<RelayView>)
    ensures
        location_of(Some(LastSelectedRelaysView::Openvpn { relay, bridge })) is Some
            <==> relay.location is Some,
        location_of(Some(LastSelectedRelaysView::Openvpn { relay, bridge })) matches Some(loc)
            ==> {
            &&& loc.entry_hostname is None
            &&& loc.obfuscator_hostname is None
            &&& loc.bridge_hostname is Some <==> bridge is Some
        },
{
}

/// Law: after any successful synthesis, the status location carries
/// exactly one of the two hostname shapes. A WireGuard synthesis with
/// an entry relay present reports an entry hostname and no bridge
/// hostname; an OpenVPN synthesis with a bridge relay reports a bridge
/// hostname and no entry or obfuscator hostname.
pub proof fn lemma_synthesis_status_shape(
    options: TunnelOptions,
    device: Option<PrivateAccountAndDeviceView>,
    selection: RelaySelectionView,
    resolution: HostResolution,
)
    requires
        synthesis_result(options, device, selection, resolution) is Ok,
    ensures
        snapshot_after(device, selection, resolution) matches Some(snapshot) ==> match snapshot {
            LastSelectedRelaysView::Wireguard { wg_entry, wg_exit, obfuscator } => {
                location_of(Some(snapshot)) matches Some(loc) ==> {
                    &&& loc.bridge_hostname is None
                    &&& loc.entry_hostname is Some <==> wg_entry is Some
                }
            },
            LastSelectedRelaysView::Openvpn { relay, bridge } => {
                location_of(Some(snapshot)) matches Some(loc) ==> {
                    &&& loc.entry_hostname is None
                    &&& loc.obfuscator_hostname is None
                    &&& loc.bridge_hostname is Some <==> bridge is Some
                }
            },
        },
{
}

impl LastSelectedRelays {
    /// Builds the topology snapshot for a custom WireGuard endpoint from
    /// its connection configuration and the user-supplied host label.
    pub fn from_custom_wg_relay(config: WireguardConnectionConfig, host: String) -> (r: Self)
        ensures
            r@ == custom_wg_snapshot(config, host@),
    {
        let r = match config.exit_peer {
            Some(exit_peer) => {
                let wg_exit = custom_relay(
                    custom_hostname_or_address(host, &exit_peer.endpoint.ip),
                    exit_peer.endpoint.ip,
                    wg_endpoint_data(exit_peer.public_key),
                );
                let wg_entry = custom_relay(
                    config.peer.endpoint.ip.to_text(),
                    config.peer.endpoint.ip,
                    wg_endpoint_data(config.peer.public_key),
                );
                LastSelectedRelays::Wireguard {
                    wg_entry: Some(wg_entry),
                    wg_exit,
                    obfuscator: None,
                }
            },
            None => {
                let wg_exit = custom_relay(
                    custom_hostname_or_address(host, &config.peer.endpoint.ip),
                    config.peer.endpoint.ip,
                    wg_endpoint_data(config.peer.public_key),
                );
                LastSelectedRelays::Wireguard { wg_entry: None, wg_exit, obfuscator: None }
            },
        };
        proof {
            assert(r@ =~~= custom_wg_snapshot(config, host@));
        }
        r
    }

    /// Builds the topology snapshot for a custom OpenVPN endpoint from
    /// its connection configuration and the user-supplied host label.
    pub fn from_custom_openvpn_relay(config: &OpenVpnConnectionConfig, host: String) -> (r: Self)
        ensures
            r@ == custom_openvpn_snapshot(config@, host@),
    {
        let relay = custom_relay(
            custom_hostname_or_address(host, &config.endpoint.address.ip),
            config.endpoint.address.ip,
            RelayEndpointData::Openvpn,
        );
        let r = LastSelectedRelays::Openvpn { relay, bridge: None };
        proof {
            assert(r@ =~~= custom_openvpn_snapshot(config@, host@));
        }
        r
    }
}

/// The synthesizer: holds the tunnel options used for the next
/// synthesis and the topology of the last successful one. One instance
/// is owned by the daemon; the exclusive borrow on `generate` and the
/// shared borrow on `get_last_location` serialize all access.
#[derive(PartialEq, Debug)]
pub struct ParametersGenerator {
    pub tunnel_options: TunnelOptions,
    pub last_generated_relays: Option<LastSelectedRelays>,
}

impl ParametersGenerator {
    /// Constructs a new tunnel parameters generator. No synthesis has
    /// happened, so status queries report nothing.
    pub fn new(tunnel_options: TunnelOptions) -> (r: Self)
        ensures
            r.tunnel_options == tunnel_options,
            r.last_generated_relays is None,
    {
        ParametersGenerator { tunnel_options, last_generated_relays: None }
    }

    /// Replaces the tunnel options used when generating new tunnel
    /// parameters. Takes effect on the next synthesis only; the
    /// recorded topology is untouched.
    pub fn set_tunnel_options(&mut self, tunnel_options: &TunnelOptions)
        ensures
            final(self).tunnel_options == *tunnel_options,
            final(self).last_generated_relays == old(self).last_generated_relays,
    {
        self.tunnel_options = *tunnel_options;
    }

    /// The location associated with the last generated tunnel
    /// parameters: nothing if no synthesis has succeeded since the last
    /// failure, or if the stored exit relay carries no location.
    pub fn get_last_location(&self) -> (r: Option<GeoIpLocation>)
        ensures
            geo_opt_view(r) == location_of(snapshot_view(self.last_generated_relays)),
    {
        let relays = match &self.last_generated_relays {
            None => {
                return None;
            },
            Some(relays) => relays,
        };
        let hostname: String;
        let bridge_hostname: Option<String>;
        let entry_hostname: Option<String>;
        let obfuscator_hostname: Option<String>;
        let location: crate::relay::Location;
        match relays {
            LastSelectedRelays::Wireguard { wg_entry, wg_exit, obfuscator } => {
                entry_hostname = match wg_entry {
                    Some(entry) => Some(entry.hostname.clone()),
                    None => None,
                };
                hostname = wg_exit.hostname.clone();
                obfuscator_hostname = match obfuscator {
                    Some(relay) => Some(relay.hostname.clone()),
                    None => None,
                };
                bridge_hostname = None;
                location = match &wg_exit.location {
                    Some(location) => location.clone(),
                    None => {
                        return None;
                    },
                };
            },
            LastSelectedRelays::Openvpn { relay, bridge } => {
                hostname = relay.hostname.clone();
                bridge_hostname = match bridge {
                    Some(relay) => Some(relay.hostname.clone()),
                    None => None,
                };
                entry_hostname = None;
                obfuscator_hostname = None;
                location = match &relay.location {
                    Some(location) => location.clone(),
                    None => {
                        return None;
                    },
                };
            },
        }
        let r = Some(
            GeoIpLocation {
                ipv4: None,
                ipv6: None,
                country: location.country,
                city: Some(location.city),
                latitude: location.latitude,
                longitude: location.longitude,
                mullvad_exit_ip: true,
                hostname: Some(hostname),
                bridge_hostname,
                entry_hostname,
                obfuscator_hostname,
            },
        );
        proof {
            assert(geo_opt_view(r) =~~= location_of(snapshot_view(self.last_generated_relays)));
        }
        r
    }

    /// One synthesis: combines the device identity, the relay
    /// selection, and (for custom endpoints) the host resolution
    /// outcome into tunnel parameters, and records or clears the
    /// topology snapshot. The caller performs the identity lookup, the
    /// selector query and the resolution; this function makes every
    /// decision.
    pub fn generate(
        &mut self,
        device: Option<PrivateAccountAndDevice>,
        selection: RelaySelection,
        resolution: HostResolution,
    ) -> (r: Result<TunnelParameters, Error>)
        ensures
            final(self).tunnel_options == old(self).tunnel_options,
            snapshot_view(final(self).last_generated_relays) == snapshot_after(
                device_opt_view(device),
                selection@,
                resolution,
            ),
            result_view(r) == synthesis_result(
                old(self).tunnel_options,
                device_opt_view(device),
                selection@,
                resolution,
            ),
    {
        let ghost device0 = device_opt_view(device);
        let device = match device {
            None => {
                self.last_generated_relays = None;
                return Err(Error::NoAuthDetails);
            },
            Some(device) => device,
        };
        match selection {
            RelaySelection::Selected { relay: SelectedRelay::Custom(custom), .. } => {
                match resolution {
                    HostResolution::Failed => {
                        self.last_generated_relays = None;
                        Err(Error::ResolveCustomHostname)
                    },
                    HostResolution::Resolved => {
                        let ghost custom0 = custom@;
                        let parameters = match custom.config {
                            ConnectionConfig::Wireguard(config) => {
                                self.last_generated_relays = Some(
                                    LastSelectedRelays::from_custom_wg_relay(config, custom.host),
                                );
                                TunnelParameters::Wireguard(
                                    WireguardTunnelParameters {
                                        connection: config,
                                        options: self.tunnel_options.wireguard,
                                        generic_options: self.tunnel_options.generic,
                                        obfuscation: None,
                                    },
                                )
                            },
                            ConnectionConfig::OpenVpn(config) => {
                                self.last_generated_relays = Some(
                                    LastSelectedRelays::from_custom_openvpn_relay(
                                        &config,
                                        custom.host,
                                    ),
                                );
                                TunnelParameters::OpenVpn(
                                    OpenVpnTunnelParameters {
                                        config,
                                        options: self.tunnel_options.openvpn,
                                        generic_options: self.tunnel_options.generic,
                                        proxy: None,
                                    },
                                )
                            },
                        };
                        proof {
                            assert(parameters@ =~~= custom_parameters(
                                self.tunnel_options,
                                custom0.config,
                            ));
                            assert(snapshot_view(self.last_generated_relays) =~~= Some(
                                custom_snapshot(custom0),
                            ));
                        }
                        Ok(parameters)
                    },
                }
            },
            RelaySelection::Selected { relay: SelectedRelay::Normal(normal), bridge, obfuscator } => {
                self.create_tunnel_parameters(normal, bridge, obfuscator, device)
            },
            RelaySelection::NoBridge => {
                self.last_generated_relays = None;
                Err(Error::NoBridgeAvailable)
            },
            RelaySelection::Failed => {
                self.last_generated_relays = None;
                Err(Error::NoRelayAvailable)
            },
        }
    }

    /// Builds parameters for a normal relay selection and records its
    /// topology: the endpoint combined with the account token and a
    /// fixed password sentinel for OpenVPN (splitting a selected bridge
    /// into settings and an optional bridge relay), or with the
    /// device's key material and tunnel addresses for WireGuard
    /// (splitting a selected obfuscator into relay and config).
    fn create_tunnel_parameters(
        &mut self,
        selected: NormalSelectedRelay,
        bridge: Option<SelectedBridge>,
        obfuscator: Option<SelectedObfuscator>,
        device: PrivateAccountAndDevice,
    ) -> (r: Result<TunnelParameters, Error>)
        ensures
            final(self).tunnel_options == old(self).tunnel_options,
            snapshot_view(final(self).last_generated_relays) == Some(
                normal_snapshot(
                    selected@,
                    match bridge {
                        Some(b) => Some(b@),
                        None => None,
                    },
                    match obfuscator {
                        Some(o) => Some(o@),
                        None => None,
                    },
                ),
            ),
            result_view(r) == Ok::<TunnelParametersView, Error>(
                normal_parameters(
                    old(self).tunnel_options,
                    device@,
                    selected@,
                    match bridge {
                        Some(b) => Some(b@),
                        None => None,
                    },
                    match obfuscator {
                        Some(o) => Some(o@),
                        None => None,
                    },
                ),
            ),
    {
        let ghost selected0 = selected@;
        let ghost bridge0: Option<SelectedBridgeView> = match &bridge {
            Some(b) => Some(b@),
            None => None,
        };
        let ghost obfuscator0: Option<SelectedObfuscatorView> = match &obfuscator {
            Some(o) => Some(o@),
            None => None,
        };
        match selected.endpoint {
            MullvadEndpoint::OpenVpn(endpoint) => {
                let (bridge_settings, bridge_relay) = match bridge {
                    Some(SelectedBridge::Normal { settings, relay }) => (
                        Some(settings),
                        Some(relay),
                    ),
                    Some(SelectedBridge::Custom(settings)) => (Some(settings), None),
                    None => (None, None),
                };
                self.last_generated_relays = Some(
                    LastSelectedRelays::Openvpn { relay: selected.exit_relay, bridge: bridge_relay },
                );
                let r = TunnelParameters::OpenVpn(
                    OpenVpnTunnelParameters {
                        config: OpenVpnConnectionConfig {
                            endpoint,
                            username: device.account_token,
                            password: String::from_str("-"),
                        },
                        options: self.tunnel_options.openvpn,
                        generic_options: self.tunnel_options.generic,
                        proxy: bridge_settings,
                    },
                );
                proof {
                    assert(snapshot_view(self.last_generated_relays) =~~= Some(
                        normal_snapshot(selected0, bridge0, obfuscator0),
                    ));
                    assert(r@ =~~= normal_parameters(
                        self.tunnel_options,
                        device@,
                        selected0,
                        bridge0,
                        obfuscator0,
                    ));
                }
                Ok(r)
            },
            MullvadEndpoint::Wireguard(endpoint) => {
                let tunnel = TunnelConfig {
                    private_key: device.device.wg_data.private_key,
                    ipv4_address: device.device.wg_data.ipv4_address,
                    ipv6_address: device.device.wg_data.ipv6_address,
                };
                let (obfuscator_relay, obfuscator_config) = match obfuscator {
                    Some(obfuscator) => (Some(obfuscator.relay), Some(obfuscator.config)),
                    None => (None, None),
                };
                self.last_generated_relays = Some(
                    LastSelectedRelays::Wireguard {
                        wg_entry: selected.entry_relay,
                        wg_exit: selected.exit_relay,
                        obfuscator: obfuscator_relay,
                    },
                );
                let r = TunnelParameters::Wireguard(
                    WireguardTunnelParameters {
                        connection: WireguardConnectionConfig {
                            tunnel,
                            peer: endpoint.peer,
                            exit_peer: endpoint.exit_peer,
                            ipv4_gateway: endpoint.ipv4_gateway,
                            ipv6_gateway: Some(endpoint.ipv6_gateway),
                        },
                        options: self.tunnel_options.wireguard,
                        generic_options: self.tunnel_options.generic,
                        obfuscation: obfuscator_config,
                    },
                );
                proof {
                    assert(snapshot_view(self.last_generated_relays) =~~= Some(
                        normal_snapshot(selected0, bridge0, obfuscator0),
                    ));
                    assert(r@ =~~= normal_parameters(
                        self.tunnel_options,
                        device@,
                        selected0,
                        bridge0,
                        obfuscator0,
                    ));
                }
                Ok(r)
            },
        }
    }
}

} // verus!
