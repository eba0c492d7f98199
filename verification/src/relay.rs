//! Relay descriptors, geographical locations, and the synthetic relay
//! records built for user-supplied custom endpoints.

use vstd::prelude::*;
use crate::net::{ip_text, IpAddress, Ipv4Address, Ipv6Address};
use crate::params::PublicKey;

verus! {

/// A relay's geographical location. Coordinates are held in
/// microdegrees so that they are plain integers.
#[derive(PartialEq, Debug)]
pub struct Location {
    pub country: String,
    pub city: String,
    pub latitude: i64,
    pub longitude: i64,
}

impl Clone for Location {
    fn clone(&self) -> (r: Self)
        ensures
            r@ == self@,
    {
        let r = Location {
            country: self.country.clone(),
            city: self.city.clone(),
            latitude: self.latitude,
            longitude: self.longitude,
        };
        proof {
            assert(r@ =~= self@);
        }
        r
    }
}

/// Protocol-specific data of a relay.
#[derive(Clone, Copy, PartialEq, Eq, Debug)]
pub enum RelayEndpointData {
    Openvpn,
    Wireguard(WireguardRelayEndpointData),
}

/// WireGuard-specific data of a relay.
#[derive(Clone, Copy, PartialEq, Eq, Debug)]
pub struct WireguardRelayEndpointData {
    pub public_key: PublicKey,
}

/// A relay record. The primary inbound address field holds only an
/// IPv4 form; an IPv6 address can be carried in the secondary field.
#[derive(Clone, PartialEq, Debug)]
pub struct Relay {
    pub hostname: String,
    pub ipv4_addr_in: Ipv4Address,
    pub ipv6_addr_in: Option<Ipv6Address>,
    pub include_in_country: bool,
    pub active: bool,
    pub owned: bool,
    pub provider: String,
    pub weight: u64,
    pub endpoint_data: RelayEndpointData,
    pub location: Option<Location>,
}

/// The inbound address recorded in a relay descriptor: the secondary
/// IPv6 field where it is set, the primary IPv4 field otherwise.
pub open spec fn recorded_address(r: Relay) -> IpAddress {
    match r.ipv6_addr_in {
        Some(v6) => IpAddress::V6(v6),
        None => IpAddress::V4(r.ipv4_addr_in),
    }
}

impl Relay {
    /// Recovers the inbound address from the descriptor.
    pub fn address_in(&self) -> (r: IpAddress)
        ensures
            r == recorded_address(*self),
    {
        match self.ipv6_addr_in {
            Some(v6) => IpAddress::V6(v6),
            None => IpAddress::V4(self.ipv4_addr_in),
        }
    }
}

/// A synthetic relay record for a user-supplied endpoint: not listed in
/// any country, zero selection weight, owned, provider label "Custom",
/// so that the normal relay-selection path can never pick it.
///
/// The record's primary address field holds only a 4-byte form. For an
/// IPv6 address the primary field is set to the unspecified IPv4
/// sentinel and the real address is carried in the secondary field; no
/// address information is lost, as the last clause states.
pub fn custom_relay(host: String, addr: IpAddress, endpoint_data: RelayEndpointData) -> (r: Relay)
    ensures
        r.hostname == host,
        r.endpoint_data == endpoint_data,
        r.location is None,
        !r.include_in_country,
        r.active,
        r.owned,
        r.weight == 0,
        r.provider@ == "Custom"@,
        addr matches IpAddress::V4(v4) ==> r.ipv4_addr_in == v4 && r.ipv6_addr_in is None,
        addr matches IpAddress::V6(v6) ==> r.ipv4_addr_in == (Ipv4Address {
            o0: 0,
            o1: 0,
            o2: 0,
            o3: 0,
        }) && r.ipv6_addr_in == Some(v6),
        recorded_address(r) == addr,
        r@ == custom_relay_view(host@, addr, endpoint_data),
{
    let (ipv4_addr_in, ipv6_addr_in): (Ipv4Address, Option<Ipv6Address>) = match addr {
        IpAddress::V4(v4) => (v4, None),
        IpAddress::V6(v6) => (Ipv4Address::unspecified(), Some(v6)),
    };
    let r = Relay {
        hostname: host,
        ipv4_addr_in,
        ipv6_addr_in,
        include_in_country: false,
        active: true,
        owned: true,
        provider: String::from_str("Custom"),
        weight: 0,
        endpoint_data,
        location: None,
    };
    proof {
        assert(r@ =~= custom_relay_view(r.hostname@, addr, endpoint_data));
    }
    r
}

/// Wraps a WireGuard public key as relay endpoint data.
pub fn wg_endpoint_data(public_key: PublicKey) -> (r: RelayEndpointData)
    ensures
        r == RelayEndpointData::Wireguard(WireguardRelayEndpointData { public_key }),
{
    RelayEndpointData::Wireguard(WireguardRelayEndpointData { public_key })
}

/// The hostname recorded for a custom endpoint: the user-supplied label
/// where one was given, the literal address text otherwise.
pub open spec fn custom_hostname(host: Seq<char>, addr: IpAddress) -> Seq<char> {
    if host.len() > 0 {
        host
    } else {
        ip_text(addr)
    }
}

/// Picks the hostname for a custom endpoint: a non-empty user-supplied
/// label, or else the literal address text.
pub fn custom_hostname_or_address(host: String, addr: &IpAddress) -> (r: String)
    ensures
        r@ == custom_hostname(host@, *addr),
{
    if host.as_str().unicode_len() > 0 {
        host
    } else {
        addr.to_text()
    }
}

#[verifier::ext_equal]
pub ghost struct LocationView {
    pub country: Seq<char>,
    pub city: Seq<char>,
    pub latitude: i64,
    pub longitude: i64,
}

impl View for Location {
    type V = LocationView;

    open spec fn view(&self) -> LocationView {
        LocationView {
            country: self.country@,
            city: self.city@,
            latitude: self.latitude,
            longitude: self.longitude,
        }
    }
}

#[verifier::ext_equal]
pub ghost struct RelayView {
    pub hostname: Seq<char>,
    pub ipv4_addr_in: Ipv4Address,
    pub ipv6_addr_in: Option<Ipv6Address>,
    pub include_in_country: bool,
    pub active: bool,
    pub owned: bool,
    pub provider: Seq<char>,
    pub weight: u64,
    pub endpoint_data: RelayEndpointData,
    pub location: Option<LocationView>,
}

impl View for Relay {
    type V = RelayView;

    open spec fn view(&self) -> RelayView {
        RelayView {
            hostname: self.hostname@,
            ipv4_addr_in: self.ipv4_addr_in,
            ipv6_addr_in: self.ipv6_addr_in,
            include_in_country: self.include_in_country,
            active: self.active,
            owned: self.owned,
            provider: self.provider@,
            weight: self.weight,
            endpoint_data: self.endpoint_data,
            location: match self.location {
                Some(l) => Some(l@),
                None => None,
            },
        }
    }
}

/// The view of an optional relay.
pub open spec fn relay_opt_view(r: Option<Relay>) -> Option<RelayView> {
    match r {
        Some(relay) => Some(relay@),
        None => None,
    }
}

/// The view of the synthetic relay record that `custom_relay` builds.
pub open spec fn custom_relay_view(
    hostname: Seq<char>,
    addr: IpAddress,
    endpoint_data: RelayEndpointData,
) -> RelayView {
    RelayView {
        hostname,
        ipv4_addr_in: match addr {
            IpAddress::V4(v4) => v4,
            IpAddress::V6(_) => Ipv4Address { o0: 0, o1: 0, o2: 0, o3: 0 },
        },
        ipv6_addr_in: match addr {
            IpAddress::V4(_) => None,
            IpAddress::V6(v6) => Some(v6),
        },
        include_in_country: false,
        active: true,
        owned: true,
        provider: "Custom"@,
        weight: 0,
        endpoint_data,
        location: None,
    }
}

/// A location with hostnames, as reported to status queries: the exit
/// relay's location and hostname, and at most one of a bridge hostname
/// or an entry/obfuscator hostname pair.
#[derive(Clone, PartialEq, Debug)]
pub struct GeoIpLocation {
    pub ipv4: Option<Ipv4Address>,
    pub ipv6: Option<Ipv6Address>,
    pub country: String,
    pub city: Option<String>,
    pub latitude: i64,
    pub longitude: i64,
    pub mullvad_exit_ip: bool,
    pub hostname: Option<String>,
    pub bridge_hostname: Option<String>,
    pub entry_hostname: Option<String>,
    pub obfuscator_hostname: Option<String>,
}

/// The view of an optional string.
pub open spec fn string_opt_view(s: Option<String>) -> Option<Seq<char>> {
    match s {
        Some(text) => Some(text@),
        None => None,
    }
}

/// The mathematical view of a status location.
#[verifier::ext_equal]
pub ghost struct GeoIpLocationView {
    pub ipv4: Option<Ipv4Address>,
    pub ipv6: Option<Ipv6Address>,
    pub country: Seq<char>,
    pub city: Option<Seq<char>>,
    pub latitude: i64,
    pub longitude: i64,
    pub mullvad_exit_ip: bool,
    pub hostname: Option<Seq<char>>,
    pub bridge_hostname: Option<Seq<char>>,
    pub entry_hostname: Option<Seq<char>>,
    pub obfuscator_hostname: Option<Seq<char>>,
}

impl View for GeoIpLocation {
    type V = GeoIpLocationView;

    open spec fn view(&self) -> GeoIpLocationView {
        GeoIpLocationView {
            ipv4: self.ipv4,
            ipv6: self.ipv6,
            country: self.country@,
            city: string_opt_view(self.city),
            latitude: self.latitude,
            longitude: self.longitude,
            mullvad_exit_ip: self.mullvad_exit_ip,
            hostname: string_opt_view(self.hostname),
            bridge_hostname: string_opt_view(self.bridge_hostname),
            entry_hostname: string_opt_view(self.entry_hostname),
            obfuscator_hostname: string_opt_view(self.obfuscator_hostname),
        }
    }
}

/// The view of an optional status location.
pub open spec fn geo_opt_view(g: Option<GeoIpLocation>) -> Option<GeoIpLocationView> {
    match g {
        Some(loc) => Some(loc@),
        None => None,
    }
}

} // verus!
