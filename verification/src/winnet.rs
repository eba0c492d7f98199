//! Route descriptors in the shape the native routing manager takes:
//! addresses as a family tag with a fixed 16-byte buffer, routes as a
//! destination network with an optional node (gateway and/or device).
//!
//! The native calls that consume these descriptors are platform code
//! and stay outside the library; everything that builds or reads a
//! descriptor is here, verified.

use vstd::prelude::*;
use crate::net::{IpAddress, IpNetwork, Ipv4Address, Ipv6Address};

verus! {

/// Routing manager errors.
#[derive(Clone, Copy, PartialEq, Eq, Debug)]
pub enum Error {
    /// The supplied interface alias is invalid.
    InvalidInterfaceAlias,
    /// Failed to enable IPv6 on the network interface.
    EnableIpv6,
    /// Failed to obtain the default route.
    GetDefaultRoute,
    /// Failed to obtain a network interface by name.
    GetDeviceByName,
    /// Failed to obtain a network interface by gateway.
    GetDeviceByGateway,
    /// The routing manager returned an error while adding routes.
    GeneralAddRoutesError,
    /// Failed to obtain an IP address for a given interface.
    GetIpAddressFromLuid,
    /// Failed to read the IPv6 status on the TAP network interface.
    GetIpv6Status,
}

/// The logging context label handed to the native routing manager, as
/// nul-terminated bytes.
pub fn logging_context() -> (r: Vec<u8>)
    ensures
        r@ == seq![87u8, 105u8, 110u8, 78u8, 101u8, 116u8, 0u8],
{
    let mut context: Vec<u8> = Vec::new();
    context.push(87);
    context.push(105);
    context.push(110);
    context.push(78);
    context.push(101);
    context.push(116);
    context.push(0);
    proof {
        assert(context@ =~= seq![87u8, 105u8, 110u8, 78u8, 101u8, 116u8, 0u8]);
    }
    context
}

/// IP address family.
#[derive(Clone, Copy, PartialEq, Eq, Debug)]
pub enum WinNetAddrFamily {
    /// IPv4.
    IPV4,
    /// IPv6.
    IPV6,
}

impl Default for WinNetAddrFamily {
    fn default() -> (r: Self)
        ensures
            r == WinNetAddrFamily::IPV4,
    {
        WinNetAddrFamily::IPV4
    }
}

impl WinNetAddrFamily {
    /// Converts the address family to the native socket address family
    /// value.
    pub fn to_windows_proto_enum(&self) -> (r: u16)
        ensures
            r == match *self {
                WinNetAddrFamily::IPV4 => 2u16,
                WinNetAddrFamily::IPV6 => 23u16,
            },
    {
        match self {
            WinNetAddrFamily::IPV4 => 2,
            WinNetAddrFamily::IPV6 => 23,
        }
    }
}

/// The high byte of a 16-bit group.
pub open spec fn group_high(g: u16) -> u8 {
    (g / 256) as u8
}

/// The low byte of a 16-bit group.
pub open spec fn group_low(g: u16) -> u8 {
    (g % 256) as u8
}

/// The 16-byte buffer that represents an address: an IPv4 address in
/// the first 4 bytes with the rest zero, an IPv6 address whole, in
/// network byte order.
pub open spec fn win_ip_bytes(addr: IpAddress) -> Seq<u8> {
    match addr {
        IpAddress::V4(a) => seq![
            a.o0,
            a.o1,
            a.o2,
            a.o3,
            0u8,
            0u8,
            0u8,
            0u8,
            0u8,
            0u8,
            0u8,
            0u8,
            0u8,
            0u8,
            0u8,
            0u8,
        ],
        IpAddress::V6(a) => seq![
            group_high(a.g0),
            group_low(a.g0),
            group_high(a.g1),
            group_low(a.g1),
            group_high(a.g2),
            group_low(a.g2),
            group_high(a.g3),
            group_low(a.g3),
            group_high(a.g4),
            group_low(a.g4),
            group_high(a.g5),
            group_low(a.g5),
            group_high(a.g6),
            group_low(a.g6),
            group_high(a.g7),
            group_low(a.g7),
        ],
    }
}

/// The family tag of an address.
pub open spec fn win_ip_family(addr: IpAddress) -> WinNetAddrFamily {
    match addr {
        IpAddress::V4(_) => WinNetAddrFamily::IPV4,
        IpAddress::V6(_) => WinNetAddrFamily::IPV6,
    }
}

/// Representation of an IP address in the routing manager's shape.
#[derive(Clone, Copy, PartialEq, Eq, Debug)]
pub struct WinNetIp {
    /// Address family.
    pub addr_family: WinNetAddrFamily,
    /// Bytes of the address. IPv4 addresses use only the first 4 bytes.
    pub ip_bytes: [u8; 16],
}

impl Default for WinNetIp {
    fn default() -> (r: Self)
        ensures
            r.addr_family == WinNetAddrFamily::IPV4,
            r.ip_bytes@ =~= Seq::<u8>::new(16, |i: int| 0u8),
    {
        WinNetIp { addr_family: WinNetAddrFamily::IPV4, ip_bytes: [0u8; 16] }
    }
}

/// The address recovered from a family tag and an address buffer.
pub open spec fn recovered_ip(family: WinNetAddrFamily, bytes: Seq<u8>) -> IpAddress {
    match family {
        WinNetAddrFamily::IPV4 => IpAddress::V4(
            Ipv4Address { o0: bytes[0], o1: bytes[1], o2: bytes[2], o3: bytes[3] },
        ),
        WinNetAddrFamily::IPV6 => IpAddress::V6(
            Ipv6Address {
                g0: (bytes[0] * 256 + bytes[1]) as u16,
                g1: (bytes[2] * 256 + bytes[3]) as u16,
                g2: (bytes[4] * 256 + bytes[5]) as u16,
                g3: (bytes[6] * 256 + bytes[7]) as u16,
                g4: (bytes[8] * 256 + bytes[9]) as u16,
                g5: (bytes[10] * 256 + bytes[11]) as u16,
                g6: (bytes[12] * 256 + bytes[13]) as u16,
                g7: (bytes[14] * 256 + bytes[15]) as u16,
            },
        ),
    }
}

impl WinNetIp {
    /// Packs an address into the routing manager's shape.
    pub fn from_ip_address(addr: IpAddress) -> (r: WinNetIp)
        ensures
            r.addr_family == win_ip_family(addr),
            r.ip_bytes@ == win_ip_bytes(addr),
    {
        match addr {
            IpAddress::V4(a) => {
                let r = WinNetIp {
                    addr_family: WinNetAddrFamily::IPV4,
                    ip_bytes: [a.o0, a.o1, a.o2, a.o3, 0, 0, 0, 0, 0, 0, 0, 0, 0, 0, 0, 0],
                };
                proof {
                    assert(r.ip_bytes@ =~= win_ip_bytes(addr));
                }
                r
            },
            IpAddress::V6(a) => {
                let r = WinNetIp {
                    addr_family: WinNetAddrFamily::IPV6,
                    ip_bytes: [
                        (a.g0 / 256) as u8,
                        (a.g0 % 256) as u8,
                        (a.g1 / 256) as u8,
                        (a.g1 % 256) as u8,
                        (a.g2 / 256) as u8,
                        (a.g2 % 256) as u8,
                        (a.g3 / 256) as u8,
                        (a.g3 % 256) as u8,
                        (a.g4 / 256) as u8,
                        (a.g4 % 256) as u8,
                        (a.g5 / 256) as u8,
                        (a.g5 % 256) as u8,
                        (a.g6 / 256) as u8,
                        (a.g6 % 256) as u8,
                        (a.g7 / 256) as u8,
                        (a.g7 % 256) as u8,
                    ],
                };
                proof {
                    assert(r.ip_bytes@ =~= win_ip_bytes(addr));
                }
                r
            },
        }
    }

    /// Unpacks the address as IPv4; fails on a mismatching family.
    pub fn to_ipv4(&self) -> (r: Result<Ipv4Address, WrongIpFamilyError>)
        ensures
            self.addr_family matches WinNetAddrFamily::IPV4 ==> r matches Ok(a) && IpAddress::V4(a)
                == recovered_ip(self.addr_family, self.ip_bytes@),
            self.addr_family matches WinNetAddrFamily::IPV6 ==> r is Err,
    {
        match self.addr_family {
            WinNetAddrFamily::IPV4 => Ok(
                Ipv4Address {
                    o0: self.ip_bytes[0],
                    o1: self.ip_bytes[1],
                    o2: self.ip_bytes[2],
                    o3: self.ip_bytes[3],
                },
            ),
            WinNetAddrFamily::IPV6 => Err(WrongIpFamilyError),
        }
    }

    /// Unpacks the address as IPv6; fails on a mismatching family.
    pub fn to_ipv6(&self) -> (r: Result<Ipv6Address, WrongIpFamilyError>)
        ensures
            self.addr_family matches WinNetAddrFamily::IPV6 ==> r matches Ok(a) && IpAddress::V6(a)
                == recovered_ip(self.addr_family, self.ip_bytes@),
            self.addr_family matches WinNetAddrFamily::IPV4 ==> r is Err,
    {
        match self.addr_family {
            WinNetAddrFamily::IPV4 => Err(WrongIpFamilyError),
            WinNetAddrFamily::IPV6 => {
                let b = &self.ip_bytes;
                Ok(
                    Ipv6Address {
                        g0: (b[0] as u16) * 256 + (b[1] as u16),
                        g1: (b[2] as u16) * 256 + (b[3] as u16),
                        g2: (b[4] as u16) * 256 + (b[5] as u16),
                        g3: (b[6] as u16) * 256 + (b[7] as u16),
                        g4: (b[8] as u16) * 256 + (b[9] as u16),
                        g5: (b[10] as u16) * 256 + (b[11] as u16),
                        g6: (b[12] as u16) * 256 + (b[13] as u16),
                        g7: (b[14] as u16) * 256 + (b[15] as u16),
                    },
                )
            },
        }
    }

    /// Unpacks the address as whichever kind its family tag names.
    pub fn to_ip_address(&self) -> (r: IpAddress)
        ensures
            r == recovered_ip(self.addr_family, self.ip_bytes@),
    {
        match self.addr_family {
            WinNetAddrFamily::IPV4 => {
                match self.to_ipv4() {
                    Ok(a) => IpAddress::V4(a),
                    Err(_) => vstd::pervasive::unreached(),
                }
            },
            WinNetAddrFamily::IPV6 => {
                match self.to_ipv6() {
                    Ok(a) => IpAddress::V6(a),
                    Err(_) => vstd::pervasive::unreached(),
                }
            },
        }
    }
}

/// Law: packing an address into the routing manager's shape loses
/// nothing; unpacking recovers the original address exactly.
pub proof fn lemma_win_ip_round_trip(addr: IpAddress)
    ensures
        recovered_ip(win_ip_family(addr), win_ip_bytes(addr)) == addr,
{
    match addr {
        IpAddress::V4(a) => {
            assert(recovered_ip(win_ip_family(addr), win_ip_bytes(addr)) =~= addr);
        },
        IpAddress::V6(a) => {
            assert(recovered_ip(win_ip_family(addr), win_ip_bytes(addr)) =~= addr);
        },
    }
}

/// A default route: the interface and the gateway address.
#[derive(Clone, Copy, PartialEq, Eq, Debug)]
pub struct WinNetDefaultRoute {
    pub interface_luid: u64,
    pub gateway: WinNetIp,
}

impl Default for WinNetDefaultRoute {
    fn default() -> (r: Self)
        ensures
            r.interface_luid == 0,
            r.gateway.addr_family == WinNetAddrFamily::IPV4,
            r.gateway.ip_bytes@ =~= Seq::<u8>::new(16, |i: int| 0u8),
    {
        WinNetDefaultRoute { interface_luid: 0, gateway: WinNetIp::default() }
    }
}

/// Failure to convert a [`WinNetIp`] to an address of one kind because
/// the families do not match.
#[derive(Clone, Copy, PartialEq, Eq, Debug)]
pub struct WrongIpFamilyError;

/// An IP network in the routing manager's shape.
#[derive(Clone, Copy, PartialEq, Eq, Debug)]
pub struct WinNetIpNetwork {
    pub prefix: u8,
    pub ip: WinNetIp,
}

impl WinNetIpNetwork {
    /// Packs a network into the routing manager's shape.
    pub fn from_network(network: IpNetwork) -> (r: WinNetIpNetwork)
        ensures
            r.prefix == network.prefix,
            r.ip.addr_family == win_ip_family(network.ip),
            r.ip.ip_bytes@ == win_ip_bytes(network.ip),
    {
        WinNetIpNetwork { prefix: network.prefix, ip: WinNetIp::from_ip_address(network.ip) }
    }
}

/// The UTF-16 units of one character: a character below 0x10000 is one
/// unit holding its code, any other is a surrogate pair.
pub open spec fn utf16_units_of_char(c: char) -> Seq<u16> {
    if (c as nat) < 0x10000 {
        seq![(c as nat) as u16]
    } else {
        seq![
            (0xD800 + ((c as nat - 0x10000) / 0x400)) as u16,
            (0xDC00 + ((c as nat - 0x10000) % 0x400)) as u16,
        ]
    }
}

/// The UTF-16 encoding of a string, character by character.
pub open spec fn utf16_units(s: Seq<char>) -> Seq<u16>
    decreases s.len(),
{
    if s.len() == 0 {
        Seq::empty()
    } else {
        utf16_units_of_char(s[0]) + utf16_units(s.drop_first())
    }
}

/// Relies on widestring::U16CString::from_str: for a string without a
/// nul character it encodes the string as UTF-16 and appends the nul
/// terminator. A string holding a nul is excluded: the call would
/// reject it, or take a trailing nul for the terminator.
#[verifier::external_body]
fn wide_c_string(name: &str) -> (r: Option<Vec<u16>>)
    requires
        !name@.contains('\0'),
    ensures
        r is Some,
        r matches Some(units) ==> units@ == utf16_units(name@) + seq![0u16],
{
    match widestring::U16CString::from_str(name) {
        Ok(wide) => Some(wide.into_vec_with_nul()),
        Err(_) => None,
    }
}

/// A route node: a gateway address and/or a device name, held as
/// nul-terminated UTF-16 units.
#[derive(Clone, PartialEq, Debug)]
pub struct WinNetNode {
    pub gateway: Option<WinNetIp>,
    pub device_name: Option<Vec<u16>>,
}

impl WinNetNode {
    /// A node with both a device name and a gateway. The name must hold
    /// no interior nul character.
    pub fn new(name: &str, ip: WinNetIp) -> (r: Self)
        requires
            !name@.contains('\0'),
        ensures
            r.gateway == Some(ip),
            r.device_name matches Some(units) && units@ == utf16_units(name@) + seq![0u16],
    {
        match wide_c_string(name) {
            Some(device_name) => WinNetNode { gateway: Some(ip), device_name: Some(device_name) },
            None => vstd::pervasive::unreached(),
        }
    }

    /// A node with a gateway only.
    pub fn from_gateway(ip: WinNetIp) -> (r: Self)
        ensures
            r.gateway == Some(ip),
            r.device_name is None,
    {
        WinNetNode { gateway: Some(ip), device_name: None }
    }

    /// A node with a device name only. The name must hold no interior
    /// nul character.
    pub fn from_device(name: &str) -> (r: Self)
        requires
            !name@.contains('\0'),
        ensures
            r.gateway is None,
            r.device_name matches Some(units) && units@ == utf16_units(name@) + seq![0u16],
    {
        match wide_c_string(name) {
            Some(device_name) => WinNetNode { gateway: None, device_name: Some(device_name) },
            None => vstd::pervasive::unreached(),
        }
    }
}

/// A network route in the routing manager's shape.
#[derive(Clone, PartialEq, Debug)]
pub struct WinNetRoute {
    pub gateway: WinNetIpNetwork,
    pub node: Option<WinNetNode>,
}

impl WinNetRoute {
    /// A route to a destination through the default node.
    pub fn through_default_node(destination: WinNetIpNetwork) -> (r: Self)
        ensures
            r.gateway == destination,
            r.node is None,
    {
        WinNetRoute { gateway: destination, node: None }
    }

    /// A route to a destination through the given node.
    pub fn new(node: WinNetNode, destination: WinNetIpNetwork) -> (r: Self)
        ensures
            r.gateway == destination,
            r.node == Some(node),
    {
        WinNetRoute { gateway: destination, node: Some(node) }
    }
}

/// The type of a default-route change, as reported to route callbacks.
#[derive(Clone, Copy, PartialEq, Eq, Debug)]
pub enum WinNetDefaultRouteChangeEventType {
    DefaultRouteChanged,
    DefaultRouteUpdatedDetails,
    DefaultRouteRemoved,
}

/// Failure to set up a default-route change callback.
#[derive(Clone, Copy, PartialEq, Eq, Debug)]
pub struct DefaultRouteCallbackError;

/// What the native routing manager reports for a query.
#[derive(Clone, Copy, PartialEq, Eq, Debug)]
pub enum WinNetStatus {
    Success,
    NotFound,
    Failure,
}

/// What the native routing manager reports for adding routes.
#[derive(Clone, Copy, PartialEq, Eq, Debug)]
pub enum WinNetAddRouteStatus {
    Success,
    GeneralError,
    NoDefaultRoute,
    NameNotFound,
    GatewayNotFound,
}

/// Maps the routing manager's report on adding routes to a result.
pub fn add_routes_result(status: WinNetAddRouteStatus) -> (r: Result<(), Error>)
    ensures
        r == match status {
            WinNetAddRouteStatus::Success => Ok::<(), Error>(()),
            WinNetAddRouteStatus::GeneralError => Err(Error::GeneralAddRoutesError),
            WinNetAddRouteStatus::NoDefaultRoute => Err(Error::GetDefaultRoute),
            WinNetAddRouteStatus::NameNotFound => Err(Error::GetDeviceByName),
            WinNetAddRouteStatus::GatewayNotFound => Err(Error::GetDeviceByGateway),
        },
{
    match status {
        WinNetAddRouteStatus::Success => Ok(()),
        WinNetAddRouteStatus::GeneralError => Err(Error::GeneralAddRoutesError),
        WinNetAddRouteStatus::NoDefaultRoute => Err(Error::GetDefaultRoute),
        WinNetAddRouteStatus::NameNotFound => Err(Error::GetDeviceByName),
        WinNetAddRouteStatus::GatewayNotFound => Err(Error::GetDeviceByGateway),
    }
}

/// Maps the routing manager's report on a default-route query, together
/// with the route it filled in, to a result: a missing default route is
/// not a failure.
pub fn best_default_route_result(status: WinNetStatus, route: WinNetDefaultRoute) -> (r: Result<
    Option<WinNetDefaultRoute>,
    Error,
>)
    ensures
        r == match status {
            WinNetStatus::Success => Ok::<Option<WinNetDefaultRoute>, Error>(Some(route)),
            WinNetStatus::NotFound => Ok::<Option<WinNetDefaultRoute>, Error>(None),
            WinNetStatus::Failure => Err::<Option<WinNetDefaultRoute>, Error>(
                Error::GetDefaultRoute,
            ),
        },
{
    match status {
        WinNetStatus::Success => Ok(Some(route)),
        WinNetStatus::NotFound => Ok(None),
        WinNetStatus::Failure => Err(Error::GetDefaultRoute),
    }
}

} // verus!
