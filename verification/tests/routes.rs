//! Tests of the route descriptors in the native routing manager's
//! shape.

use tunnel_negotiation::net::{IpAddress, IpNetwork, Ipv4Address, Ipv6Address};
use tunnel_negotiation::winnet::{
    add_routes_result, best_default_route_result, logging_context, Error, WinNetAddRouteStatus,
    WinNetAddrFamily, WinNetDefaultRoute, WinNetIp, WinNetIpNetwork, WinNetNode, WinNetRoute,
    WinNetStatus,
};

#[test]
fn address_family_maps_to_native_values() {
    assert_eq!(WinNetAddrFamily::IPV4.to_windows_proto_enum(), 2);
    assert_eq!(WinNetAddrFamily::IPV6.to_windows_proto_enum(), 23);
    assert_eq!(WinNetAddrFamily::default(), WinNetAddrFamily::IPV4);
}

#[test]
fn ipv4_packs_into_first_four_bytes() {
    let addr = IpAddress::V4(Ipv4Address { o0: 10, o1: 64, o2: 0, o3: 1 });
    let win_ip = WinNetIp::from_ip_address(addr);
    assert_eq!(win_ip.addr_family, WinNetAddrFamily::IPV4);
    assert_eq!(&win_ip.ip_bytes[..4], &[10, 64, 0, 1]);
    assert_eq!(&win_ip.ip_bytes[4..], &[0u8; 12]);
    assert_eq!(win_ip.to_ipv4().unwrap(), Ipv4Address { o0: 10, o1: 64, o2: 0, o3: 1 });
    assert!(win_ip.to_ipv6().is_err());
    assert_eq!(win_ip.to_ip_address(), addr);
}

#[test]
fn ipv6_packs_into_all_bytes_in_network_order() {
    let original = Ipv6Address {
        g0: 0x2001,
        g1: 0x0db8,
        g2: 0,
        g3: 0,
        g4: 0x1234,
        g5: 0,
        g6: 0,
        g7: 0x00ff,
    };
    let addr = IpAddress::V6(original);
    let win_ip = WinNetIp::from_ip_address(addr);
    assert_eq!(win_ip.addr_family, WinNetAddrFamily::IPV6);
    assert_eq!(
        win_ip.ip_bytes,
        [0x20, 0x01, 0x0d, 0xb8, 0, 0, 0, 0, 0x12, 0x34, 0, 0, 0, 0, 0x00, 0xff]
    );
    assert_eq!(win_ip.to_ipv6().unwrap(), original);
    assert!(win_ip.to_ipv4().is_err());
    assert_eq!(win_ip.to_ip_address(), addr);
}

#[test]
fn default_win_ip_is_zero_ipv4() {
    let win_ip = WinNetIp::default();
    assert_eq!(win_ip.addr_family, WinNetAddrFamily::IPV4);
    assert_eq!(win_ip.ip_bytes, [0u8; 16]);
    let route = WinNetDefaultRoute::default();
    assert_eq!(route.interface_luid, 0);
    assert_eq!(route.gateway.ip_bytes, [0u8; 16]);
}

#[test]
fn network_keeps_prefix_and_address() {
    let network = IpNetwork {
        ip: IpAddress::V4(Ipv4Address { o0: 192, o1: 168, o2: 0, o3: 0 }),
        prefix: 16,
    };
    let win_network = WinNetIpNetwork::from_network(network);
    assert_eq!(win_network.prefix, 16);
    assert_eq!(&win_network.ip.ip_bytes[..4], &[192, 168, 0, 0]);
}

#[test]
fn nodes_carry_gateway_and_wide_device_name() {
    let ip = WinNetIp::from_ip_address(IpAddress::V4(Ipv4Address {
        o0: 10,
        o1: 0,
        o2: 0,
        o3: 1,
    }));
    let node = WinNetNode::new("eth0", ip);
    assert_eq!(node.gateway, Some(ip));
    // UTF-16 units of "eth0" with the nul terminator
    assert_eq!(node.device_name, Some(vec![101, 116, 104, 48, 0]));

    let gateway_only = WinNetNode::from_gateway(ip);
    assert_eq!(gateway_only.gateway, Some(ip));
    assert_eq!(gateway_only.device_name, None);

    let device_only = WinNetNode::from_device("wg-mullvad");
    assert_eq!(device_only.gateway, None);
    let name = device_only.device_name.unwrap();
    assert_eq!(name.len(), "wg-mullvad".len() + 1);
    assert_eq!(name.last(), Some(&0));
}

#[test]
fn device_names_outside_the_basic_plane_become_surrogate_pairs() {
    let node = WinNetNode::from_device("\u{10348}");
    assert_eq!(node.device_name, Some(vec![0xd800, 0xdf48, 0]));
}

#[test]
fn routes_carry_destination_and_node() {
    let destination = WinNetIpNetwork::from_network(IpNetwork {
        ip: IpAddress::V4(Ipv4Address { o0: 0, o1: 0, o2: 0, o3: 0 }),
        prefix: 0,
    });
    let through_default = WinNetRoute::through_default_node(destination);
    assert_eq!(through_default.gateway, destination);
    assert!(through_default.node.is_none());

    let node = WinNetNode::from_gateway(WinNetIp::default());
    let route = WinNetRoute::new(node.clone(), destination);
    assert_eq!(route.gateway, destination);
    assert_eq!(route.node, Some(node));
}

#[test]
fn add_routes_status_maps_to_errors() {
    assert_eq!(add_routes_result(WinNetAddRouteStatus::Success), Ok(()));
    assert_eq!(
        add_routes_result(WinNetAddRouteStatus::GeneralError),
        Err(Error::GeneralAddRoutesError)
    );
    assert_eq!(
        add_routes_result(WinNetAddRouteStatus::NoDefaultRoute),
        Err(Error::GetDefaultRoute)
    );
    assert_eq!(
        add_routes_result(WinNetAddRouteStatus::NameNotFound),
        Err(Error::GetDeviceByName)
    );
    assert_eq!(
        add_routes_result(WinNetAddRouteStatus::GatewayNotFound),
        Err(Error::GetDeviceByGateway)
    );
}

#[test]
fn default_route_query_distinguishes_absent_from_failed() {
    let route = WinNetDefaultRoute::default();
    assert_eq!(
        best_default_route_result(WinNetStatus::Success, route),
        Ok(Some(WinNetDefaultRoute::default()))
    );
    assert_eq!(best_default_route_result(WinNetStatus::NotFound, route), Ok(None));
    assert_eq!(
        best_default_route_result(WinNetStatus::Failure, route),
        Err(Error::GetDefaultRoute)
    );
}

#[test]
fn logging_context_is_nul_terminated_label() {
    assert_eq!(logging_context(), b"WinNet\0".to_vec());
}
