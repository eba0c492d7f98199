//! Tests of address text forms and of the synthetic relay record's
//! address representation.

use tunnel_negotiation::net::{IpAddress, Ipv4Address, Ipv6Address};
use tunnel_negotiation::relay::{custom_relay, wg_endpoint_data, RelayEndpointData};
use tunnel_negotiation::params::PublicKey;

fn v6(g: [u16; 8]) -> Ipv6Address {
    Ipv6Address {
        g0: g[0],
        g1: g[1],
        g2: g[2],
        g3: g[3],
        g4: g[4],
        g5: g[5],
        g6: g[6],
        g7: g[7],
    }
}

#[test]
fn ipv4_text_is_dotted_decimal() {
    assert_eq!(
        Ipv4Address { o0: 185, o1: 65, o2: 132, o3: 1 }.to_text(),
        "185.65.132.1".to_string()
    );
    assert_eq!(Ipv4Address { o0: 0, o1: 0, o2: 0, o3: 0 }.to_text(), "0.0.0.0".to_string());
    assert_eq!(
        Ipv4Address { o0: 255, o1: 255, o2: 255, o3: 255 }.to_text(),
        "255.255.255.255".to_string()
    );
    assert_eq!(Ipv4Address { o0: 10, o1: 64, o2: 0, o3: 7 }.to_text(), "10.64.0.7".to_string());
}

#[test]
fn ipv6_text_is_eight_hex_groups() {
    assert_eq!(
        v6([0xfe80, 0, 0, 0, 0, 0, 0, 1]).to_text(),
        "fe80:0:0:0:0:0:0:1".to_string()
    );
    assert_eq!(v6([0, 0, 0, 0, 0, 0, 0, 0]).to_text(), "0:0:0:0:0:0:0:0".to_string());
    assert_eq!(
        v6([0x2001, 0xdb8, 0xabcd, 0x12, 0x34, 0x5, 0xffff, 0xa0b]).to_text(),
        "2001:db8:abcd:12:34:5:ffff:a0b".to_string()
    );
}

#[test]
fn decimal_text_has_no_leading_zeros() {
    assert_eq!(Ipv4Address { o0: 9, o1: 10, o2: 99, o3: 100 }.to_text(), "9.10.99.100".to_string());
}

#[test]
fn hex_text_widens_at_each_power_of_sixteen() {
    assert_eq!(
        v6([0xf, 0x10, 0xff, 0x100, 0xfff, 0x1000, 0x1, 0x0]).to_text(),
        "f:10:ff:100:fff:1000:1:0".to_string()
    );
}

#[test]
fn ip_text_dispatches_on_kind() {
    assert_eq!(
        IpAddress::V4(Ipv4Address { o0: 192, o1: 0, o2: 2, o3: 10 }).to_text(),
        "192.0.2.10".to_string()
    );
    assert_eq!(
        IpAddress::V6(v6([0x2001, 0xdb8, 0, 0, 0, 0, 0, 1])).to_text(),
        "2001:db8:0:0:0:0:0:1".to_string()
    );
}

#[test]
fn custom_relay_from_ipv4_uses_primary_field() {
    let addr = IpAddress::V4(Ipv4Address { o0: 192, o1: 0, o2: 2, o3: 10 });
    let relay = custom_relay("label".to_string(), addr, RelayEndpointData::Openvpn);
    assert_eq!(relay.ipv4_addr_in, Ipv4Address { o0: 192, o1: 0, o2: 2, o3: 10 });
    assert_eq!(relay.ipv6_addr_in, None);
    assert_eq!(relay.address_in(), addr);
}

#[test]
fn custom_relay_from_ipv6_stores_sentinel_and_recovers_address() {
    let original = v6([0x2001, 0xdb8, 0, 0, 0, 0, 0, 0x42]);
    let addr = IpAddress::V6(original);
    let relay = custom_relay(
        "".to_string(),
        addr,
        wg_endpoint_data(PublicKey { key: [5u8; 32] }),
    );
    // the primary field holds the unspecified IPv4 sentinel
    assert_eq!(relay.ipv4_addr_in, Ipv4Address { o0: 0, o1: 0, o2: 0, o3: 0 });
    // the true address is carried in the secondary field
    assert_eq!(relay.ipv6_addr_in, Some(original));
    // recovering an address yields the original IPv6 value exactly
    assert_eq!(relay.address_in(), IpAddress::V6(original));
}

#[test]
fn custom_relay_is_marked_unselectable() {
    let addr = IpAddress::V4(Ipv4Address { o0: 192, o1: 0, o2: 2, o3: 10 });
    let relay = custom_relay("x".to_string(), addr, RelayEndpointData::Openvpn);
    assert!(!relay.include_in_country);
    assert!(relay.active);
    assert!(relay.owned);
    assert_eq!(relay.weight, 0);
    assert_eq!(relay.provider, "Custom".to_string());
    assert_eq!(relay.location, None);
}
