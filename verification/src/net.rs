//! Plain representations of IP addresses and socket addresses, together
//! with their canonical text forms.
//!
//! Addresses are held as plain integers so that every rule that reads
//! them can be stated and proved directly.

use vstd::prelude::*;

verus! {

/// An IPv4 address as four octets.
#[derive(Clone, Copy, PartialEq, Eq, Debug)]
pub struct Ipv4Address {
    pub o0: u8,
    pub o1: u8,
    pub o2: u8,
    pub o3: u8,
}

/// An IPv6 address as eight 16-bit groups.
#[derive(Clone, Copy, PartialEq, Eq, Debug)]
pub struct Ipv6Address {
    pub g0: u16,
    pub g1: u16,
    pub g2: u16,
    pub g3: u16,
    pub g4: u16,
    pub g5: u16,
    pub g6: u16,
    pub g7: u16,
}

/// Either kind of IP address.
#[derive(Clone, Copy, PartialEq, Eq, Debug)]
pub enum IpAddress {
    V4(Ipv4Address),
    V6(Ipv6Address),
}

/// An IP address paired with a port.
#[derive(Clone, Copy, PartialEq, Eq, Debug)]
pub struct SocketAddress {
    pub ip: IpAddress,
    pub port: u16,
}

/// An IP network: an address and a prefix length.
#[derive(Clone, Copy, PartialEq, Eq, Debug)]
pub struct IpNetwork {
    pub ip: IpAddress,
    pub prefix: u8,
}

impl Ipv4Address {
    /// The all-zero address, used as a sentinel where no IPv4 address
    /// is available.
    pub fn unspecified() -> (r: Ipv4Address)
        ensures
            r == (Ipv4Address { o0: 0, o1: 0, o2: 0, o3: 0 }),
    {
        Ipv4Address { o0: 0, o1: 0, o2: 0, o3: 0 }
    }
}

impl SocketAddress {
    /// The address part, without the port.
    pub fn ip(&self) -> (r: IpAddress)
        ensures
            r == self.ip,
    {
        self.ip
    }
}

/// The decimal digit characters, indexed by value.
pub open spec fn dec_digit(d: nat) -> char {
    if d == 0 {
        '0'
    } else if d == 1 {
        '1'
    } else if d == 2 {
        '2'
    } else if d == 3 {
        '3'
    } else if d == 4 {
        '4'
    } else if d == 5 {
        '5'
    } else if d == 6 {
        '6'
    } else if d == 7 {
        '7'
    } else if d == 8 {
        '8'
    } else {
        '9'
    }
}

/// The lowercase hexadecimal digit characters, indexed by value.
pub open spec fn hex_digit(d: nat) -> char {
    if d < 10 {
        dec_digit(d)
    } else if d == 10 {
        'a'
    } else if d == 11 {
        'b'
    } else if d == 12 {
        'c'
    } else if d == 13 {
        'd'
    } else if d == 14 {
        'e'
    } else {
        'f'
    }
}

/// Decimal text of an octet, without leading zeros.
pub open spec fn dec_text_u8(n: u8) -> Seq<char> {
    if n < 10 {
        seq![dec_digit(n as nat)]
    } else if n < 100 {
        seq![dec_digit(n as nat / 10), dec_digit(n as nat % 10)]
    } else {
        seq![
            dec_digit(n as nat / 100),
            dec_digit((n as nat / 10) % 10),
            dec_digit(n as nat % 10),
        ]
    }
}

/// Lowercase hexadecimal text of a 16-bit group, without leading zeros.
pub open spec fn hex_text_u16(n: u16) -> Seq<char> {
    if n < 0x10 {
        seq![hex_digit(n as nat)]
    } else if n < 0x100 {
        seq![hex_digit(n as nat / 0x10), hex_digit(n as nat % 0x10)]
    } else if n < 0x1000 {
        seq![
            hex_digit(n as nat / 0x100),
            hex_digit((n as nat / 0x10) % 0x10),
            hex_digit(n as nat % 0x10),
        ]
    } else {
        seq![
            hex_digit(n as nat / 0x1000),
            hex_digit((n as nat / 0x100) % 0x10),
            hex_digit((n as nat / 0x10) % 0x10),
            hex_digit(n as nat % 0x10),
        ]
    }
}

/// Decimal text of a port number, without leading zeros.
pub open spec fn dec_text_u16(n: u16) -> Seq<char> {
    if n < 10 {
        seq![dec_digit(n as nat)]
    } else if n < 100 {
        seq![dec_digit(n as nat / 10), dec_digit(n as nat % 10)]
    } else if n < 1000 {
        seq![
            dec_digit(n as nat / 100),
            dec_digit((n as nat / 10) % 10),
            dec_digit(n as nat % 10),
        ]
    } else if n < 10000 {
        seq![
            dec_digit(n as nat / 1000),
            dec_digit((n as nat / 100) % 10),
            dec_digit((n as nat / 10) % 10),
            dec_digit(n as nat % 10),
        ]
    } else {
        seq![
            dec_digit(n as nat / 10000),
            dec_digit((n as nat / 1000) % 10),
            dec_digit((n as nat / 100) % 10),
            dec_digit((n as nat / 10) % 10),
            dec_digit(n as nat % 10),
        ]
    }
}

/// Dotted-decimal text of an IPv4 address.
pub open spec fn ipv4_text(a: Ipv4Address) -> Seq<char> {
    dec_text_u8(a.o0) + seq!['.'] + dec_text_u8(a.o1) + seq!['.'] + dec_text_u8(a.o2) + seq!['.']
        + dec_text_u8(a.o3)
}

/// Colon-separated text of an IPv6 address: eight lowercase hexadecimal
/// groups, each without leading zeros and none elided.
pub open spec fn ipv6_text(a: Ipv6Address) -> Seq<char> {
    hex_text_u16(a.g0) + seq![':'] + hex_text_u16(a.g1) + seq![':'] + hex_text_u16(a.g2)
        + seq![':'] + hex_text_u16(a.g3) + seq![':'] + hex_text_u16(a.g4) + seq![':'] + hex_text_u16(
        a.g5,
    ) + seq![':'] + hex_text_u16(a.g6) + seq![':'] + hex_text_u16(a.g7)
}

/// The literal text of an address of either kind.
pub open spec fn ip_text(a: IpAddress) -> Seq<char> {
    match a {
        IpAddress::V4(v4) => ipv4_text(v4),
        IpAddress::V6(v6) => ipv6_text(v6),
    }
}

/// One decimal digit as text.
fn dec_digit_str(d: u8) -> (r: &'static str)
    requires
        d < 10,
    ensures
        r@ =~= seq![dec_digit(d as nat)],
{
    proof {
        reveal_strlit("0");
        reveal_strlit("1");
        reveal_strlit("2");
        reveal_strlit("3");
        reveal_strlit("4");
        reveal_strlit("5");
        reveal_strlit("6");
        reveal_strlit("7");
        reveal_strlit("8");
        reveal_strlit("9");
    }
    match d {
        0 => "0",
        1 => "1",
        2 => "2",
        3 => "3",
        4 => "4",
        5 => "5",
        6 => "6",
        7 => "7",
        8 => "8",
        _ => "9",
    }
}

/// One lowercase hexadecimal digit as text.
fn hex_digit_str(d: u16) -> (r: &'static str)
    requires
        d < 16,
    ensures
        r@ =~= seq![hex_digit(d as nat)],
{
    proof {
        reveal_strlit("a");
        reveal_strlit("b");
        reveal_strlit("c");
        reveal_strlit("d");
        reveal_strlit("e");
        reveal_strlit("f");
    }
    if d < 10 {
        dec_digit_str(d as u8)
    } else {
        match d {
            10 => "a",
            11 => "b",
            12 => "c",
            13 => "d",
            14 => "e",
            _ => "f",
        }
    }
}

/// Appends the decimal text of an octet.
fn push_dec_u8(s: String, n: u8) -> (r: String)
    ensures
        r@ == s@ + dec_text_u8(n),
{
    if n < 10 {
        let r = s.concat(dec_digit_str(n));
        proof {
            assert(r@ =~= s@ + dec_text_u8(n));
        }
        r
    } else if n < 100 {
        let r = s.concat(dec_digit_str(n / 10)).concat(dec_digit_str(n % 10));
        proof {
            assert(r@ =~= s@ + dec_text_u8(n));
        }
        r
    } else {
        let r = s.concat(dec_digit_str(n / 100)).concat(dec_digit_str((n / 10) % 10)).concat(
            dec_digit_str(n % 10),
        );
        proof {
            assert(r@ =~= s@ + dec_text_u8(n));
        }
        r
    }
}

/// One decimal digit as text, for a 16-bit value.
fn dec_digit_str_u16(d: u16) -> (r: &'static str)
    requires
        d < 10,
    ensures
        r@ =~= seq![dec_digit(d as nat)],
{
    dec_digit_str(d as u8)
}

/// Appends the decimal text of a port number.
fn push_dec_u16(s: String, n: u16) -> (r: String)
    ensures
        r@ == s@ + dec_text_u16(n),
{
    if n < 10 {
        let r = s.concat(dec_digit_str_u16(n));
        proof {
            assert(r@ =~= s@ + dec_text_u16(n));
        }
        r
    } else if n < 100 {
        let r = s.concat(dec_digit_str_u16(n / 10)).concat(dec_digit_str_u16(n % 10));
        proof {
            assert(r@ =~= s@ + dec_text_u16(n));
        }
        r
    } else if n < 1000 {
        let r = s.concat(dec_digit_str_u16(n / 100)).concat(
            dec_digit_str_u16((n / 10) % 10),
        ).concat(dec_digit_str_u16(n % 10));
        proof {
            assert(r@ =~= s@ + dec_text_u16(n));
        }
        r
    } else if n < 10000 {
        let r = s.concat(dec_digit_str_u16(n / 1000)).concat(
            dec_digit_str_u16((n / 100) % 10),
        ).concat(dec_digit_str_u16((n / 10) % 10)).concat(dec_digit_str_u16(n % 10));
        proof {
            assert(r@ =~= s@ + dec_text_u16(n));
        }
        r
    } else {
        let r = s.concat(dec_digit_str_u16(n / 10000)).concat(
            dec_digit_str_u16((n / 1000) % 10),
        ).concat(dec_digit_str_u16((n / 100) % 10)).concat(dec_digit_str_u16((n / 10) % 10)).concat(
            dec_digit_str_u16(n % 10),
        );
        proof {
            assert(r@ =~= s@ + dec_text_u16(n));
        }
        r
    }
}

/// Appends the decimal text of a port number to a string.
pub fn append_port_text(s: String, port: u16) -> (r: String)
    ensures
        r@ == s@ + dec_text_u16(port),
{
    push_dec_u16(s, port)
}

/// Appends the minimal lowercase hexadecimal text of a 16-bit group.
fn push_hex_u16(s: String, n: u16) -> (r: String)
    ensures
        r@ == s@ + hex_text_u16(n),
{
    if n < 0x10 {
        let r = s.concat(hex_digit_str(n));
        proof {
            assert(r@ =~= s@ + hex_text_u16(n));
        }
        r
    } else if n < 0x100 {
        let r = s.concat(hex_digit_str(n / 0x10)).concat(hex_digit_str(n % 0x10));
        proof {
            assert(r@ =~= s@ + hex_text_u16(n));
        }
        r
    } else if n < 0x1000 {
        let r = s.concat(hex_digit_str(n / 0x100)).concat(hex_digit_str((n / 0x10) % 0x10)).concat(
            hex_digit_str(n % 0x10),
        );
        proof {
            assert(r@ =~= s@ + hex_text_u16(n));
        }
        r
    } else {
        let r = s.concat(hex_digit_str(n / 0x1000)).concat(
            hex_digit_str((n / 0x100) % 0x10),
        ).concat(hex_digit_str((n / 0x10) % 0x10)).concat(hex_digit_str(n % 0x10));
        proof {
            assert(r@ =~= s@ + hex_text_u16(n));
        }
        r
    }
}

impl Ipv4Address {
    /// Dotted-decimal text of the address.
    pub fn to_text(&self) -> (r: String)
        ensures
            r@ == ipv4_text(*self),
    {
        proof {
            reveal_strlit("");
            reveal_strlit(".");
        }
        let mut s = String::new();
        s = push_dec_u8(s, self.o0);
        s = s.concat(".");
        s = push_dec_u8(s, self.o1);
        s = s.concat(".");
        s = push_dec_u8(s, self.o2);
        s = s.concat(".");
        s = push_dec_u8(s, self.o3);
        proof {
            assert(s@ =~= ipv4_text(*self));
        }
        s
    }
}

impl Ipv6Address {
    /// Colon-separated lowercase hexadecimal text of the address.
    pub fn to_text(&self) -> (r: String)
        ensures
            r@ == ipv6_text(*self),
    {
        proof {
            reveal_strlit("");
            reveal_strlit(":");
        }
        let mut s = String::new();
        s = push_hex_u16(s, self.g0);
        s = s.concat(":");
        s = push_hex_u16(s, self.g1);
        s = s.concat(":");
        s = push_hex_u16(s, self.g2);
        s = s.concat(":");
        s = push_hex_u16(s, self.g3);
        s = s.concat(":");
        s = push_hex_u16(s, self.g4);
        s = s.concat(":");
        s = push_hex_u16(s, self.g5);
        s = s.concat(":");
        s = push_hex_u16(s, self.g6);
        s = s.concat(":");
        s = push_hex_u16(s, self.g7);
        proof {
            assert(s@ =~= ipv6_text(*self));
        }
        s
    }
}

impl IpAddress {
    /// The literal text of the address.
    pub fn to_text(&self) -> (r: String)
        ensures
            r@ == ip_text(*self),
    {
        match self {
            IpAddress::V4(v4) => v4.to_text(),
            IpAddress::V6(v6) => v6.to_text(),
        }
    }
}

} // verus!
