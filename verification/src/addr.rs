//! Network addresses as plain values.
//!
//! The subsystem decides on addresses (is this a multicast group? is this a
//! loopback interface?) but never touches a socket itself, so an address here
//! is nothing more than its numbers.

use crate::text::{decimal, push_decimal};
use vstd::prelude::*;

verus! {

/// An IPv4 address `a.b.c.d`, most significant octet first.
#[derive(Clone, Copy, Debug, PartialEq, Eq, Structural)]
pub struct Ipv4Address {
    pub a: u8,
    pub b: u8,
    pub c: u8,
    pub d: u8,
}

/// An IPv6 address as one 128-bit number in network order: the first of its
/// sixteen octets is the most significant one.
#[derive(Clone, Copy, Debug, PartialEq, Eq, Structural)]
pub struct Ipv6Address {
    pub bits: u128,
}

/// An address of either family.
#[derive(Clone, Copy, Debug, PartialEq, Eq, Structural)]
pub enum IpAddress {
    V4(Ipv4Address),
    V6(Ipv6Address),
}

/// An address together with a port.
#[derive(Clone, Copy, Debug, PartialEq, Eq, Structural)]
pub struct SocketAddress {
    pub ip: IpAddress,
    pub port: u16,
}

impl Ipv4Address {
    /// `224.0.0.0/4`: the most significant octet lies between 224 and 239.
    pub open spec fn spec_is_multicast(&self) -> bool {
        224 <= self.a <= 239
    }

    /// `127.0.0.0/8`.
    pub open spec fn spec_is_loopback(&self) -> bool {
        self.a == 127
    }

    /// `0.0.0.0`, which names every local interface at once.
    pub open spec fn spec_unspecified() -> Ipv4Address {
        Ipv4Address { a: 0, b: 0, c: 0, d: 0 }
    }

    /// The usual written form: the four octets in base ten, joined by dots.
    pub open spec fn spec_dotted_quad(&self) -> Seq<char> {
        decimal(self.a as nat) + seq!['.'] + decimal(self.b as nat) + seq!['.'] + decimal(
            self.c as nat,
        ) + seq!['.'] + decimal(self.d as nat)
    }

    /// Builds the address `a.b.c.d`.
    pub fn new(a: u8, b: u8, c: u8, d: u8) -> (addr: Ipv4Address)
        ensures
            addr == (Ipv4Address { a, b, c, d }),
    {
        Ipv4Address { a, b, c, d }
    }

    /// The four octets, most significant first.
    pub fn octets(&self) -> (o: [u8; 4])
        ensures
            o@ == seq![self.a, self.b, self.c, self.d],
    {
        let o: [u8; 4] = [self.a, self.b, self.c, self.d];
        assert(o@ =~= seq![self.a, self.b, self.c, self.d]);
        o
    }

    /// The wildcard address `0.0.0.0`.
    #[verifier::when_used_as_spec(spec_unspecified)]
    pub fn unspecified() -> (addr: Ipv4Address)
        ensures
            addr == Self::spec_unspecified(),
    {
        Ipv4Address { a: 0, b: 0, c: 0, d: 0 }
    }

    /// Whether the address is a multicast group.
    #[verifier::when_used_as_spec(spec_is_multicast)]
    pub fn is_multicast(&self) -> (m: bool)
        ensures
            m == self.spec_is_multicast(),
    {
        self.a >= 224 && self.a <= 239
    }

    /// Whether the address belongs to the loopback network.
    #[verifier::when_used_as_spec(spec_is_loopback)]
    pub fn is_loopback(&self) -> (l: bool)
        ensures
            l == self.spec_is_loopback(),
    {
        self.a == 127
    }

    /// The address written as `a.b.c.d`.
    pub fn dotted_quad(&self) -> (text: Vec<char>)
        ensures
            text@ == self.spec_dotted_quad(),
    {
        let mut text: Vec<char> = Vec::new();
        push_decimal(&mut text, self.a);
        text.push('.');
        push_decimal(&mut text, self.b);
        text.push('.');
        push_decimal(&mut text, self.c);
        text.push('.');
        push_decimal(&mut text, self.d);
        assert(text@ =~= self.spec_dotted_quad());
        text
    }
}

impl Ipv6Address {
    /// `ff00::/8`: the first octet is `0xff`.
    pub open spec fn spec_is_multicast(&self) -> bool {
        self.bits >> 120 == 0xff
    }

    /// `::1`.
    pub open spec fn spec_is_loopback(&self) -> bool {
        self.bits == 1
    }

    /// Builds the address from its 128-bit value.
    pub fn from_bits(bits: u128) -> (addr: Ipv6Address)
        ensures
            addr.bits == bits,
    {
        Ipv6Address { bits }
    }

    /// The 128-bit value of the address.
    pub fn to_bits(&self) -> (bits: u128)
        ensures
            bits == self.bits,
    {
        self.bits
    }

    /// Whether the address is a multicast group.
    #[verifier::when_used_as_spec(spec_is_multicast)]
    pub fn is_multicast(&self) -> (m: bool)
        ensures
            m == self.spec_is_multicast(),
    {
        self.bits >> 120 == 0xff
    }

    /// Whether the address is the loopback address.
    #[verifier::when_used_as_spec(spec_is_loopback)]
    pub fn is_loopback(&self) -> (l: bool)
        ensures
            l == self.spec_is_loopback(),
    {
        self.bits == 1
    }
}

impl IpAddress {
    /// Multicast in its own family.
    pub open spec fn spec_is_multicast(&self) -> bool {
        match self {
            IpAddress::V4(v4) => v4.spec_is_multicast(),
            IpAddress::V6(v6) => v6.spec_is_multicast(),
        }
    }

    /// Loopback in its own family.
    pub open spec fn spec_is_loopback(&self) -> bool {
        match self {
            IpAddress::V4(v4) => v4.spec_is_loopback(),
            IpAddress::V6(v6) => v6.spec_is_loopback(),
        }
    }

    /// Whether the address is a multicast group.
    #[verifier::when_used_as_spec(spec_is_multicast)]
    pub fn is_multicast(&self) -> (m: bool)
        ensures
            m == self.spec_is_multicast(),
    {
        match self {
            IpAddress::V4(v4) => v4.is_multicast(),
            IpAddress::V6(v6) => v6.is_multicast(),
        }
    }

    /// Whether the address is a loopback address.
    #[verifier::when_used_as_spec(spec_is_loopback)]
    pub fn is_loopback(&self) -> (l: bool)
        ensures
            l == self.spec_is_loopback(),
    {
        match self {
            IpAddress::V4(v4) => v4.is_loopback(),
            IpAddress::V6(v6) => v6.is_loopback(),
        }
    }

    /// The IPv4 address inside, if this is one.
    pub fn as_ipv4(&self) -> (v4: Option<Ipv4Address>)
        ensures
            v4 == (match *self {
                IpAddress::V4(inner) => Some(inner),
                IpAddress::V6(_) => None::<Ipv4Address>,
            }),
    {
        match self {
            IpAddress::V4(inner) => Some(*inner),
            IpAddress::V6(_) => None,
        }
    }
}

impl SocketAddress {
    /// Pairs an address with a port.
    pub fn new(ip: IpAddress, port: u16) -> (addr: SocketAddress)
        ensures
            addr == (SocketAddress { ip, port }),
    {
        SocketAddress { ip, port }
    }

    /// An IPv4 socket address `a.b.c.d:port`.
    pub fn v4(a: u8, b: u8, c: u8, d: u8, port: u16) -> (addr: SocketAddress)
        ensures
            addr == (SocketAddress { ip: IpAddress::V4(Ipv4Address { a, b, c, d }), port }),
    {
        SocketAddress { ip: IpAddress::V4(Ipv4Address { a, b, c, d }), port }
    }

    /// An IPv6 socket address from the address's 128-bit value.
    pub fn v6(bits: u128, port: u16) -> (addr: SocketAddress)
        ensures
            addr == (SocketAddress { ip: IpAddress::V6(Ipv6Address { bits }), port }),
    {
        SocketAddress { ip: IpAddress::V6(Ipv6Address { bits }), port }
    }
}

} // verus!
