//! Network addresses as plain values.
use vstd::prelude::*;
use crate::bytes::{be32, u32_from, lemma_u32_roundtrip};

verus! {

/// An IPv4 address, held as its 32-bit big-endian value (`u32::from` of the address).
#[derive(Clone, Copy, Debug, PartialEq, Eq, Hash, Structural)]
pub struct Ipv4Addr {
    pub bits: u32,
}

impl Ipv4Addr {
    /// The address whose octets are `a.b.c.d`.
    pub open spec fn spec_new(a: u8, b: u8, c: u8, d: u8) -> Ipv4Addr {
        Ipv4Addr { bits: u32_from(a, b, c, d) }
    }

    /// The four octets of the address, most significant first.
    pub open spec fn spec_octets(self) -> Seq<u8> {
        be32(self.bits)
    }

    pub fn new(a: u8, b: u8, c: u8, d: u8) -> (r: Ipv4Addr)
        ensures
            r == Ipv4Addr::spec_new(a, b, c, d),
    {
        Ipv4Addr { bits: ((a as u32) << 24) | ((b as u32) << 16) | ((c as u32) << 8) | (d as u32) }
    }

    /// `0.0.0.0`.
    pub fn unspecified() -> (r: Ipv4Addr)
        ensures
            r.bits == 0,
    {
        Ipv4Addr { bits: 0 }
    }

    pub fn from_bits(bits: u32) -> (r: Ipv4Addr)
        ensures
            r.bits == bits,
    {
        Ipv4Addr { bits }
    }

    pub fn to_bits(&self) -> (r: u32)
        ensures
            r == self.bits,
    {
        self.bits
    }

    pub fn octets(&self) -> (r: [u8; 4])
        ensures
            r@ == self.spec_octets(),
    {
        let r = [(self.bits >> 24) as u8, (self.bits >> 16) as u8, (self.bits >> 8) as u8, self.bits as u8];
        assert(r@ =~= self.spec_octets());
        r
    }
}

/// An address built from four octets gives back those octets, in order.
pub proof fn law_octets_of_new(a: u8, b: u8, c: u8, d: u8)
    ensures
        Ipv4Addr::spec_new(a, b, c, d).spec_octets() == seq![a, b, c, d],
{
    let v = u32_from(a, b, c, d);
    assert((v >> 24) as u8 == a && (v >> 16) as u8 == b && (v >> 8) as u8 == c && v as u8 == d)
        by (bit_vector)
        requires
            v == ((a as u32) << 24) | ((b as u32) << 16) | ((c as u32) << 8) | (d as u32),
    ;
    assert(Ipv4Addr::spec_new(a, b, c, d).spec_octets() =~= seq![a, b, c, d]);
}

pub proof fn lemma_new_octets(x: Ipv4Addr)
    ensures
        ({
            let o = x.spec_octets();
            Ipv4Addr::spec_new(o[0], o[1], o[2], o[3]) == x
        }),
{
    lemma_u32_roundtrip(x.bits);
}

/// A socket address: an IP address and a port.
#[derive(Clone, Copy, Debug, PartialEq, Eq, Structural)]
pub enum SocketAddr {
    V4 { ip: Ipv4Addr, port: u16 },
    V6 { ip: u128, port: u16, flowinfo: u32, scope_id: u32 },
}

impl SocketAddr {
    pub fn new_v4(ip: Ipv4Addr, port: u16) -> (r: SocketAddr)
        ensures
            r == (SocketAddr::V4 { ip, port }),
    {
        SocketAddr::V4 { ip, port }
    }

    /// The IPv4 address of a V4 socket address.
    pub fn ipv4(&self) -> (r: Option<Ipv4Addr>)
        ensures
            r == (match *self {
                SocketAddr::V4 { ip, .. } => Some(ip),
                SocketAddr::V6 { .. } => None,
            }),
    {
        match self {
            SocketAddr::V4 { ip, .. } => Some(*ip),
            SocketAddr::V6 { .. } => None,
        }
    }

    pub fn port(&self) -> (r: u16)
        ensures
            r == (match *self {
                SocketAddr::V4 { port, .. } => port,
                SocketAddr::V6 { port, .. } => port,
            }),
    {
        match self {
            SocketAddr::V4 { port, .. } => *port,
            SocketAddr::V6 { port, .. } => *port,
        }
    }

    /// Exec equality of two socket addresses.
    pub fn same(&self, other: &SocketAddr) -> (r: bool)
        ensures
            r == (*self == *other),
    {
        match (self, other) {
            (SocketAddr::V4 { ip: a, port: p }, SocketAddr::V4 { ip: b, port: q }) => a.bits == b.bits
                && *p == *q,
            (
                SocketAddr::V6 { ip: a, port: p, flowinfo: f, scope_id: s },
                SocketAddr::V6 { ip: b, port: q, flowinfo: g, scope_id: t },
            ) => *a == *b && *p == *q && *f == *g && *s == *t,
            _ => false,
        }
    }
}

} // verus!
