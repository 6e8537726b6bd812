//! The headers that the data plane reads and writes around a user packet:
//! Ethernet, IPv4, UDP and GTP-U (3GPP TS 29.281), with their wire form and
//! the IPv4 header checksum (RFC 791, RFC 1071).
//!
//! Fields hold numbers; the wire form writes them most significant byte
//! first.
use vstd::prelude::*;
use crate::bytes::{be16, be32, get_u16, get_u32, push_all, push_u16_be, push_u32_be, read_u16, read_u32};

verus! {

/// GTP-U header: flags, message type, length, TEID.
#[derive(Clone, Copy, Debug, PartialEq, Eq, Structural)]
pub struct GtpuHdr {
    pub flags: u8,
    pub msg_type: u8,
    pub length: u16,
    pub teid: u32,
}

/// Sequence Number flag
pub const GTPU_FLAG_S: u8 = 0x02;
/// N-PDU Number flag
pub const GTPU_FLAG_PN: u8 = 0x01;
/// Extension Header flag
pub const GTPU_FLAG_E: u8 = 0x04;
/// G-PDU message type
pub const GTPU_GPDU: u8 = 0xFF;

pub const ETH_HDR_LEN: usize = 14;
pub const IP_HDR_LEN: usize = 20;
pub const UDP_HDR_LEN: usize = 8;
pub const GTPU_HDR_LEN: usize = 8;
/// Sequence Number, N-PDU Number and Next Extension Header Type.
pub const GTPU_OPT_LEN: usize = 4;
/// The optional fields followed by one PDU Session Container.
pub const GTPU_EXT_HDR_LEN: usize = 8;

pub const OUTER_HDR_LEN: usize = ETH_HDR_LEN + IP_HDR_LEN + UDP_HDR_LEN + GTPU_HDR_LEN + GTPU_OPT_LEN;

/// Ethernet header.
#[derive(Clone, Copy, Debug)]
pub struct EthHdr {
    pub dst: [u8; 6],
    pub src: [u8; 6],
    pub eth_type: u16,
}

/// IPv4 header without options.
#[derive(Clone, Copy, Debug, PartialEq, Eq, Structural)]
pub struct IpHdr {
    pub version_ihl: u8,
    pub tos: u8,
    pub tot_len: u16,
    pub id: u16,
    pub frag_off: u16,
    pub ttl: u8,
    pub protocol: u8,
    pub check: u16,
    pub saddr: u32,
    pub daddr: u32,
}

/// UDP header.
#[derive(Clone, Copy, Debug, PartialEq, Eq, Structural)]
pub struct UdpHdr {
    pub source: u16,
    pub dest: u16,
    pub len: u16,
    pub check: u16,
}

pub open spec fn gtpu_bytes(h: GtpuHdr) -> Seq<u8> {
    seq![h.flags, h.msg_type] + be16(h.length) + be32(h.teid)
}

pub open spec fn eth_bytes(h: EthHdr) -> Seq<u8> {
    h.dst@ + h.src@ + be16(h.eth_type)
}

pub open spec fn ip_bytes(h: IpHdr) -> Seq<u8> {
    seq![h.version_ihl, h.tos] + be16(h.tot_len) + be16(h.id) + be16(h.frag_off) + seq![
        h.ttl,
        h.protocol,
    ] + be16(h.check) + be32(h.saddr) + be32(h.daddr)
}

pub open spec fn udp_bytes(h: UdpHdr) -> Seq<u8> {
    be16(h.source) + be16(h.dest) + be16(h.len) + be16(h.check)
}

/// The GTP-U header at `buf[at..at + 8]`.
pub open spec fn spec_gtpu_at(buf: Seq<u8>, at: int) -> GtpuHdr {
    GtpuHdr {
        flags: buf[at],
        msg_type: buf[at + 1],
        length: read_u16(buf, at + 2),
        teid: read_u32(buf, at + 4),
    }
}

impl GtpuHdr {
    pub fn encode(&self) -> (r: Vec<u8>)
        ensures
            r@ == gtpu_bytes(*self),
    {
        let mut v: Vec<u8> = Vec::new();
        v.push(self.flags);
        v.push(self.msg_type);
        push_u16_be(&mut v, self.length);
        push_u32_be(&mut v, self.teid);
        assert(v@ =~= gtpu_bytes(*self));
        v
    }

    pub fn decode(buf: &[u8], at: usize) -> (r: GtpuHdr)
        requires
            at + GTPU_HDR_LEN <= buf@.len(),
        ensures
            r == spec_gtpu_at(buf@, at as int),
    {
        GtpuHdr {
            flags: buf[at],
            msg_type: buf[at + 1],
            length: get_u16(buf, at + 2),
            teid: get_u32(buf, at + 4),
        }
    }
}

impl EthHdr {
    pub fn encode(&self) -> (r: Vec<u8>)
        ensures
            r@ == eth_bytes(*self),
    {
        let mut v: Vec<u8> = Vec::new();
        push_all(&mut v, &self.dst);
        push_all(&mut v, &self.src);
        push_u16_be(&mut v, self.eth_type);
        v
    }
}

impl IpHdr {
    pub fn encode(&self) -> (r: Vec<u8>)
        ensures
            r@ == ip_bytes(*self),
    {
        let mut v: Vec<u8> = Vec::new();
        v.push(self.version_ihl);
        v.push(self.tos);
        push_u16_be(&mut v, self.tot_len);
        push_u16_be(&mut v, self.id);
        push_u16_be(&mut v, self.frag_off);
        v.push(self.ttl);
        v.push(self.protocol);
        push_u16_be(&mut v, self.check);
        push_u32_be(&mut v, self.saddr);
        push_u32_be(&mut v, self.daddr);
        assert(v@ =~= ip_bytes(*self));
        v
    }
}

impl UdpHdr {
    pub fn encode(&self) -> (r: Vec<u8>)
        ensures
            r@ == udp_bytes(*self),
    {
        let mut v: Vec<u8> = Vec::new();
        push_u16_be(&mut v, self.source);
        push_u16_be(&mut v, self.dest);
        push_u16_be(&mut v, self.len);
        push_u16_be(&mut v, self.check);
        assert(v@ =~= udp_bytes(*self));
        v
    }
}

// ── IPv4 header checksum ────────────────────────────────────────────────

/// The sum of the ten 16-bit words of the header.
pub open spec fn ip_word_sum(h: IpHdr) -> u32 {
    ((((h.version_ihl as u32) << 8) | (h.tos as u32)) + (h.tot_len as u32) + (h.id as u32) + (
    h.frag_off as u32) + (((h.ttl as u32) << 8) | (h.protocol as u32)) + (h.check as u32) + (h.saddr
        >> 16) + (h.saddr & 0xFFFF) + (h.daddr >> 16) + (h.daddr & 0xFFFF)) as u32
}

/// One end-around carry: the low 16 bits plus the carries above them.
pub open spec fn fold_carry(s: u32) -> u32 {
    ((s & 0xFFFF) + (s >> 16)) as u32
}

/// The one's complement of the one's complement sum of the header's words.
pub open spec fn spec_ip_checksum(h: IpHdr) -> u16 {
    !(fold_carry(fold_carry(ip_word_sum(h))) as u16)
}

proof fn lemma_word_bounds(h: IpHdr)
    ensures
        ((h.version_ihl as u32) << 8) | (h.tos as u32) <= 0xFFFF,
        ((h.ttl as u32) << 8) | (h.protocol as u32) <= 0xFFFF,
        h.saddr >> 16 <= 0xFFFF,
        h.saddr & 0xFFFF <= 0xFFFF,
        h.daddr >> 16 <= 0xFFFF,
        h.daddr & 0xFFFF <= 0xFFFF,
{
    let (a, b, c, d) = (h.version_ihl, h.tos, h.ttl, h.protocol);
    let (s, t) = (h.saddr, h.daddr);
    assert(((a as u32) << 8) | (b as u32) <= 0xFFFF) by (bit_vector);
    assert(((c as u32) << 8) | (d as u32) <= 0xFFFF) by (bit_vector);
    assert(s >> 16 <= 0xFFFF) by (bit_vector);
    assert(s & 0xFFFF <= 0xFFFF) by (bit_vector);
    assert(t >> 16 <= 0xFFFF) by (bit_vector);
    assert(t & 0xFFFF <= 0xFFFF) by (bit_vector);
}

/// The IPv4 header checksum of `hdr`, over its ten words as they stand.
pub fn ip_checksum(hdr: &IpHdr) -> (r: u16)
    ensures
        r == spec_ip_checksum(*hdr),
{
    proof {
        lemma_word_bounds(*hdr);
    }
    let mut sum: u32 = 0;
    sum += ((hdr.version_ihl as u32) << 8) | (hdr.tos as u32);
    sum += hdr.tot_len as u32;
    sum += hdr.id as u32;
    sum += hdr.frag_off as u32;
    sum += ((hdr.ttl as u32) << 8) | (hdr.protocol as u32);
    sum += hdr.check as u32;
    sum += hdr.saddr >> 16;
    sum += hdr.saddr & 0xFFFF;
    sum += hdr.daddr >> 16;
    sum += hdr.daddr & 0xFFFF;
    // Two end-around carries suffice for ten words.
    let s0 = sum;
    assert((s0 & 0xFFFF) + (s0 >> 16) <= 0x1FFFE) by (bit_vector);
    sum = (sum & 0xFFFF) + (sum >> 16);
    let s1 = sum;
    assert((s1 & 0xFFFF) + (s1 >> 16) <= 0x1FFFE) by (bit_vector);
    sum = (sum & 0xFFFF) + (sum >> 16);
    #[verifier::truncate]
    let folded = sum as u16;
    !folded
}

proof fn lemma_checksum_closes(s: u32)
    requires
        s <= 655350,
    ensures
        fold_carry(fold_carry((s + (!(fold_carry(fold_carry(s)) as u16) as u32)) as u32)) == 0xFFFF,
{
    let f1: u32 = fold_carry(s);
    let f2: u32 = fold_carry(f1);
    let c: u16 = !(f2 as u16);
    let t: u32 = (s + (c as u32)) as u32;
    let g1: u32 = fold_carry(t);
    let g2: u32 = fold_carry(g1);
    assert(g2 == 0xFFFF) by (bit_vector)
        requires
            s <= 655350,
            f1 == ((s & 0xFFFF) + (s >> 16)) as u32,
            f2 == ((f1 & 0xFFFF) + (f1 >> 16)) as u32,
            c == !(f2 as u16),
            t == (s + (c as u32)) as u32,
            g1 == ((t & 0xFFFF) + (t >> 16)) as u32,
            g2 == ((g1 & 0xFFFF) + (g1 >> 16)) as u32,
    ;
}

/// A header that carries its own checksum sums to 0xFFFF in one's
/// complement arithmetic, so a receiver that recomputes the checksum over
/// it finds zero.
pub proof fn law_ip_checksum_verifies(h: IpHdr)
    ensures
        ({
            let with_check = IpHdr { check: spec_ip_checksum(IpHdr { check: 0, ..h }), ..h };
            &&& fold_carry(fold_carry(ip_word_sum(with_check))) == 0xFFFF
            &&& spec_ip_checksum(with_check) == 0
        }),
{
    let h0 = IpHdr { check: 0, ..h };
    lemma_word_bounds(h0);
    let s = ip_word_sum(h0);
    let c = spec_ip_checksum(h0);
    let with_check = IpHdr { check: c, ..h };
    assert(ip_word_sum(with_check) == s + c as u32);
    lemma_checksum_closes(s);
    let f: u32 = fold_carry(fold_carry(ip_word_sum(with_check)));
    assert(f == 0xFFFF ==> !(f as u16) == 0) by (bit_vector);
}

} // verus!
