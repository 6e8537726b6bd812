//! The per-packet decisions of the XDP data plane: GTP-U decapsulation of
//! uplink traffic arriving on N3, and GTP-U encapsulation of downlink
//! traffic arriving on N6, both steered by the rule tables.
//!
//! A frame is its bytes, from the Ethernet header on. A verdict passes the
//! frame to the kernel stack, drops it, or redirects a rewritten frame to an
//! interface.
use vstd::prelude::*;
use crate::bytes::{be16, be32, get_u16, get_u32, lemma_u16_roundtrip, lemma_u32_roundtrip, push_all, read_u16, read_u32, u16_from};
use crate::dataplane::{
    rule_key, FarValue, PdrValue, RuleTables, RuleTablesView, SessionInfo, ACTION_DROP, ACTION_FORW,
    GTP_UDP_PORT, IFACE_ACCESS, IFACE_CORE,
};
use crate::gtpu::{
    eth_bytes, gtpu_bytes, ip_bytes, ip_checksum, spec_ip_checksum, udp_bytes, EthHdr, GtpuHdr, IpHdr,
    UdpHdr, GTPU_EXT_HDR_LEN, GTPU_FLAG_E, GTPU_FLAG_PN, GTPU_FLAG_S, GTPU_GPDU, GTPU_HDR_LEN,
    GTPU_OPT_LEN, IP_HDR_LEN, UDP_HDR_LEN,
};

verus! {

broadcast use vstd::std_specs::hash::group_hash_axioms;

/// What happens to a frame.
#[derive(Clone, Copy, Debug, PartialEq, Eq, Structural)]
pub enum XdpAction {
    /// Hand the frame, unchanged, to the kernel stack.
    Pass,
    Drop,
    /// Send the rewritten frame out of the interface with this index.
    Redirect(u32),
}

/// A verdict and, for a redirect, the rewritten frame (empty otherwise).
pub struct XdpVerdict {
    pub action: XdpAction,
    pub frame: Vec<u8>,
}

impl View for XdpVerdict {
    type V = (XdpAction, Seq<u8>);

    open spec fn view(&self) -> (XdpAction, Seq<u8>) {
        (self.action, self.frame@)
    }
}

/// The PDU Session Container extension of a downlink G-PDU: no sequence
/// number or N-PDU number, next extension 0x85, one 4-byte unit holding
/// PDU type 0 (downlink) and QFI 1, no further extension.
pub open spec fn downlink_ext_bytes() -> Seq<u8> {
    seq![0x00u8, 0x00, 0x00, 0x85, 0x01, 0x00, 0x01, 0x00]
}

/// The length of the optional part after the 8-byte GTP-U header: 8 when
/// an extension header follows, 4 when only sequence/N-PDU numbers do.
pub open spec fn gtpu_opt_len(flags: u8) -> int {
    if flags & GTPU_FLAG_E != 0 {
        GTPU_EXT_HDR_LEN as int
    } else if flags & (GTPU_FLAG_S | GTPU_FLAG_PN) != 0 {
        GTPU_OPT_LEN as int
    } else {
        0
    }
}

/// How many PDR slots of a session entry are in use (at most eight).
pub open spec fn used_slots(s: SessionInfo) -> int {
    if s.pdr_count < 8 {
        s.pdr_count as int
    } else {
        8
    }
}

/// The uplink rule of a session, from slot `i` on: the first PDR whose
/// source is the access side and whose FAR is in the table decides; its
/// FAR drops the packet unless it forwards it without the drop bit. With no
/// such PDR the packet is not dropped.
pub open spec fn spec_uplink_drop_from(t: RuleTablesView, s: SessionInfo, i: int) -> bool
    decreases 8 - i,
{
    if i < 0 || i >= used_slots(s) {
        false
    } else {
        let pk = rule_key(s.seid, s.pdr_ids@[i]);
        if !t.pdr_map.contains_key(pk) || t.pdr_map[pk].source_interface != IFACE_ACCESS {
            spec_uplink_drop_from(t, s, i + 1)
        } else {
            let fk = rule_key(s.seid, t.pdr_map[pk].far_id);
            if !t.far_map.contains_key(fk) {
                spec_uplink_drop_from(t, s, i + 1)
            } else {
                let action = t.far_map[fk].apply_action;
                !(action & ACTION_DROP == 0 && action & ACTION_FORW != 0)
            }
        }
    }
}

/// What a session's downlink FAR decides: drop the packet, send it into
/// the tunnel (peer address, TEID), or nothing.
#[derive(Clone, Copy, Debug, PartialEq, Eq, Structural)]
pub enum DownlinkFar {
    Drop,
    Tunnel(u32, u32),
    Unset,
}

/// The downlink decision of a session, from slot `i` on: the first PDR
/// whose source is the core side and whose FAR is in the table and drops or
/// forwards decides; a dropping FAR drops the packet, a forwarding one
/// gives its peer address and TEID.
pub open spec fn spec_downlink_far_from(t: RuleTablesView, s: SessionInfo, i: int) -> DownlinkFar
    decreases 8 - i,
{
    if i < 0 || i >= used_slots(s) {
        DownlinkFar::Unset
    } else {
        let pk = rule_key(s.seid, s.pdr_ids@[i]);
        if !t.pdr_map.contains_key(pk) || t.pdr_map[pk].source_interface != IFACE_CORE {
            spec_downlink_far_from(t, s, i + 1)
        } else {
            let fk = rule_key(s.seid, t.pdr_map[pk].far_id);
            if !t.far_map.contains_key(fk) {
                spec_downlink_far_from(t, s, i + 1)
            } else {
                let far = t.far_map[fk];
                if far.apply_action & ACTION_DROP != 0 {
                    DownlinkFar::Drop
                } else if far.apply_action & ACTION_FORW != 0 {
                    DownlinkFar::Tunnel(far.gnb_ip, far.teid)
                } else {
                    spec_downlink_far_from(t, s, i + 1)
                }
            }
        }
    }
}

pub open spec fn pass_verdict() -> (XdpAction, Seq<u8>) {
    (XdpAction::Pass, Seq::empty())
}

/// Uplink, on N3: an IPv4/UDP/GTP-U G-PDU for a known UE (by the inner
/// source address) loses its outer headers and leaves for N6 behind a new
/// Ethernet header (to the N6 gateway, from the frame's source MAC), unless
/// the session's uplink FAR drops it. Anything else passes.
pub open spec fn spec_n3_uplink(f: Seq<u8>, t: RuleTablesView) -> (XdpAction, Seq<u8>) {
    if f.len() < 14 || read_u16(f, 12) != 0x0800 {
        pass_verdict()
    } else if f.len() < 24 || f[23] != 17 {
        pass_verdict()
    } else if f.len() < 38 || read_u16(f, 36) != GTP_UDP_PORT {
        pass_verdict()
    } else if f.len() < 50 || f[43] != GTPU_GPDU {
        pass_verdict()
    } else {
        let outer = 50 + gtpu_opt_len(f[42]);
        if f.len() < outer + 16 {
            pass_verdict()
        } else {
            let ue = read_u32(f, outer + 12);
            if !t.session_map.contains_key(ue) {
                pass_verdict()
            } else {
                let s = t.session_map[ue];
                if s.pdr_count > 0 && spec_uplink_drop_from(t, s, 0) {
                    (XdpAction::Drop, Seq::empty())
                } else {
                    (
                        XdpAction::Redirect(t.if_index[1]),
                        t.gw_mac[0].addr@ + f.subrange(6, 12) + be16(0x0800) + f.subrange(
                            outer,
                            f.len() as int,
                        ),
                    )
                }
            }
        }
    }
}

/// The outer IPv4 header of a downlink G-PDU carrying `inner_len` bytes of
/// user packet, from `saddr` to `daddr`, with its checksum.
pub open spec fn downlink_ip_header(inner_len: u16, saddr: u32, daddr: u32) -> IpHdr {
    let h = IpHdr {
        version_ihl: 0x45,
        tos: 0,
        tot_len: inner_len.wrapping_add(44),
        id: 0,
        frag_off: 0,
        ttl: 64,
        protocol: 17,
        check: 0,
        saddr,
        daddr,
    };
    IpHdr { check: spec_ip_checksum(h), ..h }
}

/// Downlink, on N6: an IPv4 packet for a known UE (by destination address)
/// is dropped where the session's downlink FAR drops it; otherwise it is
/// wrapped in IPv4/UDP/GTP-U with a PDU Session Container, addressed to
/// the session's gNB tunnel (that of its downlink FAR where one forwards,
/// else the session's own), and leaves for N3 behind an Ethernet header to
/// the gNB. Anything else passes.
pub open spec fn spec_n6_downlink(f: Seq<u8>, t: RuleTablesView) -> (XdpAction, Seq<u8>) {
    if f.len() < 14 || read_u16(f, 12) != 0x0800 {
        pass_verdict()
    } else if f.len() < 34 {
        pass_verdict()
    } else {
        let dst = read_u32(f, 30);
        if !t.session_map.contains_key(dst) {
            pass_verdict()
        } else {
            let s = t.session_map[dst];
            let rule = if s.pdr_count > 0 {
                spec_downlink_far_from(t, s, 0)
            } else {
                DownlinkFar::Unset
            };
            let tunnel = match rule {
                DownlinkFar::Tunnel(ip, teid) => (ip, teid),
                _ => (s.gnb_ip, s.teid),
            };
            let inner_len = read_u16(f, 16);
            if rule is Drop {
                (XdpAction::Drop, Seq::empty())
            } else {
            (
                XdpAction::Redirect(t.if_index[0]),
                t.gw_mac[1].addr@ + f.subrange(0, 6) + be16(0x0800) + ip_bytes(
                    downlink_ip_header(inner_len, s.upf_ip, tunnel.0),
                ) + udp_bytes(
                    UdpHdr {
                        source: GTP_UDP_PORT,
                        dest: GTP_UDP_PORT,
                        len: inner_len.wrapping_add(24),
                        check: 0,
                    },
                ) + gtpu_bytes(
                    GtpuHdr {
                        flags: 0x34,
                        msg_type: GTPU_GPDU,
                        length: inner_len.wrapping_add(8),
                        teid: tunnel.1,
                    },
                ) + downlink_ext_bytes() + f.subrange(14, f.len() as int),
            )
            }
        }
    }
}

fn copy_range(buf: &mut Vec<u8>, src: &[u8], from: usize, to: usize)
    requires
        from <= to <= src@.len(),
    ensures
        final(buf)@ == old(buf)@ + src@.subrange(from as int, to as int),
{
    let mut i: usize = from;
    while i < to
        invariant
            from <= i <= to <= src@.len(),
            buf@ == old(buf)@ + src@.subrange(from as int, i as int),
        decreases to - i,
    {
        buf.push(src[i]);
        i += 1;
        assert(buf@ =~= old(buf)@ + src@.subrange(from as int, i as int));
    }
}

fn pass() -> (r: XdpVerdict)
    ensures
        r@ == pass_verdict(),
{
    XdpVerdict { action: XdpAction::Pass, frame: Vec::new() }
}

/// The uplink rule of a session: whether its uplink FAR drops the packet.
pub fn uplink_check_far(t: &RuleTables, s: &SessionInfo) -> (r: bool)
    ensures
        r == spec_uplink_drop_from(t@, *s, 0),
{
    let n: usize = if s.pdr_count < 8 {
        s.pdr_count as usize
    } else {
        8
    };
    let mut i: usize = 0;
    while i < n
        invariant
            i <= n,
            n == used_slots(*s),
            s.pdr_ids@.len() == 8,
            spec_uplink_drop_from(t@, *s, 0) == spec_uplink_drop_from(t@, *s, i as int),
        decreases n - i,
    {
        let pk = rule_key_of(s.seid, s.pdr_ids[i]);
        let pdr: Option<PdrValue> = match t.pdr_map.get(&pk) {
            Some(p) => Some(*p),
            None => None,
        };
        if let Some(p) = pdr {
            if p.source_interface == IFACE_ACCESS {
                let fk = rule_key_of(s.seid, p.far_id);
                let far: Option<FarValue> = match t.far_map.get(&fk) {
                    Some(f) => Some(*f),
                    None => None,
                };
                if let Some(f) = far {
                    return !(f.apply_action & ACTION_DROP == 0 && f.apply_action & ACTION_FORW != 0);
                }
            }
        }
        i += 1;
    }
    false
}

/// The downlink decision of a session's FAR.
pub fn downlink_get_far(t: &RuleTables, s: &SessionInfo) -> (r: DownlinkFar)
    ensures
        r == spec_downlink_far_from(t@, *s, 0),
{
    let n: usize = if s.pdr_count < 8 {
        s.pdr_count as usize
    } else {
        8
    };
    let mut i: usize = 0;
    while i < n
        invariant
            i <= n,
            n == used_slots(*s),
            s.pdr_ids@.len() == 8,
            spec_downlink_far_from(t@, *s, 0) == spec_downlink_far_from(t@, *s, i as int),
        decreases n - i,
    {
        let pk = rule_key_of(s.seid, s.pdr_ids[i]);
        let pdr: Option<PdrValue> = match t.pdr_map.get(&pk) {
            Some(p) => Some(*p),
            None => None,
        };
        if let Some(p) = pdr {
            if p.source_interface == IFACE_CORE {
                let fk = rule_key_of(s.seid, p.far_id);
                let far: Option<FarValue> = match t.far_map.get(&fk) {
                    Some(f) => Some(*f),
                    None => None,
                };
                if let Some(f) = far {
                    if f.apply_action & ACTION_DROP != 0 {
                        return DownlinkFar::Drop;
                    }
                    if f.apply_action & ACTION_FORW != 0 {
                        return DownlinkFar::Tunnel(f.gnb_ip, f.teid);
                    }
                }
            }
        }
        i += 1;
    }
    DownlinkFar::Unset
}

fn rule_key_of(seid: u64, id: u32) -> (r: u64)
    ensures
        r == rule_key(seid, id),
{
    (seid << 16) | (id as u64 & 0xFFFF)
}

/// Uplink processing of one frame received on N3.
pub fn try_n3_uplink(f: &[u8], t: &RuleTables) -> (r: XdpVerdict)
    ensures
        r@ == spec_n3_uplink(f@, t@),
{
    let len = f.len();
    if len < 14 || get_u16(f, 12) != 0x0800 {
        return pass();
    }
    if len < 24 || f[23] != 17 {
        return pass();
    }
    if len < 38 || get_u16(f, 36) != GTP_UDP_PORT {
        return pass();
    }
    if len < 50 {
        return pass();
    }
    let gtpu = GtpuHdr::decode(f, 42);
    if gtpu.msg_type != GTPU_GPDU {
        return pass();
    }
    let opt_len: usize = if gtpu.flags & GTPU_FLAG_E != 0 {
        GTPU_EXT_HDR_LEN
    } else if gtpu.flags & (GTPU_FLAG_S | GTPU_FLAG_PN) != 0 {
        GTPU_OPT_LEN
    } else {
        0
    };
    let outer: usize = 42 + GTPU_HDR_LEN + opt_len;
    if len < outer + 16 {
        return pass();
    }
    let ue = get_u32(f, outer + 12);
    let session: SessionInfo = match t.session_map.get(&ue) {
        Some(s) => *s,
        None => {
            return pass();
        },
    };
    if session.pdr_count > 0 && uplink_check_far(t, &session) {
        return XdpVerdict { action: XdpAction::Drop, frame: Vec::new() };
    }
    let mut out: Vec<u8> = Vec::new();
    push_all(&mut out, &t.gw_mac[0].addr);
    copy_range(&mut out, f, 6, 12);
    out.push(0x08);
    out.push(0x00);
    copy_range(&mut out, f, outer, len);
    assert(be16(0x0800) =~= seq![0x08u8, 0x00u8]) by {
        assert((0x0800u16 >> 8) as u8 == 0x08u8) by (bit_vector);
        assert(0x0800u16 as u8 == 0x00u8) by (bit_vector);
    }
    assert(out@ =~= t@.gw_mac[0].addr@ + f@.subrange(6, 12) + be16(0x0800) + f@.subrange(
        outer as int,
        len as int,
    ));
    XdpVerdict { action: XdpAction::Redirect(t.if_index[1]), frame: out }
}

/// Downlink processing of one frame received on N6.
pub fn try_n6_downlink(f: &[u8], t: &RuleTables) -> (r: XdpVerdict)
    ensures
        r@ == spec_n6_downlink(f@, t@),
{
    let len = f.len();
    if len < 14 || get_u16(f, 12) != 0x0800 {
        return pass();
    }
    if len < 34 {
        return pass();
    }
    let dst = get_u32(f, 30);
    let session: SessionInfo = match t.session_map.get(&dst) {
        Some(s) => *s,
        None => {
            return pass();
        },
    };
    let rule = if session.pdr_count > 0 {
        downlink_get_far(t, &session)
    } else {
        DownlinkFar::Unset
    };
    let (gnb_ip, teid) = match rule {
        DownlinkFar::Drop => {
            return XdpVerdict { action: XdpAction::Drop, frame: Vec::new() };
        },
        DownlinkFar::Tunnel(ip, teid) => (ip, teid),
        DownlinkFar::Unset => (session.gnb_ip, session.teid),
    };
    let inner_len = get_u16(f, 16);
    let src: [u8; 6] = [f[0], f[1], f[2], f[3], f[4], f[5]];
    assert(src@ =~= f@.subrange(0, 6)) by {
        assert(src@[0] == f@[0] && src@[1] == f@[1] && src@[2] == f@[2]);
        assert(src@[3] == f@[3] && src@[4] == f@[4] && src@[5] == f@[5]);
    }
    let eth = EthHdr { dst: t.gw_mac[1].addr, src, eth_type: 0x0800 };
    let ip0 = IpHdr {
        version_ihl: 0x45,
        tos: 0,
        tot_len: inner_len.wrapping_add(44),
        id: 0,
        frag_off: 0,
        ttl: 64,
        protocol: 17,
        check: 0,
        saddr: session.upf_ip,
        daddr: gnb_ip,
    };
    let ip = IpHdr { check: ip_checksum(&ip0), ..ip0 };
    let udp = UdpHdr {
        source: GTP_UDP_PORT,
        dest: GTP_UDP_PORT,
        len: inner_len.wrapping_add(24),
        check: 0,
    };
    let gtpu = GtpuHdr {
        flags: 0x34,
        msg_type: GTPU_GPDU,
        length: inner_len.wrapping_add(8),
        teid,
    };
    let ext: [u8; 8] = [0x00, 0x00, 0x00, 0x85, 0x01, 0x00, 0x01, 0x00];
    assert(ext@ =~= downlink_ext_bytes());
    let mut out: Vec<u8> = eth.encode();
    let ip_b = ip.encode();
    push_all(&mut out, ip_b.as_slice());
    let udp_b = udp.encode();
    push_all(&mut out, udp_b.as_slice());
    let gtpu_b = gtpu.encode();
    push_all(&mut out, gtpu_b.as_slice());
    push_all(&mut out, &ext);
    copy_range(&mut out, f, 14, len);
    XdpVerdict { action: XdpAction::Redirect(t.if_index[0]), frame: out }
}

/// What downlink encapsulation builds is what uplink decapsulation takes
/// apart: the frame is 44 bytes longer, it is an IPv4/UDP/GTP-U G-PDU to
/// the GTP-U port, and the uplink parser's outer headers end exactly where
/// the user packet starts, at byte 58, followed by the packet unchanged.
/// Its IPv4 header carries a valid checksum (see `law_ip_checksum_verifies`).
pub proof fn law_downlink_encap_is_decapsulable(f: Seq<u8>, t: RuleTablesView)
    requires
        spec_n6_downlink(f, t).0 is Redirect,
    ensures
        ({
            let g = spec_n6_downlink(f, t).1;
            &&& g.len() == f.len() + 44
            &&& read_u16(g, 12) == 0x0800
            &&& g[23] == 17
            &&& read_u16(g, 36) == GTP_UDP_PORT
            &&& g[43] == GTPU_GPDU
            &&& 50 + gtpu_opt_len(g[42]) == 58
            &&& g.subrange(58, g.len() as int) == f.subrange(14, f.len() as int)
        }),
{
    let g = spec_n6_downlink(f, t).1;
    let s = t.session_map[read_u32(f, 30)];
    assert(t.gw_mac[1].addr@.len() == 6);
    assert(g[12] == 0x08 && g[13] == 0x00) by {
        assert((0x0800u16 >> 8) as u8 == 0x08u8) by (bit_vector);
        assert(0x0800u16 as u8 == 0x00u8) by (bit_vector);
    }
    assert(u16_from(0x08, 0x00) == 0x0800) by (bit_vector);
    lemma_u16_roundtrip(GTP_UDP_PORT);
    assert(0x34u8 & GTPU_FLAG_E != 0) by (bit_vector);
    assert(g.subrange(58, g.len() as int) =~= f.subrange(14, f.len() as int));
}

/// Uplink decapsulation keeps the user packet whole: a redirected frame is
/// a 14-byte Ethernet header (to the N6 gateway, from the frame's source
/// MAC, type IPv4) followed by everything after the outer headers.
pub proof fn law_uplink_keeps_user_packet(f: Seq<u8>, t: RuleTablesView)
    requires
        spec_n3_uplink(f, t).0 is Redirect,
    ensures
        ({
            let g = spec_n3_uplink(f, t).1;
            let outer = 50 + gtpu_opt_len(f[42]);
            &&& g.len() == 14 + f.len() - outer
            &&& g.subrange(0, 6) == t.gw_mac[0].addr@
            &&& g.subrange(6, 12) == f.subrange(6, 12)
            &&& read_u16(g, 12) == 0x0800
            &&& g.subrange(14, g.len() as int) == f.subrange(outer, f.len() as int)
        }),
{
    let g = spec_n3_uplink(f, t).1;
    assert(t.gw_mac[0].addr@.len() == 6);
    assert(g[12] == 0x08 && g[13] == 0x00) by {
        assert((0x0800u16 >> 8) as u8 == 0x08u8) by (bit_vector);
        assert(0x0800u16 as u8 == 0x00u8) by (bit_vector);
    }
    assert(u16_from(0x08, 0x00) == 0x0800) by (bit_vector);
    let outer = 50 + gtpu_opt_len(f[42]);
    assert(g.subrange(0, 6) =~= t.gw_mac[0].addr@);
    assert(g.subrange(6, 12) =~= f.subrange(6, 12));
    assert(g.subrange(14, g.len() as int) =~= f.subrange(outer, f.len() as int));
}

/// The length fields of a downlink G-PDU count the user packet as its own
/// IPv4 header gives it (bytes 16..18 of the frame): the outer IPv4 total
/// length adds 44 bytes (IPv4, UDP, GTP-U header and its 8 optional bytes),
/// the UDP length 24 (UDP, GTP-U header, optional bytes), and the GTP-U
/// length 8 (the sequence/N-PDU/next-extension word and the PDU Session
/// Container). Where the user packet fills the frame, each length runs
/// exactly to the end of the new frame.
pub proof fn law_downlink_lengths(f: Seq<u8>, t: RuleTablesView)
    requires
        spec_n6_downlink(f, t).0 is Redirect,
    ensures
        ({
            let g = spec_n6_downlink(f, t).1;
            let n = read_u16(f, 16) as int;
            &&& read_u16(g, 16) as int == (n + 44) % 0x10000
            &&& read_u16(g, 38) as int == (n + 24) % 0x10000
            &&& read_u16(g, 44) as int == (n + 8) % 0x10000
            &&& (n == f.len() - 14 && n + 44 < 0x10000 ==> {
                &&& read_u16(g, 16) == g.len() - 14
                &&& read_u16(g, 38) == g.len() - 34
                &&& read_u16(g, 44) == g.len() - 50
            })
        }),
{
    let g = spec_n6_downlink(f, t).1;
    let n = read_u16(f, 16);
    let s = t.session_map[read_u32(f, 30)];
    assert(t.gw_mac[1].addr@.len() == 6);
    law_downlink_encap_is_decapsulable(f, t);
    let a = n.wrapping_add(44);
    let b = n.wrapping_add(24);
    let c = n.wrapping_add(8);
    assert(g[16] == (a >> 8) as u8 && g[17] == a as u8);
    assert(g[38] == (b >> 8) as u8 && g[39] == b as u8);
    assert(g[44] == (c >> 8) as u8 && g[45] == c as u8);
    lemma_u16_roundtrip(a);
    lemma_u16_roundtrip(b);
    lemma_u16_roundtrip(c);
}

/// Uplink decapsulation takes off exactly the outer headers that the
/// G-PDU's flags announce: 50 bytes (Ethernet, IPv4, UDP, GTP-U) when none
/// of E, S, PN is set; 54 when S or PN is set and E is not (the sequence
/// number, N-PDU number and next-extension word is present); 58 when E is
/// set (that word and one 4-byte extension header). The UE is the inner
/// source address just past them, and a frame whose UE has a session that
/// does not drop it leaves with the user packet from there on.
pub proof fn law_uplink_strips_announced_headers(f: Seq<u8>, t: RuleTablesView)
    requires
        f.len() >= 50,
        read_u16(f, 12) == 0x0800,
        f[23] == 17,
        read_u16(f, 36) == GTP_UDP_PORT,
        f[43] == GTPU_GPDU,
    ensures
        ({
            let flags = f[42];
            let outer: int = if flags & 0x04 != 0 {
                58
            } else if flags & 0x03 != 0 {
                54
            } else {
                50
            };
            let r = spec_n3_uplink(f, t);
            &&& (r.0 !is Pass) <==> (f.len() >= outer + 16 && t.session_map.contains_key(
                read_u32(f, outer + 12),
            ))
            &&& r.0 is Redirect ==> r.1.subrange(14, r.1.len() as int) == f.subrange(
                outer,
                f.len() as int,
            ) && r.1.len() == f.len() - outer + 14
        }),
{
    let flags = f[42];
    assert(flags & GTPU_FLAG_E == flags & 0x04);
    assert((GTPU_FLAG_S | GTPU_FLAG_PN) == 0x03u8) by (bit_vector);
    assert(GTPU_EXT_HDR_LEN == 8);
    assert(GTPU_OPT_LEN == 4);
    let r = spec_n3_uplink(f, t);
    if r.0 is Redirect {
        law_uplink_keeps_user_packet(f, t);
    }
}

/// A downlink G-PDU goes into the tunnel that the session's downlink FAR
/// forwards to (its gNB address and TEID), or, where no core-side FAR
/// decides, into the session's own tunnel: the outer IPv4 header runs from
/// the session's N3 address to that gNB, and the GTP-U header, with the
/// extension-header flag, carries that TEID. A FAR that drops the packet
/// never lets it out.
pub proof fn law_downlink_tunnel(f: Seq<u8>, t: RuleTablesView)
    requires
        f.len() >= 34,
        read_u16(f, 12) == 0x0800,
        t.session_map.contains_key(read_u32(f, 30)),
    ensures
        ({
            let s = t.session_map[read_u32(f, 30)];
            let rule = if s.pdr_count > 0 {
                spec_downlink_far_from(t, s, 0)
            } else {
                DownlinkFar::Unset
            };
            let r = spec_n6_downlink(f, t);
            let g = r.1;
            match rule {
                DownlinkFar::Drop => r.0 == XdpAction::Drop,
                DownlinkFar::Tunnel(ip, teid) => r.0 == XdpAction::Redirect(t.if_index[0]) && read_u32(g, 26)
                    == s.upf_ip && read_u32(g, 30) == ip && g[42] == 0x34 && read_u32(g, 46) == teid,
                DownlinkFar::Unset => r.0 == XdpAction::Redirect(t.if_index[0]) && read_u32(g, 26)
                    == s.upf_ip && read_u32(g, 30) == s.gnb_ip && g[42] == 0x34 && read_u32(g, 46) == s.teid,
            }
        }),
{
    let s = t.session_map[read_u32(f, 30)];
    let rule = if s.pdr_count > 0 {
        spec_downlink_far_from(t, s, 0)
    } else {
        DownlinkFar::Unset
    };
    assert(t.gw_mac[1].addr@.len() == 6);
    let tunnel = match rule {
        DownlinkFar::Tunnel(ip, teid) => (ip, teid),
        _ => (s.gnb_ip, s.teid),
    };
    lemma_u32_roundtrip(s.upf_ip);
    lemma_u32_roundtrip(tunnel.0);
    lemma_u32_roundtrip(tunnel.1);
}

} // verus!
