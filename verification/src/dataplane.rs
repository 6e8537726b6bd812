//! Rule tables shared by the control plane (which writes them) and the XDP
//! data plane (which reads them on every packet).
//!
//! Numbers are held here as values: an IPv4 address is its `u32` value and a
//! TEID its numeric value. Writing them into the kernel maps in network byte
//! order is the loader's business.
use vstd::prelude::*;
use std::collections::HashMap;

verus! {

/// N3 interface (gNB direction)
pub const IFACE_ACCESS: u8 = 0;
/// N6 interface (Internet direction)
pub const IFACE_CORE: u8 = 1;

/// FAR Apply Action bit mask
pub const ACTION_DROP: u8 = 0x01;
pub const ACTION_FORW: u8 = 0x02;
pub const ACTION_BUFF: u8 = 0x04;

/// GTP-U port
pub const GTP_UDP_PORT: u16 = 2152;

/// Maximum number of PDRs per session (eBPF stack limits)
pub const MAX_PDR_PER_SESSION: usize = 8;

/// Session map key: the UE IP address.
#[derive(Clone, Copy, Debug, PartialEq, Eq, Structural)]
pub struct SessionKey {
    pub ue_ip: u32,
}

/// The key of a per-session rule: `(seid << 16) | (id & 0xFFFF)`, in 64 bits.
/// Rule IDs are 16 bits (3GPP TS 29.244 §8.2.36, §8.2.74); the local SEID
/// is assumed to fit in 48 bits.
pub open spec fn rule_key(seid: u64, id: u32) -> u64 {
    (seid << 16) | ((id as u64) & 0xFFFF)
}

/// PDR map key: (seid, pdr_id) composed into one u64.
#[derive(Clone, Copy, Debug, PartialEq, Eq, Structural)]
pub struct PdrKey {
    pub key: u64,
}

impl PdrKey {
    pub fn new(seid: u64, pdr_id: u32) -> (r: Self)
        ensures
            r.key == rule_key(seid, pdr_id),
    {
        PdrKey { key: (seid << 16) | (pdr_id as u64 & 0xFFFF) }
    }
}

#[derive(Clone, Copy, Debug, PartialEq, Eq, Structural)]
pub struct PdrValue {
    pub precedence: u32,
    pub source_interface: u8,
    /// UE IP Address
    pub ue_ip: u32,
    /// QoS Flow Identifier
    pub qfi: u8,
    pub far_id: u32,
    pub qer_id: u32,
    pub outer_header_removal: u8,
    // SDF (Service Data Flow) filter, 5-tuple
    pub sdf_proto: u8,
    pub sdf_src_ip: u32,
    pub sdf_dst_ip: u32,
    pub sdf_src_port: u16,
    pub sdf_dst_port: u16,
}

#[derive(Clone, Copy, Debug)]
pub struct SessionInfo {
    pub seid: u64,
    pub teid: u32,
    pub gnb_ip: u32,
    pub upf_ip: u32,
    pub pdr_ids: [u32; MAX_PDR_PER_SESSION],
    pub pdr_count: u8,
}

/// FAR map key: (seid, far_id) composed into one u64.
#[derive(Clone, Copy, Debug, PartialEq, Eq, Structural)]
pub struct FarKey {
    pub key: u64,
}

impl FarKey {
    pub fn new(seid: u64, far_id: u32) -> (r: Self)
        ensures
            r.key == rule_key(seid, far_id),
    {
        FarKey { key: (seid << 16) | (far_id as u64 & 0xFFFF) }
    }
}

#[derive(Clone, Copy, Debug, PartialEq, Eq, Structural)]
pub struct FarValue {
    /// ACTION_FORW, ACTION_DROP or ACTION_BUFF
    pub apply_action: u8,
    pub dst_interface: u8,
    pub gnb_ip: u32,
    pub teid: u32,
    pub upf_n3_ip: u32,
}

#[derive(Clone, Copy, Debug)]
pub struct MacAddr {
    pub addr: [u8; 6],
}

#[derive(Clone, Copy, Debug, PartialEq, Eq, Structural)]
pub struct SessionStats {
    pub rx_bytes: u64,
    pub rx_packets: u64,
    pub tx_bytes: u64,
    pub tx_packets: u64,
}

/// The rule tables as the control plane keeps them: sessions by UE IP,
/// PDRs and FARs by composed key, and the two gateway MACs and interface
/// indexes (`[0]` the N3 side, `[1]` the N6 side).
pub struct RuleTables {
    pub session_map: HashMap<u32, SessionInfo>,
    pub pdr_map: HashMap<u64, PdrValue>,
    pub far_map: HashMap<u64, FarValue>,
    pub gw_mac: [MacAddr; 2],
    pub if_index: [u32; 2],
}

pub struct RuleTablesView {
    pub session_map: Map<u32, SessionInfo>,
    pub pdr_map: Map<u64, PdrValue>,
    pub far_map: Map<u64, FarValue>,
    pub gw_mac: Seq<MacAddr>,
    pub if_index: Seq<u32>,
}

impl View for RuleTables {
    type V = RuleTablesView;

    open spec fn view(&self) -> RuleTablesView {
        RuleTablesView {
            session_map: self.session_map@,
            pdr_map: self.pdr_map@,
            far_map: self.far_map@,
            gw_mac: self.gw_mac@,
            if_index: self.if_index@,
        }
    }
}

impl RuleTables {
    /// Empty tables, with the given gateway MACs and interface indexes.
    pub fn new(gw_mac: [MacAddr; 2], if_index: [u32; 2]) -> (r: Self)
        ensures
            r@.session_map == Map::<u32, SessionInfo>::empty(),
            r@.pdr_map == Map::<u64, PdrValue>::empty(),
            r@.far_map == Map::<u64, FarValue>::empty(),
            r@.gw_mac == gw_mac@,
            r@.if_index == if_index@,
    {
        RuleTables {
            session_map: HashMap::new(),
            pdr_map: HashMap::new(),
            far_map: HashMap::new(),
            gw_mac,
            if_index,
        }
    }
}

/// Rules of different sessions, or different rules of one session, never
/// share a key, as long as SEIDs fit in 48 bits; and the key gives back the
/// SEID and the 16-bit rule ID.
pub proof fn law_rule_key_injective(s1: u64, id1: u32, s2: u64, id2: u32)
    requires
        s1 < 0x1_0000_0000_0000,
        s2 < 0x1_0000_0000_0000,
    ensures
        (rule_key(s1, id1) == rule_key(s2, id2)) <==> (s1 == s2 && id1 % 0x10000 == id2
            % 0x10000),
        rule_key(s1, id1) >> 16 == s1,
        rule_key(s1, id1) & 0xFFFF == id1 % 0x10000,
{
    assert(((s1 << 16) | ((id1 as u64) & 0xFFFF) == (s2 << 16) | ((id2 as u64) & 0xFFFF)) <==> (
    s1 == s2 && (id1 as u64) & 0xFFFF == (id2 as u64) & 0xFFFF)) by (bit_vector)
        requires
            s1 < 0x1_0000_0000_0000u64,
            s2 < 0x1_0000_0000_0000u64,
    ;
    assert(((s1 << 16) | ((id1 as u64) & 0xFFFF)) >> 16 == s1) by (bit_vector)
        requires
            s1 < 0x1_0000_0000_0000u64,
    ;
    assert(((s1 << 16) | ((id1 as u64) & 0xFFFF)) & 0xFFFF == (id1 as u64) & 0xFFFF) by (bit_vector);
    assert((id1 as u64) & 0xFFFF == id1 % 0x10000) by (bit_vector);
    assert((id2 as u64) & 0xFFFF == id2 % 0x10000) by (bit_vector);
}

} // verus!
