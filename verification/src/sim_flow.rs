//! The steps of the SMF simulator's exchanges with the UPF, between the
//! sends and receives that its transport performs: which request to send,
//! and what a response changes.
use vstd::prelude::*;
use vstd::arithmetic::power2::{lemma_pow2_strictly_increases, pow2};
use std::time::Instant;
use crate::builder::{
    build_association_setup_request, build_heartbeat_request, build_heartbeat_response,
    build_session_deletion_request, build_session_establishment_request, create_pdr_value, far_value,
    fseid_value, node_id_value, spec_build_association_setup_request, spec_build_heartbeat_response,
    spec_build_session_establishment_request, spec_finish, FarParams, MsgBuilder, PdrParams,
};
use crate::header::spec_encode;
use crate::header::spec_session_header;
use crate::ie::{tlv, OuterHeaderCreation, SdfFilter};
use crate::types::{
    ACTION_FORW, GTPU_PORT, INTERFACE_ACCESS, INTERFACE_CORE, PFCP_IE_CREATE_FAR, PFCP_IE_CREATE_PDR,
    PFCP_IE_FORWARDING_PARAMETERS, PFCP_IE_FSEID, PFCP_IE_NODE_ID, PFCP_IE_UPDATE_FAR,
    PFCP_IE_UPDATE_FORWARDING_PARAMETERS, PFCP_SESSION_ESTABLISHMENT_REQ, PFCP_SESSION_MODIFICATION_REQ,
};
use crate::clock::{spec_ntp_from_unix, ntp_from_unix, unix_time_secs, NTP_UNIX_OFFSET};
use crate::header::{spec_decode, PfcpHeader};
use crate::net::Ipv4Addr;
use crate::sim_state::{PoolExhausted, SimSession, SimState, SimStateView};
use crate::types::{PFCP_ASSOCIATION_SETUP_REQ, PFCP_HEARTBEAT_REQ};
use crate::validator::{
    extract_recovery_ts, extract_session_info, response_checked, spec_extract_recovery_ts,
    spec_session_info, validate_response, ResponseError,
};

verus! {

broadcast use vstd::std_specs::hash::group_hash_axioms;

/// What the keepalive tells the rest of the simulator.
#[derive(Debug, Clone, Copy, PartialEq, Eq, Structural)]
pub enum KeepaliveEvent {
    /// The UPF answered with a new Recovery Time Stamp: it restarted.
    UpfRestarted { new_ts: u32 },
}

/// The NTP-era Recovery Time Stamp of a Unix time.
pub fn recovery_ts_of(unix_secs: u64) -> (r: u32)
    ensures
        r == spec_ntp_from_unix(unix_secs, NTP_UNIX_OFFSET),
{
    ntp_from_unix(unix_secs, NTP_UNIX_OFFSET)
}

// ── Association ─────────────────────────────────────────────────────────

/// Seconds to wait before the next Association Setup attempt after the
/// `tries`-th failed: three seconds doubling each time, at most thirty.
pub open spec fn spec_retry_wait_secs(tries: nat) -> nat {
    let w = 3 * pow2((tries - 1) as nat);
    if w < 30 {
        w
    } else {
        30
    }
}

pub fn retry_wait_secs(tries: u32) -> (r: u64)
    requires
        1 <= tries <= 63,
    ensures
        r == spec_retry_wait_secs(tries as nat),
{
    let mut w: u64 = 3;
    let mut k: u32 = 1;
    proof {
        vstd::arithmetic::power2::lemma2_to64();
    }
    while k < tries && w < 30
        invariant
            1 <= k <= tries,
            w == 3 * pow2((k - 1) as nat),
        decreases tries - k,
    {
        proof {
            vstd::arithmetic::power2::lemma_pow2_unfold(k as nat);
        }
        w = w * 2;
        k += 1;
    }
    proof {
        if k < tries {
            lemma_pow2_strictly_increases((k - 1) as nat, (tries - 1) as nat);
        }
    }
    if w < 30 {
        w
    } else {
        30
    }
}

/// The Association Setup Request of the simulator, with sequence number
/// `seq`, its Node ID, and its Recovery Time Stamp.
pub fn association_request(seq: u32, smf_addr: Ipv4Addr, recovery_ts: u32) -> (r: Vec<u8>)
    ensures
        r@ == spec_build_association_setup_request(seq, smf_addr, recovery_ts),
{
    build_association_setup_request(seq, smf_addr, recovery_ts)
}

/// What an answer to an Association Setup Request with sequence number
/// `seq` gives: an error where it is not the accepted response, else the
/// UPF's Recovery Time Stamp where it carries one.
pub open spec fn association_result_ok(seq: u32, rsp: Seq<u8>, r: Result<Option<u32>, ResponseError>) -> bool {
    if response_checked(PFCP_ASSOCIATION_SETUP_REQ, seq, rsp, Ok(())) {
        r == Ok::<Option<u32>, ResponseError>(spec_extract_recovery_ts(rsp))
    } else {
        r matches Err(e) && response_checked(PFCP_ASSOCIATION_SETUP_REQ, seq, rsp, Err(e))
    }
}

pub fn association_result(seq: u32, rsp: &[u8]) -> (r: Result<Option<u32>, ResponseError>)
    ensures
        association_result_ok(seq, rsp@, r),
{
    match validate_response(PFCP_ASSOCIATION_SETUP_REQ, seq, rsp) {
        Ok(()) => Ok(extract_recovery_ts(rsp)),
        Err(e) => Err(e),
    }
}

// ── Keepalive ───────────────────────────────────────────────────────────

/// The keepalive's record of the UPF's Recovery Time Stamp (0 while none
/// is known) after a Heartbeat Response, and the event it raises: a first
/// stamp is recorded; a different one is recorded and means the UPF
/// restarted; a response without a readable header or stamp changes nothing.
pub open spec fn spec_observe_heartbeat(stored: u32, rsp: Seq<u8>) -> (u32, Option<KeepaliveEvent>) {
    match spec_extract_recovery_ts(rsp) {
        None => (stored, None),
        Some(recv) => if stored == 0 {
            (recv, None)
        } else if stored != recv {
            (recv, Some(KeepaliveEvent::UpfRestarted { new_ts: recv }))
        } else {
            (stored, None)
        },
    }
}

pub fn observe_heartbeat(stored: u32, rsp: &[u8]) -> (r: (u32, Option<KeepaliveEvent>))
    ensures
        r == spec_observe_heartbeat(stored, rsp@),
{
    match extract_recovery_ts(rsp) {
        None => (stored, None),
        Some(recv) => {
            if stored == 0 {
                (recv, None)
            } else if stored != recv {
                (recv, Some(KeepaliveEvent::UpfRestarted { new_ts: recv }))
            } else {
                (stored, None)
            }
        },
    }
}

/// The keepalive's Heartbeat Request.
pub fn keepalive_request(seq: u32, recovery_ts: u32) -> (r: Vec<u8>)
    ensures
        r@ == crate::builder::spec_build_heartbeat_request(seq, recovery_ts),
{
    build_heartbeat_request(seq, recovery_ts)
}

// ── Unsolicited requests ────────────────────────────────────────────────

/// The answer to a message that arrives while the transport waits for a
/// response: a Heartbeat Request gets a Heartbeat Response with the same
/// sequence number and the given stamp; anything else gets none.
pub open spec fn spec_unsolicited_reply(data: Seq<u8>, recovery_ts: u32) -> Option<Seq<u8>> {
    match spec_decode(data) {
        Ok((h, _)) => if h.msg_type == PFCP_HEARTBEAT_REQ {
            Some(spec_build_heartbeat_response(h.seq_num, recovery_ts))
        } else {
            None
        },
        Err(_) => None,
    }
}

pub fn unsolicited_reply(data: &[u8], recovery_ts: u32) -> (r: Option<Vec<u8>>)
    ensures
        match spec_unsolicited_reply(data@, recovery_ts) {
            Some(v) => r matches Some(m) && m@ == v,
            None => r is None,
        },
{
    match PfcpHeader::decode(data) {
        Ok((h, _)) => {
            if h.msg_type == PFCP_HEARTBEAT_REQ {
                Some(build_heartbeat_response(h.seq_num, recovery_ts))
            } else {
                None
            }
        },
        Err(_) => None,
    }
}

/// Answers an unsolicited message with the current time as the stamp.
/// Whatever the clock reads, only a Heartbeat Request is answered, with a
/// Heartbeat Response of its sequence number.
pub fn handle_unsolicited(data: &[u8]) -> (r: Option<Vec<u8>>)
    ensures
        r is Some <==> spec_unsolicited_reply(data@, 0) is Some,
        r matches Some(m) ==> exists|u: u64|
            spec_unsolicited_reply(data@, #[trigger] spec_ntp_from_unix(u, NTP_UNIX_OFFSET)) == Some(m@),
{
    let unix = unix_time_secs();
    let r = unsolicited_reply(data, recovery_ts_of(unix));
    proof {
        let _ = spec_ntp_from_unix(unix, NTP_UNIX_OFFSET);
    }
    r
}

/// Whether a received message is the awaited response: its header decodes
/// and its type is `expected`.
pub open spec fn spec_is_response(data: Seq<u8>, expected: u8) -> bool {
    spec_decode(data) matches Ok((h, _)) && h.msg_type == expected
}

pub fn is_response(data: &[u8], expected: u8) -> (r: bool)
    ensures
        r == spec_is_response(data@, expected),
{
    match PfcpHeader::decode(data) {
        Ok((h, _)) => h.msg_type == expected,
        Err(_) => false,
    }
}

/// The response type a request awaits: its own type plus one, where its
/// header decodes and its type is below 255.
pub open spec fn spec_expected_response(msg: Seq<u8>) -> Option<u8> {
    match spec_decode(msg) {
        Ok((h, _)) => if h.msg_type < 255 {
            Some((h.msg_type + 1) as u8)
        } else {
            None
        },
        Err(_) => None,
    }
}

pub fn expected_response(msg: &[u8]) -> (r: Option<u8>)
    ensures
        r == spec_expected_response(msg@),
{
    match PfcpHeader::decode(msg) {
        Ok((h, _)) => {
            if h.msg_type < 255 {
                Some(h.msg_type + 1)
            } else {
                None
            }
        },
        Err(_) => None,
    }
}

// ── Requests of the scenarios ───────────────────────────────────────────

/// The uplink FAR of the simulator's sessions: forward to the core.
pub open spec fn uplink_far() -> FarParams {
    FarParams { far_id: 1, apply_action: ACTION_FORW, dest_interface: INTERFACE_CORE, outer_header_creation: None }
}

/// The downlink FAR of the simulator's sessions: forward into the GTP-U
/// tunnel `teid` towards the gNB at `gnb_addr`.
pub open spec fn downlink_far(gnb_addr: Ipv4Addr, teid: u32) -> FarParams {
    FarParams {
        far_id: 2,
        apply_action: ACTION_FORW,
        dest_interface: INTERFACE_ACCESS,
        outer_header_creation: Some(OuterHeaderCreation { teid, peer_addr: gnb_addr, port: GTPU_PORT }),
    }
}

/// The head of a Session Establishment Request: the SMF's Node ID and
/// F-SEID.
pub open spec fn establishment_head(seq: u32, smf_addr: Ipv4Addr, cp_seid: u64) -> Seq<u8> {
    spec_encode(spec_session_header(PFCP_SESSION_ESTABLISHMENT_REQ, 0, seq)) + tlv(
        PFCP_IE_NODE_ID,
        node_id_value(smf_addr),
    ) + tlv(PFCP_IE_FSEID, fseid_value(cp_seid, smf_addr))
}

/// The single Session Establishment Request that the simulator sends on
/// demand: one access-side PDR for the UE pointing at the downlink FAR,
/// then the uplink and downlink FARs.
pub open spec fn spec_single_establishment_request(
    seq: u32,
    smf_addr: Ipv4Addr,
    cp_seid: u64,
    ue_ip: Ipv4Addr,
    gnb_addr: Ipv4Addr,
    gnb_teid: u32,
) -> Seq<u8> {
    let pdr = PdrParams {
        pdr_id: 1,
        precedence: 100,
        source_interface: INTERFACE_ACCESS,
        fteid_choose: false,
        ue_ip: Some(ue_ip),
        far_id: 2,
        urr_id: None,
        outer_header_removal: false,
        sdf_filter: None,
    };
    spec_finish(
        establishment_head(seq, smf_addr, cp_seid) + tlv(PFCP_IE_CREATE_PDR, create_pdr_value(pdr)) + tlv(
            PFCP_IE_CREATE_FAR,
            far_value(uplink_far(), PFCP_IE_FORWARDING_PARAMETERS),
        ) + tlv(PFCP_IE_CREATE_FAR, far_value(downlink_far(gnb_addr, gnb_teid), PFCP_IE_FORWARDING_PARAMETERS)),
    )
}

pub fn single_establishment_request(
    seq: u32,
    smf_addr: Ipv4Addr,
    cp_seid: u64,
    ue_ip: Ipv4Addr,
    gnb_addr: Ipv4Addr,
    gnb_teid: u32,
) -> (r: Vec<u8>)
    ensures
        r@ == spec_single_establishment_request(seq, smf_addr, cp_seid, ue_ip, gnb_addr, gnb_teid),
{
    let mut msg = MsgBuilder::new(PfcpHeader::new_session_msg(PFCP_SESSION_ESTABLISHMENT_REQ, 0, seq));
    msg.add_node_id_v4(smf_addr);
    msg.add_fseid(cp_seid, smf_addr);
    msg.add_create_pdr(
        &PdrParams {
            pdr_id: 1,
            precedence: 100,
            source_interface: INTERFACE_ACCESS,
            fteid_choose: false,
            ue_ip: Some(ue_ip),
            far_id: 2,
            urr_id: None,
            outer_header_removal: false,
            sdf_filter: None,
        },
    );
    msg.add_create_far(
        &FarParams { far_id: 1, apply_action: ACTION_FORW, dest_interface: INTERFACE_CORE, outer_header_creation: None },
    );
    msg.add_create_far(
        &FarParams {
            far_id: 2,
            apply_action: ACTION_FORW,
            dest_interface: INTERFACE_ACCESS,
            outer_header_creation: Some(OuterHeaderCreation { teid: gnb_teid, peer_addr: gnb_addr, port: GTPU_PORT }),
        },
    );
    msg.finish()
}

/// The Session Establishment Request of the lifecycle scenario: an uplink
/// PDR (access side, F-TEID chosen by the UPF, outer header removed) and a
/// downlink PDR (core side), both for the UE and both with the TCP filter
/// from the UE's port 1234 to the gNB's port 5678, then the uplink and
/// downlink FARs.
pub open spec fn spec_lifecycle_establishment_request(
    seq: u32,
    smf_addr: Ipv4Addr,
    cp_seid: u64,
    ue_ip: Ipv4Addr,
    gnb_addr: Ipv4Addr,
    gnb_teid: u32,
) -> Seq<u8> {
    let sdf = SdfFilter { proto: 0x06, src_ip: ue_ip, dst_ip: gnb_addr, src_port: 1234, dst_port: 5678 };
    let up = PdrParams {
        pdr_id: 1,
        precedence: 100,
        source_interface: INTERFACE_ACCESS,
        fteid_choose: true,
        ue_ip: Some(ue_ip),
        far_id: 1,
        urr_id: None,
        outer_header_removal: true,
        sdf_filter: Some(sdf),
    };
    let down = PdrParams {
        pdr_id: 2,
        source_interface: INTERFACE_CORE,
        fteid_choose: false,
        far_id: 2,
        outer_header_removal: false,
        ..up
    };
    spec_finish(
        establishment_head(seq, smf_addr, cp_seid) + tlv(PFCP_IE_CREATE_PDR, create_pdr_value(up)) + tlv(
            PFCP_IE_CREATE_PDR,
            create_pdr_value(down),
        ) + tlv(PFCP_IE_CREATE_FAR, far_value(uplink_far(), PFCP_IE_FORWARDING_PARAMETERS)) + tlv(
            PFCP_IE_CREATE_FAR,
            far_value(downlink_far(gnb_addr, gnb_teid), PFCP_IE_FORWARDING_PARAMETERS),
        ),
    )
}

pub fn lifecycle_establishment_request(
    seq: u32,
    smf_addr: Ipv4Addr,
    cp_seid: u64,
    ue_ip: Ipv4Addr,
    gnb_addr: Ipv4Addr,
    gnb_teid: u32,
) -> (r: Vec<u8>)
    ensures
        r@ == spec_lifecycle_establishment_request(seq, smf_addr, cp_seid, ue_ip, gnb_addr, gnb_teid),
{
    let sdf = SdfFilter { proto: 0x06, src_ip: ue_ip, dst_ip: gnb_addr, src_port: 1234, dst_port: 5678 };
    let up = PdrParams {
        pdr_id: 1,
        precedence: 100,
        source_interface: INTERFACE_ACCESS,
        fteid_choose: true,
        ue_ip: Some(ue_ip),
        far_id: 1,
        urr_id: None,
        outer_header_removal: true,
        sdf_filter: Some(sdf),
    };
    let down = PdrParams {
        pdr_id: 2,
        source_interface: INTERFACE_CORE,
        fteid_choose: false,
        far_id: 2,
        outer_header_removal: false,
        ..up
    };
    let mut msg = MsgBuilder::new(PfcpHeader::new_session_msg(PFCP_SESSION_ESTABLISHMENT_REQ, 0, seq));
    msg.add_node_id_v4(smf_addr);
    msg.add_fseid(cp_seid, smf_addr);
    msg.add_create_pdr(&up);
    msg.add_create_pdr(&down);
    msg.add_create_far(
        &FarParams { far_id: 1, apply_action: ACTION_FORW, dest_interface: INTERFACE_CORE, outer_header_creation: None },
    );
    msg.add_create_far(
        &FarParams {
            far_id: 2,
            apply_action: ACTION_FORW,
            dest_interface: INTERFACE_ACCESS,
            outer_header_creation: Some(OuterHeaderCreation { teid: gnb_teid, peer_addr: gnb_addr, port: GTPU_PORT }),
        },
    );
    msg.finish()
}

/// The Session Modification Request of the lifecycle scenario: session
/// `upf_seid`'s downlink FAR moves to the GTP-U tunnel `teid` of the gNB
/// at `gnb_addr`.
pub open spec fn spec_tunnel_update_request(seq: u32, upf_seid: u64, gnb_addr: Ipv4Addr, teid: u32) -> Seq<u8> {
    spec_finish(
        spec_encode(spec_session_header(PFCP_SESSION_MODIFICATION_REQ, upf_seid, seq)) + tlv(
            PFCP_IE_UPDATE_FAR,
            far_value(downlink_far(gnb_addr, teid), PFCP_IE_UPDATE_FORWARDING_PARAMETERS),
        ),
    )
}

pub fn tunnel_update_request(seq: u32, upf_seid: u64, gnb_addr: Ipv4Addr, teid: u32) -> (r: Vec<u8>)
    ensures
        r@ == spec_tunnel_update_request(seq, upf_seid, gnb_addr, teid),
{
    let mut msg = MsgBuilder::new(PfcpHeader::new_session_msg(PFCP_SESSION_MODIFICATION_REQ, upf_seid, seq));
    msg.add_update_far(
        &FarParams {
            far_id: 2,
            apply_action: ACTION_FORW,
            dest_interface: INTERFACE_ACCESS,
            outer_header_creation: Some(OuterHeaderCreation { teid, peer_addr: gnb_addr, port: GTPU_PORT }),
        },
    );
    msg.finish()
}

// ── Sessions ────────────────────────────────────────────────────────────

/// A Session Establishment Request on its way, and what it was built from.
pub struct PendingSession {
    pub seq: u32,
    pub ue_ip: Ipv4Addr,
    pub gnb_teid: u32,
    pub cp_seid: u64,
    pub request: Vec<u8>,
}

/// Takes a sequence number, a UE address, a gNB TEID and an SMF SEID from
/// the state and builds the Session Establishment Request; fails, taking
/// only the sequence number, when the UE address pool is used up.
pub fn begin_add_session(state: &mut SimState, smf_addr: Ipv4Addr, gnb_addr: Ipv4Addr) -> (r: Result<
    PendingSession,
    PoolExhausted,
>)
    requires
        old(state)@.next_seq < u32::MAX,
        old(state)@.next_ue_ip < u32::MAX,
        old(state)@.next_gnb_teid < u32::MAX,
        old(state)@.next_cp_seid < u64::MAX,
    ensures
        ({
            let s0 = old(state)@;
            let seq = s0.next_seq;
            if s0.next_ue_ip <= s0.ue_ip_end {
                &&& r matches Ok(p) && p.seq == seq && p.ue_ip == (Ipv4Addr { bits: s0.next_ue_ip })
                    && p.gnb_teid == s0.next_gnb_teid && p.cp_seid == s0.next_cp_seid && p.request@
                    == spec_build_session_establishment_request(
                    seq,
                    smf_addr,
                    s0.next_cp_seid,
                    Ipv4Addr { bits: s0.next_ue_ip },
                    gnb_addr,
                    s0.next_gnb_teid,
                )
                &&& final(state)@ == (SimStateView {
                    next_seq: (seq + 1) as u32,
                    next_ue_ip: (s0.next_ue_ip + 1) as u32,
                    next_gnb_teid: (s0.next_gnb_teid + 1) as u32,
                    next_cp_seid: (s0.next_cp_seid + 1) as u64,
                    ..s0
                })
            } else {
                &&& r == Err::<PendingSession, PoolExhausted>(PoolExhausted)
                &&& final(state)@ == (SimStateView { next_seq: (seq + 1) as u32, ..s0 })
            }
        }),
{
    let seq = state.next_seq_num();
    let ue_ip = match state.alloc_ue_ip() {
        Ok(ip) => ip,
        Err(e) => {
            return Err(e);
        },
    };
    let gnb_teid = state.alloc_gnb_teid();
    let cp_seid = state.alloc_cp_seid();
    let request = build_session_establishment_request(seq, smf_addr, cp_seid, ue_ip, gnb_addr, gnb_teid);
    Ok(PendingSession { seq, ue_ip, gnb_teid, cp_seid, request })
}

/// Reads the response to a pending establishment and, where it gives the
/// UPF's SEID, TEID and N3 address, records the session under its SMF SEID.
pub fn finish_add_session(state: &mut SimState, p: &PendingSession, rsp: &[u8], now: Instant) -> (r: Result<
    u64,
    ResponseError,
>)
    ensures
        match spec_session_info(rsp@) {
            Ok((upf_seid, upf_teid, upf_n3_addr)) => {
                &&& r == Ok::<u64, ResponseError>(upf_seid)
                &&& final(state)@ == (SimStateView {
                    sessions: old(state)@.sessions.insert(
                        p.cp_seid,
                        SimSession {
                            cp_seid: p.cp_seid,
                            upf_seid,
                            upf_teid,
                            upf_n3_addr,
                            ue_ip: p.ue_ip,
                            gnb_teid: p.gnb_teid,
                            created_at: now,
                        },
                    ),
                    ..old(state)@
                })
            },
            Err(e) => r == Err::<u64, ResponseError>(e) && final(state)@ == old(state)@,
        },
{
    match extract_session_info(rsp) {
        Ok((upf_seid, upf_teid, upf_n3_addr)) => {
            let session = SimSession {
                cp_seid: p.cp_seid,
                upf_seid,
                upf_teid,
                upf_n3_addr,
                ue_ip: p.ue_ip,
                gnb_teid: p.gnb_teid,
                created_at: now,
            };
            state.insert_session(p.cp_seid, session);
            Ok(upf_seid)
        },
        Err(e) => Err(e),
    }
}

/// The Session Deletion Request for the session with SMF SEID `cp_seid`,
/// with the next sequence number, where the state holds that session.
pub fn begin_delete_session(state: &mut SimState, cp_seid: u64) -> (r: Option<(u32, Vec<u8>)>)
    requires
        old(state)@.next_seq < u32::MAX,
    ensures
        old(state)@.sessions.contains_key(cp_seid) ==> ({
            let seq = old(state)@.next_seq;
            &&& r matches Some((s, msg)) && s == seq && msg@ == crate::builder::spec_finish(
                crate::header::spec_encode(
                    crate::header::spec_session_header(
                        crate::types::PFCP_SESSION_DELETION_REQ,
                        old(state)@.sessions[cp_seid].upf_seid,
                        seq,
                    ),
                ),
            )
            &&& final(state)@ == (SimStateView { next_seq: (seq + 1) as u32, ..old(state)@ })
        }),
        !old(state)@.sessions.contains_key(cp_seid) ==> r is None && final(state)@ == old(state)@,
{
    let upf_seid = match state.session(cp_seid) {
        Some(s) => s.upf_seid,
        None => {
            return None;
        },
    };
    let seq = state.next_seq_num();
    Some((seq, build_session_deletion_request(seq, upf_seid)))
}

/// Forgets the session with SMF SEID `cp_seid` once its deletion was
/// answered.
pub fn finish_delete_session(state: &mut SimState, cp_seid: u64)
    ensures
        final(state)@ == (SimStateView { sessions: old(state)@.sessions.remove(cp_seid), ..old(state)@ }),
{
    state.remove_session(cp_seid);
}

} // verus!
