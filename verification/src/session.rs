//! PFCP sessions on the UPF: establishment, modification and deletion, and
//! the rule-table entries that each of them writes or removes.
use vstd::prelude::*;
use crate::association::{AssociationView, SessionData};
use crate::builder::{
    build_session_deletion_response, build_session_establishment_response,
    build_session_modification_response, spec_build_accepted,
    spec_build_session_establishment_response,
};
use crate::dataplane::{
    rule_key, FarKey, FarValue, PdrKey, PdrValue, RuleTablesView, SessionInfo, SessionKey,
};
use crate::header::PfcpHeader;
use crate::ie::{OuterHeaderCreation, ParsedFAR, ParsedPDR};
use crate::messages::{
    spec_decode_session_establishment, spec_decode_session_modification, SessionEstablishmentReq,
    SessionModificationReq,
};
use crate::net::{Ipv4Addr, SocketAddr};
use crate::server::{first_by_peer, PfcpServer, Reply, TuiNote, UpfEffect, UpfError, UpfView};
use crate::types::{INTERFACE_ACCESS, PFCP_SESSION_DELETION_RSP, PFCP_SESSION_MODIFICATION_RSP};

verus! {

broadcast use vstd::std_specs::hash::group_hash_axioms;

// ── What an establishment writes ────────────────────────────────────────

/// The first UE IP address carried by a PDR at index `i` or later.
pub open spec fn first_ue_ip(pdrs: Seq<ParsedPDR>, i: int) -> Option<Ipv4Addr>
    decreases pdrs.len() - i,
{
    if i < 0 || i >= pdrs.len() {
        None
    } else if pdrs[i].ue_ip is Some {
        pdrs[i].ue_ip
    } else {
        first_ue_ip(pdrs, i + 1)
    }
}

/// The first Outer Header Creation carried by a FAR at index `i` or later.
pub open spec fn first_ohc(fars: Seq<ParsedFAR>, i: int) -> Option<OuterHeaderCreation>
    decreases fars.len() - i,
{
    if i < 0 || i >= fars.len() {
        None
    } else if fars[i].outer_header_creation is Some {
        fars[i].outer_header_creation
    } else {
        first_ohc(fars, i + 1)
    }
}

/// The PDR ID kept in slot `k` of a session entry: the first eight PDRs
/// fill the slots in order, the rest are zero.
pub open spec fn pdr_slot(pdrs: Seq<ParsedPDR>, k: int) -> u32 {
    if k < pdrs.len() && k < 8 {
        pdrs[k].pdr_id as u32
    } else {
        0
    }
}

pub open spec fn pdr_id_array(pdrs: Seq<ParsedPDR>) -> [u32; 8] {
    [
        pdr_slot(pdrs, 0),
        pdr_slot(pdrs, 1),
        pdr_slot(pdrs, 2),
        pdr_slot(pdrs, 3),
        pdr_slot(pdrs, 4),
        pdr_slot(pdrs, 5),
        pdr_slot(pdrs, 6),
        pdr_slot(pdrs, 7),
    ]
}

pub open spec fn pdr_count_of(pdrs: Seq<ParsedPDR>) -> u8 {
    if pdrs.len() < 8 {
        pdrs.len() as u8
    } else {
        8
    }
}

/// The session-map entry of a new session.
pub open spec fn spec_session_info(
    seid: u64,
    teid: u32,
    gnb: Ipv4Addr,
    upf: Ipv4Addr,
    pdrs: Seq<ParsedPDR>,
) -> SessionInfo {
    SessionInfo {
        seid,
        teid,
        gnb_ip: gnb.bits,
        upf_ip: upf.bits,
        pdr_ids: pdr_id_array(pdrs),
        pdr_count: pdr_count_of(pdrs),
    }
}

/// The PDR-map entry of a Create PDR of a session whose UE has address `ue`.
pub open spec fn spec_pdr_value(p: ParsedPDR, ue: Ipv4Addr) -> PdrValue {
    PdrValue {
        precedence: p.precedence,
        source_interface: p.source_interface,
        ue_ip: ue.bits,
        qfi: 0,
        far_id: match p.far_id {
            Some(f) => f,
            None => 0,
        },
        qer_id: 0,
        outer_header_removal: if p.outer_header_removal {
            1
        } else {
            0
        },
        sdf_proto: 0,
        sdf_src_ip: 0,
        sdf_dst_ip: 0,
        sdf_src_port: 0,
        sdf_dst_port: 0,
    }
}

/// The FAR-map entry of a Create FAR, on a UPF whose N3 address is `n3`.
pub open spec fn spec_far_value(f: ParsedFAR, n3: Ipv4Addr) -> FarValue {
    FarValue {
        apply_action: f.apply_action,
        dst_interface: match f.dest_interface {
            Some(d) => d,
            None => 0,
        },
        gnb_ip: match f.outer_header_creation {
            Some(o) => o.peer_addr.bits,
            None => 0,
        },
        teid: match f.outer_header_creation {
            Some(o) => o.teid,
            None => 0,
        },
        upf_n3_ip: n3.bits,
    }
}

/// `m` after writing the entries of `pdrs`, in order, for session `seid`.
pub open spec fn insert_pdrs(m: Map<u64, PdrValue>, seid: u64, ue: Ipv4Addr, pdrs: Seq<ParsedPDR>) -> Map<
    u64,
    PdrValue,
>
    decreases pdrs.len(),
{
    if pdrs.len() == 0 {
        m
    } else {
        insert_pdrs(m, seid, ue, pdrs.drop_last()).insert(
            rule_key(seid, pdrs.last().pdr_id as u32),
            spec_pdr_value(pdrs.last(), ue),
        )
    }
}

/// `m` after writing the entries of `fars`, in order, for session `seid`.
pub open spec fn insert_fars(m: Map<u64, FarValue>, seid: u64, n3: Ipv4Addr, fars: Seq<ParsedFAR>) -> Map<
    u64,
    FarValue,
>
    decreases fars.len(),
{
    if fars.len() == 0 {
        m
    } else {
        insert_fars(m, seid, n3, fars.drop_last()).insert(
            rule_key(seid, fars.last().far_id),
            spec_far_value(fars.last(), n3),
        )
    }
}

pub open spec fn pdr_effect(seid: u64, ue: Ipv4Addr, p: ParsedPDR) -> UpfEffect {
    UpfEffect::PdrMapInsert {
        key: PdrKey { key: rule_key(seid, p.pdr_id as u32) },
        value: spec_pdr_value(p, ue),
    }
}

pub open spec fn far_effect(seid: u64, n3: Ipv4Addr, f: ParsedFAR) -> UpfEffect {
    UpfEffect::FarMapInsert { key: FarKey { key: rule_key(seid, f.far_id) }, value: spec_far_value(f, n3) }
}

/// The Created PDRs reported back: one per PDR whose source is the access
/// side, with the TEID allocated to the session and the N3 address.
pub open spec fn created_of(pdrs: Seq<ParsedPDR>, teid: u32, n3: Ipv4Addr) -> Seq<(u16, u32, Ipv4Addr)>
    decreases pdrs.len(),
{
    if pdrs.len() == 0 {
        Seq::empty()
    } else if pdrs.last().source_interface == INTERFACE_ACCESS {
        created_of(pdrs.drop_last(), teid, n3).push((pdrs.last().pdr_id, teid, n3))
    } else {
        created_of(pdrs.drop_last(), teid, n3)
    }
}

/// The effects of a successful establishment, in the order the caller
/// carries them out.
pub open spec fn establishment_effects(
    seid: u64,
    ue: Ipv4Addr,
    n3: Ipv4Addr,
    info: SessionInfo,
    data: SessionData,
    pdrs: Seq<ParsedPDR>,
    fars: Seq<ParsedFAR>,
) -> Seq<UpfEffect> {
    seq![UpfEffect::SessionMapInsert { key: SessionKey { ue_ip: ue.bits }, info }]
        + pdrs.map_values(|p: ParsedPDR| pdr_effect(seid, ue, p))
        + fars.map_values(|f: ParsedFAR| far_effect(seid, n3, f))
        + seq![
        UpfEffect::StoreSave { seid, data },
        UpfEffect::TuiSessionsUpdated,
        UpfEffect::TuiLog(TuiNote::SessionAdded { ue_ip: ue, seid }),
        UpfEffect::SetupUeRoute { ue_ip: ue },
    ]
}

/// The state and reply after a Session Establishment Request with body
/// `body` from `src`. The SEID and TEID are taken from the counters as soon
/// as the sender's association is known, so a request that then lacks a UE
/// address or an Outer Header Creation still uses them up.
/// Whether a Session Establishment Request with `body` from `src` gets as
/// far as taking a new SEID and TEID: it decodes, comes from an IPv4
/// address, and that address has an association.
pub open spec fn establishment_allocates(s: UpfView, body: Seq<u8>, src: SocketAddr) -> bool {
    &&& spec_decode_session_establishment(body) is Ok
    &&& src is V4
    &&& first_by_peer(s.associations, src, 0) is Some
}

pub open spec fn spec_establishment(s: UpfView, header: PfcpHeader, body: Seq<u8>, src: SocketAddr) -> (
    UpfView,
    Result<(Seq<u8>, Seq<UpfEffect>), UpfError>,
) {
    match spec_decode_session_establishment(body) {
        Err(e) => (s, Err(UpfError::Pfcp(e))),
        Ok(req) => {
            if src is V6 {
                (s, Err(UpfError::NonIpv4Source))
            } else {
                match first_by_peer(s.associations, src, 0) {
                    None => (s, Err(UpfError::NoAssociation(src))),
                    Some(i) => {
                        let seid = s.next_seid;
                        let teid = s.next_teid;
                        let s1 = UpfView {
                            next_seid: (seid + 1) as u64,
                            next_teid: (teid + 1) as u32,
                            ..s
                        };
                        match first_ue_ip(req.create_pdrs, 0) {
                            None => (s1, Err(UpfError::NoUeIp)),
                            Some(ue) => match first_ohc(req.create_fars, 0) {
                                None => (s1, Err(UpfError::NoOuterHeaderCreation)),
                                Some(ohc) => {
                                    let data = SessionData {
                                        ue_ip: ue,
                                        teid,
                                        gnb_ip: ohc.peer_addr,
                                        cp_seid: req.cp_seid,
                                    };
                                    let info = spec_session_info(
                                        seid,
                                        teid,
                                        ohc.peer_addr,
                                        s.n3_addr,
                                        req.create_pdrs,
                                    );
                                    let a = s.associations[i];
                                    (
                                        UpfView {
                                            sessions: s.sessions.insert(seid, data),
                                            associations: s.associations.update(
                                                i,
                                                AssociationView {
                                                    sessions: a.sessions.insert(req.cp_seid, data),
                                                    ..a
                                                },
                                            ),
                                            tables: RuleTablesView {
                                                session_map: s.tables.session_map.insert(ue.bits, info),
                                                pdr_map: insert_pdrs(
                                                    s.tables.pdr_map,
                                                    seid,
                                                    ue,
                                                    req.create_pdrs,
                                                ),
                                                far_map: insert_fars(
                                                    s.tables.far_map,
                                                    seid,
                                                    s.n3_addr,
                                                    req.create_fars,
                                                ),
                                                ..s.tables
                                            },
                                            ..s1
                                        },
                                        Ok(
                                            (
                                                spec_build_session_establishment_response(
                                                    header.seq_num,
                                                    req.cp_seid,
                                                    seid,
                                                    s.n3_addr,
                                                    created_of(req.create_pdrs, teid, s.n3_addr),
                                                ),
                                                establishment_effects(
                                                    seid,
                                                    ue,
                                                    s.n3_addr,
                                                    info,
                                                    data,
                                                    req.create_pdrs,
                                                    req.create_fars,
                                                ),
                                            ),
                                        ),
                                    )
                                },
                            },
                        }
                    },
                }
            }
        },
    }
}

// ── What a deletion removes ─────────────────────────────────────────────

/// The PDR IDs that a session entry lists: its first `pdr_count` slots, at
/// most eight. A session with no entry lists none.
pub open spec fn listed_pdr_ids(sm: Map<u32, SessionInfo>, ue: u32) -> Seq<u32> {
    if sm.contains_key(ue) {
        let info = sm[ue];
        let n: int = if info.pdr_count < 8 {
            info.pdr_count as int
        } else {
            8
        };
        info.pdr_ids@.take(n)
    } else {
        Seq::empty()
    }
}

/// The FAR IDs that the PDRs `ids` of session `seid` point to, each once,
/// in the order the PDRs list them; PDRs without an entry are skipped.
pub open spec fn referenced_far_ids(m: Map<u64, PdrValue>, seid: u64, ids: Seq<u32>) -> Seq<u32>
    decreases ids.len(),
{
    if ids.len() == 0 {
        Seq::empty()
    } else {
        let acc = referenced_far_ids(m, seid, ids.drop_last());
        let k = rule_key(seid, ids.last());
        if m.contains_key(k) && !acc.contains(m[k].far_id) {
            acc.push(m[k].far_id)
        } else {
            acc
        }
    }
}

/// `m` without the entries of the rules `ids` of session `seid`.
pub open spec fn remove_rules<V>(m: Map<u64, V>, seid: u64, ids: Seq<u32>) -> Map<u64, V>
    decreases ids.len(),
{
    if ids.len() == 0 {
        m
    } else {
        remove_rules(m, seid, ids.drop_last()).remove(rule_key(seid, ids.last()))
    }
}

pub open spec fn pdr_remove_effect(seid: u64, id: u32) -> UpfEffect {
    UpfEffect::PdrMapRemove { key: PdrKey { key: rule_key(seid, id) } }
}

pub open spec fn far_remove_effect(seid: u64, id: u32) -> UpfEffect {
    UpfEffect::FarMapRemove { key: FarKey { key: rule_key(seid, id) } }
}

/// The effects of a successful deletion of session `seid`, in order.
pub open spec fn deletion_effects(seid: u64, ue: Ipv4Addr, pdr_ids: Seq<u32>, far_ids: Seq<u32>) -> Seq<
    UpfEffect,
> {
    seq![UpfEffect::TuiSessionsUpdated, UpfEffect::TuiLog(TuiNote::SessionDeleted { seid })]
        + pdr_ids.map_values(|id: u32| pdr_remove_effect(seid, id))
        + far_ids.map_values(|id: u32| far_remove_effect(seid, id))
        + seq![
        UpfEffect::SessionMapRemove { key: SessionKey { ue_ip: ue.bits } },
        UpfEffect::TeardownUeRoute { ue_ip: ue },
        UpfEffect::StoreDelete { seid },
    ]
}

/// The state and reply after a Session Deletion Request from `src` whose
/// header names session `seid` (a header without SEID names session 0).
/// Only the association that owns the session may delete it. The session
/// leaves the server and its association; its session-map entry, the PDRs
/// that entry lists, and the FARs those PDRs point to leave the tables.
pub open spec fn spec_deletion(s: UpfView, header: PfcpHeader, src: SocketAddr) -> (
    UpfView,
    Result<(Seq<u8>, Seq<UpfEffect>), UpfError>,
) {
    let seid = match header.seid {
        Some(x) => x,
        None => 0,
    };
    if !s.sessions.contains_key(seid) {
        (s, Err(UpfError::UnknownSeid(seid)))
    } else if src is V6 {
        (s, Err(UpfError::NonIpv4Source))
    } else {
        let d = s.sessions[seid];
        match first_by_peer(s.associations, src, 0) {
            None => (s, Err(UpfError::NoAssociation(src))),
            Some(i) => {
                let a = s.associations[i];
                if !a.sessions.contains_key(d.cp_seid) {
                    (s, Err(UpfError::OwnershipViolation { cp_seid: d.cp_seid }))
                } else {
                    let ue = d.ue_ip.bits;
                    let pdr_ids = listed_pdr_ids(s.tables.session_map, ue);
                    let far_ids = referenced_far_ids(s.tables.pdr_map, seid, pdr_ids);
                    (
                        UpfView {
                            sessions: s.sessions.remove(seid),
                            associations: s.associations.update(
                                i,
                                AssociationView { sessions: a.sessions.remove(d.cp_seid), ..a },
                            ),
                            tables: RuleTablesView {
                                session_map: s.tables.session_map.remove(ue),
                                pdr_map: remove_rules(s.tables.pdr_map, seid, pdr_ids),
                                far_map: remove_rules(s.tables.far_map, seid, far_ids),
                                ..s.tables
                            },
                            ..s
                        },
                        Ok(
                            (
                                spec_build_accepted(PFCP_SESSION_DELETION_RSP, header.seq_num, seid),
                                deletion_effects(seid, d.ue_ip, pdr_ids, far_ids),
                            ),
                        ),
                    )
                }
            },
        }
    }
}

// ── What a modification changes ─────────────────────────────────────────

/// The tables a modification touches, and the effects so far.
pub struct ModState {
    pub far_map: Map<u64, FarValue>,
    pub session_map: Map<u32, SessionInfo>,
    pub sessions: Map<u64, SessionData>,
    pub effects: Seq<UpfEffect>,
}

/// One Update FAR of session `seid`, whose UE address is `ue`. Without an
/// Outer Header Creation it changes nothing. With one, the FAR's entry (if
/// there is one) takes the new peer address and TEID; if the FAR points to
/// the access side, the session entry (if there is one) and the session's
/// record take them too.
pub open spec fn apply_update(t: ModState, seid: u64, ue: u32, f: ParsedFAR) -> ModState {
    match f.outer_header_creation {
        None => t,
        Some(o) => {
            let k = rule_key(seid, f.far_id);
            let t1 = if t.far_map.contains_key(k) {
                let v = FarValue { gnb_ip: o.peer_addr.bits, teid: o.teid, ..t.far_map[k] };
                ModState {
                    far_map: t.far_map.insert(k, v),
                    effects: t.effects.push(UpfEffect::FarMapInsert { key: FarKey { key: k }, value: v }),
                    ..t
                }
            } else {
                t
            };
            if f.dest_interface == Some(INTERFACE_ACCESS) {
                let t2 = if t1.session_map.contains_key(ue) {
                    let info = SessionInfo { gnb_ip: o.peer_addr.bits, teid: o.teid, ..t1.session_map[ue] };
                    ModState {
                        session_map: t1.session_map.insert(ue, info),
                        effects: t1.effects.push(
                            UpfEffect::SessionMapInsert { key: SessionKey { ue_ip: ue }, info },
                        ),
                        ..t1
                    }
                } else {
                    t1
                };
                if t2.sessions.contains_key(seid) {
                    ModState {
                        sessions: t2.sessions.insert(
                            seid,
                            SessionData { gnb_ip: o.peer_addr, teid: o.teid, ..t2.sessions[seid] },
                        ),
                        ..t2
                    }
                } else {
                    t2
                }
            } else {
                t1
            }
        },
    }
}

pub open spec fn apply_updates(t: ModState, seid: u64, ue: u32, fars: Seq<ParsedFAR>) -> ModState
    decreases fars.len(),
{
    if fars.len() == 0 {
        t
    } else {
        apply_update(apply_updates(t, seid, ue, fars.drop_last()), seid, ue, fars.last())
    }
}

/// The state and reply after a Session Modification Request from `src`.
/// Only the association that owns the session may modify it; the response
/// carries the SMF's SEID of the session.
pub open spec fn spec_modification(s: UpfView, header: PfcpHeader, body: Seq<u8>, src: SocketAddr) -> (
    UpfView,
    Result<(Seq<u8>, Seq<UpfEffect>), UpfError>,
) {
    match spec_decode_session_modification(body) {
        Err(e) => (s, Err(UpfError::Pfcp(e))),
        Ok(fars) => match header.seid {
            None => (s, Err(UpfError::MissingSeid)),
            Some(seid) => {
                if !s.sessions.contains_key(seid) {
                    (s, Err(UpfError::UnknownSeid(seid)))
                } else if src is V6 {
                    (s, Err(UpfError::NonIpv4Source))
                } else {
                    let d = s.sessions[seid];
                    match first_by_peer(s.associations, src, 0) {
                        None => (s, Err(UpfError::NoAssociation(src))),
                        Some(i) => {
                            if !s.associations[i].sessions.contains_key(d.cp_seid) {
                                (s, Err(UpfError::OwnershipViolation { cp_seid: d.cp_seid }))
                            } else {
                                let t = apply_updates(
                                    ModState {
                                        far_map: s.tables.far_map,
                                        session_map: s.tables.session_map,
                                        sessions: s.sessions,
                                        effects: Seq::empty(),
                                    },
                                    seid,
                                    d.ue_ip.bits,
                                    fars,
                                );
                                (
                                    UpfView {
                                        sessions: t.sessions,
                                        tables: RuleTablesView {
                                            far_map: t.far_map,
                                            session_map: t.session_map,
                                            ..s.tables
                                        },
                                        ..s
                                    },
                                    Ok(
                                        (
                                            spec_build_accepted(
                                                PFCP_SESSION_MODIFICATION_RSP,
                                                header.seq_num,
                                                d.cp_seid,
                                            ),
                                            t.effects,
                                        ),
                                    ),
                                )
                            }
                        },
                    }
                }
            },
        },
    }
}

// ── Helpers ─────────────────────────────────────────────────────────────

fn find_ue_ip(pdrs: &Vec<ParsedPDR>) -> (r: Option<Ipv4Addr>)
    ensures
        r == first_ue_ip(pdrs@, 0),
{
    let mut i: usize = 0;
    while i < pdrs.len()
        invariant
            0 <= i <= pdrs@.len(),
            first_ue_ip(pdrs@, 0) == first_ue_ip(pdrs@, i as int),
        decreases pdrs@.len() - i,
    {
        if let Some(u) = pdrs[i].ue_ip {
            return Some(u);
        }
        i += 1;
    }
    None
}

fn find_ohc(fars: &Vec<ParsedFAR>) -> (r: Option<OuterHeaderCreation>)
    ensures
        r == first_ohc(fars@, 0),
{
    let mut i: usize = 0;
    while i < fars.len()
        invariant
            0 <= i <= fars@.len(),
            first_ohc(fars@, 0) == first_ohc(fars@, i as int),
        decreases fars@.len() - i,
    {
        if let Some(o) = fars[i].outer_header_creation {
            return Some(o);
        }
        i += 1;
    }
    None
}

fn session_info_for(seid: u64, teid: u32, gnb: Ipv4Addr, upf: Ipv4Addr, pdrs: &Vec<ParsedPDR>) -> (r:
    SessionInfo)
    ensures
        r == spec_session_info(seid, teid, gnb, upf, pdrs@),
{
    let mut ids: [u32; 8] = [0u32; 8];
    let n: usize = if pdrs.len() < 8 {
        pdrs.len()
    } else {
        8
    };
    let mut k: usize = 0;
    while k < n
        invariant
            k <= n,
            n == (if pdrs@.len() < 8 {
                pdrs@.len()
            } else {
                8
            }),
            ids@.len() == 8,
            forall|j: int| 0 <= j < k ==> ids@[j] == pdr_slot(pdrs@, j),
            forall|j: int| k <= j < 8 ==> ids@[j] == 0,
        decreases n - k,
    {
        ids[k] = pdrs[k].pdr_id as u32;
        k += 1;
    }
    assert(ids@ =~= pdr_id_array(pdrs@)@);
    assert(ids == pdr_id_array(pdrs@));
    SessionInfo {
        seid,
        teid,
        gnb_ip: gnb.bits,
        upf_ip: upf.bits,
        pdr_ids: ids,
        pdr_count: n as u8,
    }
}

fn pdr_value_of(p: &ParsedPDR, ue: Ipv4Addr) -> (r: PdrValue)
    ensures
        r == spec_pdr_value(*p, ue),
{
    PdrValue {
        precedence: p.precedence,
        source_interface: p.source_interface,
        ue_ip: ue.bits,
        qfi: 0,
        far_id: match p.far_id {
            Some(f) => f,
            None => 0,
        },
        qer_id: 0,
        outer_header_removal: if p.outer_header_removal {
            1
        } else {
            0
        },
        sdf_proto: 0,
        sdf_src_ip: 0,
        sdf_dst_ip: 0,
        sdf_src_port: 0,
        sdf_dst_port: 0,
    }
}

fn far_value_of(f: &ParsedFAR, n3: Ipv4Addr) -> (r: FarValue)
    ensures
        r == spec_far_value(*f, n3),
{
    let (gnb_ip, teid) = match f.outer_header_creation {
        Some(o) => (o.peer_addr.bits, o.teid),
        None => (0, 0),
    };
    FarValue {
        apply_action: f.apply_action,
        dst_interface: match f.dest_interface {
            Some(d) => d,
            None => 0,
        },
        gnb_ip,
        teid,
        upf_n3_ip: n3.bits,
    }
}

fn created_pdrs_for(pdrs: &Vec<ParsedPDR>, teid: u32, n3: Ipv4Addr) -> (r: Vec<(u16, u32, Ipv4Addr)>)
    ensures
        r@ == created_of(pdrs@, teid, n3),
{
    let mut out: Vec<(u16, u32, Ipv4Addr)> = Vec::new();
    let mut i: usize = 0;
    while i < pdrs.len()
        invariant
            0 <= i <= pdrs@.len(),
            out@ == created_of(pdrs@.take(i as int), teid, n3),
        decreases pdrs@.len() - i,
    {
        let p = pdrs[i];
        if p.source_interface == INTERFACE_ACCESS {
            out.push((p.pdr_id, teid, n3));
        }
        proof {
            assert(pdrs@.take(i + 1).drop_last() =~= pdrs@.take(i as int));
        }
        i += 1;
    }
    assert(pdrs@.take(pdrs@.len() as int) =~= pdrs@);
    out
}

fn vec_contains(v: &Vec<u32>, x: u32) -> (r: bool)
    ensures
        r == v@.contains(x),
{
    let mut i: usize = 0;
    while i < v.len()
        invariant
            0 <= i <= v@.len(),
            forall|j: int| 0 <= j < i ==> v@[j] != x,
        decreases v@.len() - i,
    {
        if v[i] == x {
            assert(v@[i as int] == x);
            return true;
        }
        i += 1;
    }
    false
}

impl PfcpServer {
    /// The PDR IDs that the session entry of UE address `ue` lists.
    fn listed_pdrs(&self, ue: u32) -> (r: Vec<u32>)
        ensures
            r@ == listed_pdr_ids(self@.tables.session_map, ue),
    {
        let mut out: Vec<u32> = Vec::new();
        match self.tables.session_map.get(&ue) {
            Some(info) => {
                let n: usize = if info.pdr_count < 8 {
                    info.pdr_count as usize
                } else {
                    8
                };
                let mut k: usize = 0;
                while k < n
                    invariant
                        k <= n,
                        n <= 8,
                        info.pdr_ids@.len() == 8,
                        out@ == info.pdr_ids@.take(k as int),
                    decreases n - k,
                {
                    out.push(info.pdr_ids[k]);
                    proof {
                        assert(info.pdr_ids@.take(k + 1) =~= info.pdr_ids@.take(k as int).push(
                            info.pdr_ids@[k as int],
                        ));
                    }
                    k += 1;
                }
            },
            None => {},
        }
        out
    }

    /// The FAR IDs that the PDRs `ids` of session `seid` point to.
    fn referenced_fars(&self, seid: u64, ids: &Vec<u32>) -> (r: Vec<u32>)
        ensures
            r@ == referenced_far_ids(self@.tables.pdr_map, seid, ids@),
    {
        let mut out: Vec<u32> = Vec::new();
        let mut i: usize = 0;
        while i < ids.len()
            invariant
                0 <= i <= ids@.len(),
                out@ == referenced_far_ids(self@.tables.pdr_map, seid, ids@.take(i as int)),
            decreases ids@.len() - i,
        {
            let key = PdrKey::new(seid, ids[i]);
            match self.tables.pdr_map.get(&key.key) {
                Some(pv) => {
                    let f = pv.far_id;
                    if !vec_contains(&out, f) {
                        out.push(f);
                    }
                },
                None => {},
            }
            proof {
                assert(ids@.take(i + 1).drop_last() =~= ids@.take(i as int));
            }
            i += 1;
        }
        assert(ids@.take(ids@.len() as int) =~= ids@);
        out
    }

    /// Removes the PDR entries `ids` of session `seid`, with their effects.
    fn remove_pdrs(&mut self, seid: u64, ids: &Vec<u32>, effects: &mut Vec<UpfEffect>)
        ensures
            final(self)@ == (UpfView {
                tables: RuleTablesView {
                    pdr_map: remove_rules(old(self)@.tables.pdr_map, seid, ids@),
                    ..old(self)@.tables
                },
                ..old(self)@
            }),
            final(effects)@ == old(effects)@ + ids@.map_values(|id: u32| pdr_remove_effect(seid, id)),
    {
        let mut i: usize = 0;
        while i < ids.len()
            invariant
                0 <= i <= ids@.len(),
                self@ == (UpfView {
                    tables: RuleTablesView {
                        pdr_map: remove_rules(old(self)@.tables.pdr_map, seid, ids@.take(i as int)),
                        ..old(self)@.tables
                    },
                    ..old(self)@
                }),
                effects@ == old(effects)@ + ids@.take(i as int).map_values(
                    |id: u32| pdr_remove_effect(seid, id),
                ),
            decreases ids@.len() - i,
        {
            let id = ids[i];
            let key = PdrKey::new(seid, id);
            self.tables.pdr_map.remove(&key.key);
            effects.push(UpfEffect::PdrMapRemove { key });
            proof {
                let t = ids@.take(i + 1);
                assert(t.drop_last() =~= ids@.take(i as int));
                assert(t.map_values(|id: u32| pdr_remove_effect(seid, id)) =~= ids@.take(
                    i as int,
                ).map_values(|id: u32| pdr_remove_effect(seid, id)).push(pdr_remove_effect(seid, id)));
            }
            i += 1;
        }
        assert(ids@.take(ids@.len() as int) =~= ids@);
    }

    /// Removes the FAR entries `ids` of session `seid`, with their effects.
    fn remove_fars(&mut self, seid: u64, ids: &Vec<u32>, effects: &mut Vec<UpfEffect>)
        ensures
            final(self)@ == (UpfView {
                tables: RuleTablesView {
                    far_map: remove_rules(old(self)@.tables.far_map, seid, ids@),
                    ..old(self)@.tables
                },
                ..old(self)@
            }),
            final(effects)@ == old(effects)@ + ids@.map_values(|id: u32| far_remove_effect(seid, id)),
    {
        let mut i: usize = 0;
        while i < ids.len()
            invariant
                0 <= i <= ids@.len(),
                self@ == (UpfView {
                    tables: RuleTablesView {
                        far_map: remove_rules(old(self)@.tables.far_map, seid, ids@.take(i as int)),
                        ..old(self)@.tables
                    },
                    ..old(self)@
                }),
                effects@ == old(effects)@ + ids@.take(i as int).map_values(
                    |id: u32| far_remove_effect(seid, id),
                ),
            decreases ids@.len() - i,
        {
            let id = ids[i];
            let key = FarKey::new(seid, id);
            self.tables.far_map.remove(&key.key);
            effects.push(UpfEffect::FarMapRemove { key });
            proof {
                let t = ids@.take(i + 1);
                assert(t.drop_last() =~= ids@.take(i as int));
                assert(t.map_values(|id: u32| far_remove_effect(seid, id)) =~= ids@.take(
                    i as int,
                ).map_values(|id: u32| far_remove_effect(seid, id)).push(far_remove_effect(seid, id)));
            }
            i += 1;
        }
        assert(ids@.take(ids@.len() as int) =~= ids@);
    }

    /// Applies the Update FARs of session `seid`, whose UE address is `ue`.
    fn apply_far_updates(&mut self, seid: u64, ue: u32, fars: &Vec<ParsedFAR>) -> (effects: Vec<UpfEffect>)
        ensures
            ({
                let t = apply_updates(
                    ModState {
                        far_map: old(self)@.tables.far_map,
                        session_map: old(self)@.tables.session_map,
                        sessions: old(self)@.sessions,
                        effects: Seq::empty(),
                    },
                    seid,
                    ue,
                    fars@,
                );
                &&& final(self)@ == (UpfView {
                    sessions: t.sessions,
                    tables: RuleTablesView {
                        far_map: t.far_map,
                        session_map: t.session_map,
                        ..old(self)@.tables
                    },
                    ..old(self)@
                })
                &&& effects@ == t.effects
            }),
    {
        let mut effects: Vec<UpfEffect> = Vec::new();
        let ghost t0 = ModState {
            far_map: self@.tables.far_map,
            session_map: self@.tables.session_map,
            sessions: self@.sessions,
            effects: Seq::empty(),
        };
        let mut i: usize = 0;
        while i < fars.len()
            invariant
                0 <= i <= fars@.len(),
                t0 == (ModState {
                    far_map: old(self)@.tables.far_map,
                    session_map: old(self)@.tables.session_map,
                    sessions: old(self)@.sessions,
                    effects: Seq::empty(),
                }),
                (ModState {
                    far_map: self@.tables.far_map,
                    session_map: self@.tables.session_map,
                    sessions: self@.sessions,
                    effects: effects@,
                }) == apply_updates(t0, seid, ue, fars@.take(i as int)),
                self@ == (UpfView {
                    sessions: self@.sessions,
                    tables: RuleTablesView {
                        far_map: self@.tables.far_map,
                        session_map: self@.tables.session_map,
                        ..old(self)@.tables
                    },
                    ..old(self)@
                }),
            decreases fars@.len() - i,
        {
            let f = fars[i];
            let ghost prev = ModState {
                far_map: self@.tables.far_map,
                session_map: self@.tables.session_map,
                sessions: self@.sessions,
                effects: effects@,
            };
            match f.outer_header_creation {
                None => {},
                Some(o) => {
                    let key = FarKey::new(seid, f.far_id);
                    let cur = match self.tables.far_map.get(&key.key) {
                        Some(v) => Some(*v),
                        None => None,
                    };
                    if let Some(v) = cur {
                        let nv = FarValue { gnb_ip: o.peer_addr.bits, teid: o.teid, ..v };
                        self.tables.far_map.insert(key.key, nv);
                        effects.push(UpfEffect::FarMapInsert { key, value: nv });
                    }
                    let to_access = match f.dest_interface {
                        Some(d) => d == INTERFACE_ACCESS,
                        None => false,
                    };
                    if to_access {
                        let cur_info = match self.tables.session_map.get(&ue) {
                            Some(v) => Some(*v),
                            None => None,
                        };
                        if let Some(info) = cur_info {
                            let ninfo = SessionInfo { gnb_ip: o.peer_addr.bits, teid: o.teid, ..info };
                            self.tables.session_map.insert(ue, ninfo);
                            effects.push(
                                UpfEffect::SessionMapInsert { key: SessionKey { ue_ip: ue }, info: ninfo },
                            );
                        }
                        let cur_data = match self.sessions.get(&seid) {
                            Some(v) => Some(*v),
                            None => None,
                        };
                        if let Some(d) = cur_data {
                            self.sessions.insert(
                                seid,
                                SessionData { gnb_ip: o.peer_addr, teid: o.teid, ..d },
                            );
                        }
                    }
                },
            }
            proof {
                assert(fars@.take(i + 1).drop_last() =~= fars@.take(i as int));
                assert((ModState {
                    far_map: self@.tables.far_map,
                    session_map: self@.tables.session_map,
                    sessions: self@.sessions,
                    effects: effects@,
                }) == apply_update(prev, seid, ue, f));
            }
            i += 1;
        }
        assert(fars@.take(fars@.len() as int) =~= fars@);
        effects
    }

    /// Session Deletion Request.
    pub(crate) fn handle_session_deletion(&mut self, header: &PfcpHeader, src: SocketAddr) -> (r: Result<
        Reply,
        UpfError,
    >)
        ensures
            ({
                let (s2, res) = spec_deletion(old(self)@, *header, src);
                &&& final(self)@ == s2
                &&& match res {
                    Ok(v) => r matches Ok(rep) && rep@ == v,
                    Err(e) => r matches Err(e2) && e2 == e,
                }
            }),
    {
        let seid = match header.seid {
            Some(x) => x,
            None => 0,
        };
        let d = match self.sessions.get(&seid) {
            Some(d) => *d,
            None => {
                return Err(UpfError::UnknownSeid(seid));
            },
        };
        if let SocketAddr::V6 { .. } = src {
            return Err(UpfError::NonIpv4Source);
        }
        let i = match self.find_by_peer(&src) {
            Some(i) => i,
            None => {
                return Err(UpfError::NoAssociation(src));
            },
        };
        let cp_seid = d.cp_seid;
        if !self.associations[i].sessions.contains_key(&cp_seid) {
            return Err(UpfError::OwnershipViolation { cp_seid });
        }
        let ue = d.ue_ip.bits;
        let pdr_ids = self.listed_pdrs(ue);
        let far_ids = self.referenced_fars(seid, &pdr_ids);
        self.sessions.remove(&seid);
        let ghost s1 = self@;
        let mut a = self.take_association(i);
        a.sessions.remove(&cp_seid);
        self.put_association(i, a);
        assert(self@.associations =~= s1.associations.update(i as int, a@));
        let mut effects: Vec<UpfEffect> = Vec::new();
        effects.push(UpfEffect::TuiSessionsUpdated);
        effects.push(UpfEffect::TuiLog(TuiNote::SessionDeleted { seid }));
        self.remove_pdrs(seid, &pdr_ids, &mut effects);
        self.remove_fars(seid, &far_ids, &mut effects);
        self.tables.session_map.remove(&ue);
        effects.push(UpfEffect::SessionMapRemove { key: SessionKey { ue_ip: ue } });
        effects.push(UpfEffect::TeardownUeRoute { ue_ip: d.ue_ip });
        effects.push(UpfEffect::StoreDelete { seid });
        let response = build_session_deletion_response(header.seq_num, seid);
        Ok(Reply { response, effects })
    }

    /// Session Modification Request.
    pub(crate) fn handle_session_modification(&mut self, header: &PfcpHeader, body: &[u8], src: SocketAddr) -> (r:
        Result<Reply, UpfError>)
        ensures
            ({
                let (s2, res) = spec_modification(old(self)@, *header, body@, src);
                &&& final(self)@ == s2
                &&& match res {
                    Ok(v) => r matches Ok(rep) && rep@ == v,
                    Err(e) => r matches Err(e2) && e2 == e,
                }
            }),
    {
        let req = match SessionModificationReq::decode(body) {
            Ok(req) => req,
            Err(e) => {
                return Err(UpfError::Pfcp(e));
            },
        };
        let seid = match header.seid {
            Some(x) => x,
            None => {
                return Err(UpfError::MissingSeid);
            },
        };
        let d = match self.sessions.get(&seid) {
            Some(d) => *d,
            None => {
                return Err(UpfError::UnknownSeid(seid));
            },
        };
        if let SocketAddr::V6 { .. } = src {
            return Err(UpfError::NonIpv4Source);
        }
        let i = match self.find_by_peer(&src) {
            Some(i) => i,
            None => {
                return Err(UpfError::NoAssociation(src));
            },
        };
        let cp_seid = d.cp_seid;
        if !self.associations[i].sessions.contains_key(&cp_seid) {
            return Err(UpfError::OwnershipViolation { cp_seid });
        }
        let effects = self.apply_far_updates(seid, d.ue_ip.bits, &req.update_fars);
        let response = build_session_modification_response(header.seq_num, cp_seid);
        Ok(Reply { response, effects })
    }
}

impl PfcpServer {
    /// Writes the PDR-map entries of `pdrs` for session `seid`, and the
    /// matching effects.
    fn install_pdrs(&mut self, seid: u64, ue: Ipv4Addr, pdrs: &Vec<ParsedPDR>, effects: &mut Vec<UpfEffect>)
        ensures
            final(self)@ == (UpfView {
                tables: RuleTablesView {
                    pdr_map: insert_pdrs(old(self)@.tables.pdr_map, seid, ue, pdrs@),
                    ..old(self)@.tables
                },
                ..old(self)@
            }),
            final(effects)@ == old(effects)@ + pdrs@.map_values(|p: ParsedPDR| pdr_effect(seid, ue, p)),
    {
        let mut i: usize = 0;
        while i < pdrs.len()
            invariant
                0 <= i <= pdrs@.len(),
                self@ == (UpfView {
                    tables: RuleTablesView {
                        pdr_map: insert_pdrs(old(self)@.tables.pdr_map, seid, ue, pdrs@.take(i as int)),
                        ..old(self)@.tables
                    },
                    ..old(self)@
                }),
                effects@ == old(effects)@ + pdrs@.take(i as int).map_values(
                    |p: ParsedPDR| pdr_effect(seid, ue, p),
                ),
            decreases pdrs@.len() - i,
        {
            let p = pdrs[i];
            let key = PdrKey::new(seid, p.pdr_id as u32);
            let value = pdr_value_of(&p, ue);
            self.tables.pdr_map.insert(key.key, value);
            effects.push(UpfEffect::PdrMapInsert { key, value });
            proof {
                let t = pdrs@.take(i + 1);
                assert(t.drop_last() =~= pdrs@.take(i as int));
                assert(t.map_values(|p: ParsedPDR| pdr_effect(seid, ue, p)) =~= pdrs@.take(
                    i as int,
                ).map_values(|p: ParsedPDR| pdr_effect(seid, ue, p)).push(pdr_effect(seid, ue, p)));
            }
            i += 1;
        }
        assert(pdrs@.take(pdrs@.len() as int) =~= pdrs@);
    }

    /// Writes the FAR-map entries of `fars` for session `seid`, and the
    /// matching effects.
    fn install_fars(&mut self, seid: u64, fars: &Vec<ParsedFAR>, effects: &mut Vec<UpfEffect>)
        ensures
            final(self)@ == (UpfView {
                tables: RuleTablesView {
                    far_map: insert_fars(old(self)@.tables.far_map, seid, old(self)@.n3_addr, fars@),
                    ..old(self)@.tables
                },
                ..old(self)@
            }),
            final(effects)@ == old(effects)@ + fars@.map_values(
                |f: ParsedFAR| far_effect(seid, old(self)@.n3_addr, f),
            ),
    {
        let n3 = self.n3_addr;
        let mut i: usize = 0;
        while i < fars.len()
            invariant
                0 <= i <= fars@.len(),
                n3 == old(self)@.n3_addr,
                self@ == (UpfView {
                    tables: RuleTablesView {
                        far_map: insert_fars(old(self)@.tables.far_map, seid, n3, fars@.take(i as int)),
                        ..old(self)@.tables
                    },
                    ..old(self)@
                }),
                effects@ == old(effects)@ + fars@.take(i as int).map_values(
                    |f: ParsedFAR| far_effect(seid, n3, f),
                ),
            decreases fars@.len() - i,
        {
            let f = fars[i];
            let key = FarKey::new(seid, f.far_id);
            let value = far_value_of(&f, n3);
            self.tables.far_map.insert(key.key, value);
            effects.push(UpfEffect::FarMapInsert { key, value });
            proof {
                let t = fars@.take(i + 1);
                assert(t.drop_last() =~= fars@.take(i as int));
                assert(t.map_values(|f: ParsedFAR| far_effect(seid, n3, f)) =~= fars@.take(
                    i as int,
                ).map_values(|f: ParsedFAR| far_effect(seid, n3, f)).push(far_effect(seid, n3, f)));
            }
            i += 1;
        }
        assert(fars@.take(fars@.len() as int) =~= fars@);
    }

    /// Session Establishment Request.
    pub(crate) fn handle_session_establishment(&mut self, header: &PfcpHeader, body: &[u8], src: SocketAddr) -> (r:
        Result<Reply, UpfError>)
        requires
            establishment_allocates(old(self)@, body@, src) ==> old(self).next_seid < u64::MAX
                && old(self).next_teid < u32::MAX,
        ensures
            ({
                let (s2, res) = spec_establishment(old(self)@, *header, body@, src);
                &&& final(self)@ == s2
                &&& match res {
                    Ok(v) => r matches Ok(rep) && rep@ == v,
                    Err(e) => r matches Err(e2) && e2 == e,
                }
            }),
    {
        let req = match SessionEstablishmentReq::decode(body) {
            Ok(req) => req,
            Err(e) => {
                return Err(UpfError::Pfcp(e));
            },
        };
        if let SocketAddr::V6 { .. } = src {
            return Err(UpfError::NonIpv4Source);
        }
        let i = match self.find_by_peer(&src) {
            Some(i) => i,
            None => {
                return Err(UpfError::NoAssociation(src));
            },
        };
        let local_seid = self.alloc_seid();
        let teid = self.alloc_teid();
        let ue_ip = match find_ue_ip(&req.create_pdrs) {
            Some(u) => u,
            None => {
                return Err(UpfError::NoUeIp);
            },
        };
        let ohc = match find_ohc(&req.create_fars) {
            Some(o) => o,
            None => {
                return Err(UpfError::NoOuterHeaderCreation);
            },
        };
        let n3 = self.n3_addr;
        let cp_seid = req.cp_seid;
        let info = session_info_for(local_seid, teid, ohc.peer_addr, n3, &req.create_pdrs);
        let mut effects: Vec<UpfEffect> = Vec::new();
        effects.push(UpfEffect::SessionMapInsert { key: SessionKey { ue_ip: ue_ip.bits }, info });
        self.tables.session_map.insert(ue_ip.bits, info);
        self.install_pdrs(local_seid, ue_ip, &req.create_pdrs, &mut effects);
        self.install_fars(local_seid, &req.create_fars, &mut effects);
        let data = SessionData { ue_ip, teid, gnb_ip: ohc.peer_addr, cp_seid };
        self.sessions.insert(local_seid, data);
        let ghost s3 = self@;
        let mut a = self.take_association(i);
        a.sessions.insert(cp_seid, data);
        self.put_association(i, a);
        assert(self@.associations =~= s3.associations.update(i as int, a@));
        effects.push(UpfEffect::StoreSave { seid: local_seid, data });
        effects.push(UpfEffect::TuiSessionsUpdated);
        effects.push(UpfEffect::TuiLog(TuiNote::SessionAdded { ue_ip, seid: local_seid }));
        effects.push(UpfEffect::SetupUeRoute { ue_ip });
        let created = created_pdrs_for(&req.create_pdrs, teid, n3);
        let response = build_session_establishment_response(
            header.seq_num,
            cp_seid,
            local_seid,
            n3,
            created.as_slice(),
        );
        Ok(Reply { response, effects })
    }
}

} // verus!
