//! Properties of the UPF's association and session handling that span
//! several requests: exclusive session ownership, replace-on-restart, and
//! what a repeated request changes.
use vstd::prelude::*;
use std::time::Instant;
use crate::association::{spec_new_association, AssociationView, SessionData};
use crate::builder::{spec_build_association_setup_rejection, spec_build_association_setup_response};
use crate::header::PfcpHeader;
use crate::messages::{
    spec_decode_association_setup, spec_decode_session_establishment, spec_decode_session_modification,
    spec_optional_recovery_ts,
};
use crate::net::{Ipv4Addr, SocketAddr};
use crate::server::{
    first_by_node, first_by_peer, lemma_first_by_peer_found, spec_association, spec_heartbeat_state,
    UpfEffect, UpfError, UpfView,
};
use crate::dataplane::{rule_key, FarValue, PdrValue};
use crate::ie::{ParsedFAR, ParsedPDR};
use crate::session::{
    first_ue_ip, insert_fars, insert_pdrs, listed_pdr_ids, referenced_far_ids, remove_rules,
    spec_deletion, spec_establishment, spec_modification, spec_pdr_value, apply_updates, ModState,
    apply_update, created_of,
};
use crate::types::INTERFACE_ACCESS;

verus! {

/// A session may be deleted only by the association that owns it: a
/// Deletion Request from an associated SMF for a session of another SMF is
/// refused, and nothing changes.
pub proof fn law_foreign_deletion_refused(s: UpfView, header: PfcpHeader, src: SocketAddr)
    requires
        ({
            let seid = match header.seid {
                Some(x) => x,
                None => 0,
            };
            &&& s.sessions.contains_key(seid)
            &&& src is V4
            &&& first_by_peer(s.associations, src, 0) matches Some(i) && !s.associations[i].sessions.contains_key(
                s.sessions[seid].cp_seid,
            )
        }),
    ensures
        ({
            let seid = match header.seid {
                Some(x) => x,
                None => 0,
            };
            spec_deletion(s, header, src) == (s, Err::<(Seq<u8>, Seq<UpfEffect>), UpfError>(
                UpfError::OwnershipViolation { cp_seid: s.sessions[seid].cp_seid },
            ))
        }),
{
}

/// A session may be modified only by the association that owns it: a
/// well-formed Modification Request from an associated SMF for a session of
/// another SMF is refused, and nothing changes.
pub proof fn law_foreign_modification_refused(s: UpfView, header: PfcpHeader, body: Seq<u8>, src: SocketAddr)
    requires
        spec_decode_session_modification(body) is Ok,
        header.seid matches Some(seid) && s.sessions.contains_key(seid),
        src is V4,
        first_by_peer(s.associations, src, 0) matches Some(i) && !s.associations[i].sessions.contains_key(
            s.sessions[header.seid.unwrap()].cp_seid,
        ),
    ensures
        spec_modification(s, header, body, src) == (s, Err::<(Seq<u8>, Seq<UpfEffect>), UpfError>(
            UpfError::OwnershipViolation { cp_seid: s.sessions[header.seid.unwrap()].cp_seid },
        )),
{
}

/// A Session Modification whose last Update FAR carries an Outer Header
/// Creation towards the access side moves the session's downlink tunnel:
/// once accepted, the session's record and its session-map entry hold that
/// peer address and TEID (the SMF learns the gNB's tunnel only after the
/// establishment).
pub proof fn law_modification_retargets_tunnel(s: UpfView, header: PfcpHeader, body: Seq<u8>, src: SocketAddr)
    requires
        spec_modification(s, header, body, src).1 is Ok,
        ({
            let fars = spec_decode_session_modification(body).unwrap();
            &&& fars.len() > 0
            &&& fars.last().outer_header_creation is Some
            &&& fars.last().dest_interface == Some(INTERFACE_ACCESS)
            &&& s.tables.session_map.contains_key(s.sessions[header.seid.unwrap()].ue_ip.bits)
        }),
    ensures
        ({
            let seid = header.seid.unwrap();
            let ue = s.sessions[seid].ue_ip.bits;
            let o = spec_decode_session_modification(body).unwrap().last().outer_header_creation.unwrap();
            let s2 = spec_modification(s, header, body, src).0;
            &&& s2.sessions[seid].gnb_ip == o.peer_addr
            &&& s2.sessions[seid].teid == o.teid
            &&& s2.tables.session_map[ue].gnb_ip == o.peer_addr.bits
            &&& s2.tables.session_map[ue].teid == o.teid
        }),
{
    let seid = header.seid.unwrap();
    let ue = s.sessions[seid].ue_ip.bits;
    let fars = spec_decode_session_modification(body).unwrap();
    let t0 = ModState {
        far_map: s.tables.far_map,
        session_map: s.tables.session_map,
        sessions: s.sessions,
        effects: Seq::empty(),
    };
    lemma_updates_keep_keys(t0, seid, ue, fars.drop_last());
}

/// Updates never remove a session or a session-map entry.
proof fn lemma_updates_keep_keys(t: ModState, seid: u64, ue: u32, fars: Seq<ParsedFAR>)
    ensures
        t.sessions.contains_key(seid) ==> apply_updates(t, seid, ue, fars).sessions.contains_key(seid),
        t.session_map.contains_key(ue) ==> apply_updates(t, seid, ue, fars).session_map.contains_key(ue),
    decreases fars.len(),
{
    if fars.len() > 0 {
        lemma_updates_keep_keys(t, seid, ue, fars.drop_last());
    }
}

/// Session requests from a source with no association are refused and
/// change nothing, establishment included.
pub proof fn law_unassociated_source_refused(s: UpfView, header: PfcpHeader, body: Seq<u8>, src: SocketAddr)
    requires
        src is V4,
        first_by_peer(s.associations, src, 0) is None,
    ensures
        spec_decode_session_establishment(body) is Ok ==> spec_establishment(
            s,
            header,
            body,
            src,
        ) == (s, Err::<(Seq<u8>, Seq<UpfEffect>), UpfError>(UpfError::NoAssociation(src))),
        s.sessions.contains_key(
            match header.seid {
                Some(x) => x,
                None => 0,
            },
        ) ==> spec_deletion(s, header, src) == (s, Err::<(Seq<u8>, Seq<UpfEffect>), UpfError>(
            UpfError::NoAssociation(src),
        )),
{
}

/// A Heartbeat Request from an SMF whose Recovery Time Stamp differs from
/// the one on record means the SMF restarted: its association forgets the
/// sessions it owned and takes the new stamp. The UPF's own session list,
/// its rule tables and the other associations are left as they were.
pub proof fn law_heartbeat_restart_clears_owned_sessions(
    s: UpfView,
    body: Seq<u8>,
    src: SocketAddr,
    now: Instant,
)
    requires
        src is V4,
        first_by_peer(s.associations, src, 0) matches Some(i) && spec_optional_recovery_ts(body) matches Some(
            recv,
        ) && recv != s.associations[i].recovery_ts,
    ensures
        ({
            let i = first_by_peer(s.associations, src, 0).unwrap();
            let s2 = spec_heartbeat_state(s, body, src, now);
            &&& s2.associations.len() == s.associations.len()
            &&& s2.associations[i].sessions == Map::<u64, SessionData>::empty()
            &&& s2.associations[i].recovery_ts == spec_optional_recovery_ts(body).unwrap()
            &&& forall|j: int| 0 <= j < s.associations.len() && j != i ==> s2.associations[j] == s.associations[j]
            &&& s2.sessions == s.sessions
            &&& s2.tables == s.tables
        }),
{
    lemma_first_by_peer_found(s.associations, src, first_by_peer(s.associations, src, 0).unwrap());
}

/// A Heartbeat Request that repeats the Recovery Time Stamp on record keeps
/// the sessions of the association.
pub proof fn law_heartbeat_same_stamp_keeps_sessions(s: UpfView, body: Seq<u8>, src: SocketAddr, now: Instant)
    requires
        src is V4,
        first_by_peer(s.associations, src, 0) matches Some(i) && spec_optional_recovery_ts(body) == Some(
            s.associations[i].recovery_ts,
        ),
    ensures
        ({
            let i = first_by_peer(s.associations, src, 0).unwrap();
            spec_heartbeat_state(s, body, src, now).associations[i].sessions == s.associations[i].sessions
        }),
{
    lemma_first_by_peer_found(s.associations, src, first_by_peer(s.associations, src, 0).unwrap());
}

proof fn lemma_first_by_node_update(a: Seq<AssociationView>, n: Ipv4Addr, i: int, x: AssociationView, k: int)
    requires
        0 <= k <= i < a.len(),
        x.node_id == n,
        forall|j: int| k <= j < i ==> a[j].node_id != n,
    ensures
        first_by_node(a.update(i, x), n, k) == Some(i),
    decreases i - k,
{
    if k < i {
        lemma_first_by_node_update(a, n, i, x, k + 1);
    }
}

proof fn lemma_first_by_node_push(a: Seq<AssociationView>, n: Ipv4Addr, x: AssociationView, k: int)
    requires
        0 <= k <= a.len(),
        x.node_id == n,
        forall|j: int| k <= j < a.len() ==> a[j].node_id != n,
    ensures
        first_by_node(a.push(x), n, k) == Some(a.len() as int),
    decreases a.len() - k,
{
    if k < a.len() {
        lemma_first_by_node_push(a, n, x, k + 1);
    }
}

proof fn lemma_first_by_node_none(a: Seq<AssociationView>, n: Ipv4Addr, k: int)
    requires
        0 <= k,
        first_by_node(a, n, k) is None,
    ensures
        forall|j: int| k <= j < a.len() ==> a[j].node_id != n,
    decreases a.len() - k,
{
    if k < a.len() {
        lemma_first_by_node_none(a, n, k + 1);
    }
}

proof fn lemma_first_by_node_some(a: Seq<AssociationView>, n: Ipv4Addr, k: int)
    requires
        0 <= k,
        first_by_node(a, n, k) is Some,
    ensures
        ({
            let i = first_by_node(a, n, k).unwrap();
            &&& k <= i < a.len()
            &&& a[i].node_id == n
            &&& forall|j: int| k <= j < i ==> a[j].node_id != n
        }),
    decreases a.len() - k,
{
    if k < a.len() && a[k].node_id != n {
        lemma_first_by_node_some(a, n, k + 1);
    }
}

/// After an Association Setup Request is taken (not refused for an older
/// Recovery Time Stamp), sending the same request again (from any source,
/// at any time) is accepted and changes nothing.
pub proof fn law_repeated_association_setup_changes_nothing(
    s: UpfView,
    h1: PfcpHeader,
    h2: PfcpHeader,
    body: Seq<u8>,
    src1: SocketAddr,
    src2: SocketAddr,
    now1: Instant,
    now2: Instant,
)
    requires
        spec_association(s, h1, body, src1, now1).1 is Ok,
        !(first_by_node(s.associations, spec_decode_association_setup(body).unwrap().node_id, 0) matches Some(i)
            && spec_decode_association_setup(body).unwrap().recovery_ts < s.associations[i].recovery_ts),
    ensures
        ({
            let s2 = spec_association(s, h1, body, src1, now1).0;
            spec_association(s2, h2, body, src2, now2) == (s2, Ok::<(Seq<u8>, Seq<UpfEffect>), UpfError>(
                (
                    spec_build_association_setup_response(h2.seq_num, s2.n3_addr, s2.recovery_ts),
                    Seq::empty(),
                ),
            ))
        }),
{
    let req = spec_decode_association_setup(body).unwrap();
    let found = first_by_node(s.associations, req.node_id, 0);
    let a = spec_new_association(req.node_id, src1, req.recovery_ts, now1);
    match found {
        Some(i) => {
            lemma_first_by_node_some(s.associations, req.node_id, 0);
            if s.associations[i].recovery_ts != req.recovery_ts {
                lemma_first_by_node_update(s.associations, req.node_id, i, a, 0);
            }
        },
        None => {
            lemma_first_by_node_none(s.associations, req.node_id, 0);
            lemma_first_by_node_push(s.associations, req.node_id, a, 0);
        },
    }
}

/// An Association Setup Request whose Recovery Time Stamp is older than
/// the one on record for its Node ID is refused with Cause = Request
/// rejected, and the association keeps its stamp, peer and sessions: only a
/// restart (a newer stamp) replaces it.
pub proof fn law_older_association_setup_refused(
    s: UpfView,
    h: PfcpHeader,
    body: Seq<u8>,
    src: SocketAddr,
    now: Instant,
)
    requires
        spec_decode_association_setup(body) matches Ok(req) && first_by_node(
            s.associations,
            req.node_id,
            0,
        ) matches Some(i) && req.recovery_ts < s.associations[i].recovery_ts,
    ensures
        spec_association(s, h, body, src, now) == (s, Ok::<(Seq<u8>, Seq<UpfEffect>), UpfError>(
            (spec_build_association_setup_rejection(h.seq_num, s.n3_addr, s.recovery_ts), Seq::empty()),
        )),
{
}

/// An Association Setup Request from an SMF whose Node ID is on record with
/// an older Recovery Time Stamp (the SMF restarted) replaces that
/// association with a fresh one, owning no session; the other associations
/// are untouched.
pub proof fn law_association_restart_replaces(
    s: UpfView,
    h: PfcpHeader,
    body: Seq<u8>,
    src: SocketAddr,
    now: Instant,
)
    requires
        spec_decode_association_setup(body) matches Ok(req) && first_by_node(
            s.associations,
            req.node_id,
            0,
        ) matches Some(i) && s.associations[i].recovery_ts < req.recovery_ts,
    ensures
        ({
            let req = spec_decode_association_setup(body).unwrap();
            let i = first_by_node(s.associations, req.node_id, 0).unwrap();
            let s2 = spec_association(s, h, body, src, now).0;
            &&& spec_association(s, h, body, src, now).1 is Ok
            &&& s2.associations.len() == s.associations.len()
            &&& s2.associations[i] == spec_new_association(req.node_id, src, req.recovery_ts, now)
            &&& s2.associations[i].sessions == Map::<u64, SessionData>::empty()
            &&& forall|j: int| 0 <= j < s.associations.len() && j != i ==> s2.associations[j] == s.associations[j]
            &&& s2.sessions == s.sessions
            &&& s2.tables == s.tables
        }),
{
    let req = spec_decode_association_setup(body).unwrap();
    lemma_first_by_node_some(s.associations, req.node_id, 0);
}

// ── Establishment followed by deletion ──────────────────────────────────

/// No entry of `m` belongs to session `seid`.
pub open spec fn no_rules_of<V>(m: Map<u64, V>, seid: u64) -> bool {
    forall|id: u32| !m.contains_key(#[trigger] rule_key(seid, id))
}

pub open spec fn pdr_keys(seid: u64, pdrs: Seq<ParsedPDR>) -> Seq<u64> {
    pdrs.map_values(|p: ParsedPDR| rule_key(seid, p.pdr_id as u32))
}

pub open spec fn far_keys(seid: u64, fars: Seq<ParsedFAR>) -> Seq<u64> {
    fars.map_values(|f: ParsedFAR| rule_key(seid, f.far_id))
}

pub open spec fn id_keys(seid: u64, ids: Seq<u32>) -> Seq<u64> {
    ids.map_values(|id: u32| rule_key(seid, id))
}

/// No two PDRs share a PDR ID.
pub open spec fn distinct_pdr_ids(pdrs: Seq<ParsedPDR>) -> bool {
    forall|a: int, b: int| 0 <= a < b < pdrs.len() ==> pdrs[a].pdr_id != pdrs[b].pdr_id
}

/// Every FAR is the FAR of some PDR.
pub open spec fn fars_referenced(pdrs: Seq<ParsedPDR>, fars: Seq<ParsedFAR>) -> bool {
    forall|j: int|
        0 <= j < fars.len() ==> exists|k: int| 0 <= k < pdrs.len() && #[trigger] pdrs[k].far_id == Some(
            #[trigger] fars[j].far_id,
        )
}

proof fn lemma_rule_key_u16(seid: u64, a: u16, b: u16)
    requires
        rule_key(seid, a as u32) == rule_key(seid, b as u32),
    ensures
        a == b,
{
    assert(((seid << 16) | (((a as u32) as u64) & 0xFFFF)) == ((seid << 16) | (((b as u32) as u64)
        & 0xFFFF)) ==> a == b) by (bit_vector);
}

proof fn lemma_insert_pdrs(m: Map<u64, PdrValue>, seid: u64, ue: Ipv4Addr, pdrs: Seq<ParsedPDR>)
    ensures
        forall|k: u64|
            #[trigger] insert_pdrs(m, seid, ue, pdrs).contains_key(k) <==> (m.contains_key(k) || pdr_keys(
                seid,
                pdrs,
            ).contains(k)),
        forall|k: u64|
            m.contains_key(k) && !pdr_keys(seid, pdrs).contains(k) ==> #[trigger] insert_pdrs(
                m,
                seid,
                ue,
                pdrs,
            )[k] == m[k],
        distinct_pdr_ids(pdrs) ==> forall|j: int|
            0 <= j < pdrs.len() ==> #[trigger] insert_pdrs(m, seid, ue, pdrs)[rule_key(
                seid,
                pdrs[j].pdr_id as u32,
            )] == spec_pdr_value(pdrs[j], ue),
    decreases pdrs.len(),
{
    if pdrs.len() > 0 {
        let init = pdrs.drop_last();
        lemma_insert_pdrs(m, seid, ue, init);
        let klast = rule_key(seid, pdrs.last().pdr_id as u32);
        let ks = pdr_keys(seid, pdrs);
        let ki = pdr_keys(seid, init);
        assert(ks =~= ki.push(klast));
        let r0 = insert_pdrs(m, seid, ue, init);
        let r = insert_pdrs(m, seid, ue, pdrs);
        assert(r == r0.insert(klast, spec_pdr_value(pdrs.last(), ue)));
        assert forall|k: u64| #[trigger] r.contains_key(k) <==> (m.contains_key(k) || ks.contains(k)) by {
            assert(r0.contains_key(k) <==> (m.contains_key(k) || ki.contains(k)));
            if ki.contains(k) {
                let w = choose|w: int| 0 <= w < ki.len() && ki[w] == k;
                assert(ks[w] == k);
            }
            if ks.contains(k) {
                let w = choose|w: int| 0 <= w < ks.len() && ks[w] == k;
                if w < init.len() {
                    assert(ki[w] == k);
                }
            }
            if k == klast {
                assert(ks[ks.len() - 1] == k);
            }
        }
        assert forall|k: u64| m.contains_key(k) && !ks.contains(k) implies #[trigger] r[k] == m[k] by {
            if ki.contains(k) {
                let w = choose|w: int| 0 <= w < ki.len() && ki[w] == k;
                assert(ks[w] == k);
            }
            assert(ks[ks.len() - 1] == klast);
            assert(r0[k] == m[k]);
        }
        if distinct_pdr_ids(pdrs) {
            assert(distinct_pdr_ids(init));
            assert forall|j: int| 0 <= j < pdrs.len() implies #[trigger] r[rule_key(seid, pdrs[j].pdr_id as u32)]
                == spec_pdr_value(pdrs[j], ue) by {
                if j < pdrs.len() - 1 {
                    assert(init[j] == pdrs[j]);
                    assert(r0[rule_key(seid, init[j].pdr_id as u32)] == spec_pdr_value(init[j], ue));
                    if rule_key(seid, pdrs[j].pdr_id as u32) == klast {
                        lemma_rule_key_u16(seid, pdrs[j].pdr_id, pdrs.last().pdr_id);
                    }
                }
            }
        }
    }
}

proof fn lemma_insert_fars(m: Map<u64, FarValue>, seid: u64, n3: Ipv4Addr, fars: Seq<ParsedFAR>)
    ensures
        forall|k: u64|
            #[trigger] insert_fars(m, seid, n3, fars).contains_key(k) <==> (m.contains_key(k) || far_keys(
                seid,
                fars,
            ).contains(k)),
        forall|k: u64|
            m.contains_key(k) && !far_keys(seid, fars).contains(k) ==> #[trigger] insert_fars(
                m,
                seid,
                n3,
                fars,
            )[k] == m[k],
    decreases fars.len(),
{
    if fars.len() > 0 {
        let init = fars.drop_last();
        lemma_insert_fars(m, seid, n3, init);
        let klast = rule_key(seid, fars.last().far_id);
        let ks = far_keys(seid, fars);
        let ki = far_keys(seid, init);
        assert(ks =~= ki.push(klast));
        let r0 = insert_fars(m, seid, n3, init);
        let r = insert_fars(m, seid, n3, fars);
        assert(r == r0.insert(klast, crate::session::spec_far_value(fars.last(), n3)));
        assert forall|k: u64| #[trigger] r.contains_key(k) <==> (m.contains_key(k) || ks.contains(k)) by {
            assert(r0.contains_key(k) <==> (m.contains_key(k) || ki.contains(k)));
            if ki.contains(k) {
                let w = choose|w: int| 0 <= w < ki.len() && ki[w] == k;
                assert(ks[w] == k);
            }
            if ks.contains(k) {
                let w = choose|w: int| 0 <= w < ks.len() && ks[w] == k;
                if w < init.len() {
                    assert(ki[w] == k);
                }
            }
            if k == klast {
                assert(ks[ks.len() - 1] == k);
            }
        }
        assert forall|k: u64| m.contains_key(k) && !ks.contains(k) implies #[trigger] r[k] == m[k] by {
            if ki.contains(k) {
                let w = choose|w: int| 0 <= w < ki.len() && ki[w] == k;
                assert(ks[w] == k);
            }
            assert(ks[ks.len() - 1] == klast);
            assert(r0[k] == m[k]);
        }
    }
}

proof fn lemma_remove_rules<V>(m: Map<u64, V>, seid: u64, ids: Seq<u32>)
    ensures
        forall|k: u64|
            #[trigger] remove_rules(m, seid, ids).contains_key(k) <==> (m.contains_key(k) && !id_keys(
                seid,
                ids,
            ).contains(k)),
        forall|k: u64| #[trigger] remove_rules(m, seid, ids).contains_key(k) ==> remove_rules(m, seid, ids)[k] == m[k],
    decreases ids.len(),
{
    if ids.len() > 0 {
        let init = ids.drop_last();
        lemma_remove_rules(m, seid, init);
        let klast = rule_key(seid, ids.last());
        let ks = id_keys(seid, ids);
        let ki = id_keys(seid, init);
        assert(ks =~= ki.push(klast));
        let r0 = remove_rules(m, seid, init);
        let r = remove_rules(m, seid, ids);
        assert(r == r0.remove(klast));
        assert forall|k: u64| #[trigger] r.contains_key(k) <==> (m.contains_key(k) && !ks.contains(k)) by {
            assert(r0.contains_key(k) <==> (m.contains_key(k) && !ki.contains(k)));
            if ki.contains(k) {
                let w = choose|w: int| 0 <= w < ki.len() && ki[w] == k;
                assert(ks[w] == k);
            }
            if ks.contains(k) {
                let w = choose|w: int| 0 <= w < ks.len() && ks[w] == k;
                if w < init.len() {
                    assert(ki[w] == k);
                }
            }
            if k == klast {
                assert(ks[ks.len() - 1] == k);
            }
        }
        assert forall|k: u64| #[trigger] r.contains_key(k) implies r[k] == m[k] by {
            assert(r0.contains_key(k));
        }
    }
}

proof fn lemma_referenced_far(m: Map<u64, PdrValue>, seid: u64, ids: Seq<u32>, q: int)
    requires
        0 <= q < ids.len(),
        m.contains_key(rule_key(seid, ids[q])),
    ensures
        referenced_far_ids(m, seid, ids).contains(m[rule_key(seid, ids[q])].far_id),
    decreases ids.len(),
{
    let init = ids.drop_last();
    let acc = referenced_far_ids(m, seid, init);
    let f = m[rule_key(seid, ids[q])].far_id;
    if q < ids.len() - 1 {
        assert(init[q] == ids[q]);
        lemma_referenced_far(m, seid, init, q);
        let w = choose|w: int| 0 <= w < acc.len() && acc[w] == f;
        let k = rule_key(seid, ids.last());
        if m.contains_key(k) && !acc.contains(m[k].far_id) {
            assert(acc.push(m[k].far_id)[w] == f);
        }
    } else {
        if acc.contains(f) {
            let w = choose|w: int| 0 <= w < acc.len() && acc[w] == f;
            assert(referenced_far_ids(m, seid, ids)[w] == f);
        } else {
            assert(referenced_far_ids(m, seid, ids)[acc.len() as int] == f);
        }
    }
}

/// Deleting a session right after establishing it, from the same SMF,
/// leaves the UPF as it was, up to the SEID and TEID counters: the session
/// records, the association, the session-map entry, and every PDR and FAR
/// entry written for it are gone again. This holds where the session's
/// SEID, its SMF SEID and its UE address were not in use, no rule of the
/// SEID was in the tables, the session has at most eight PDRs with
/// distinct IDs (the session entry lists eight), and each FAR is the FAR of
/// one of its PDRs (deletion finds FARs through the PDRs).
pub proof fn law_establish_then_delete_restores(
    s: UpfView,
    h1: PfcpHeader,
    body: Seq<u8>,
    src: SocketAddr,
    h2: PfcpHeader,
)
    requires
        spec_establishment(s, h1, body, src).1 is Ok,
        h2.seid == Some(s.next_seid),
        ({
            let req = spec_decode_session_establishment(body).unwrap();
            let i = first_by_peer(s.associations, src, 0).unwrap();
            let ue = first_ue_ip(req.create_pdrs, 0).unwrap();
            &&& !s.sessions.contains_key(s.next_seid)
            &&& !s.associations[i].sessions.contains_key(req.cp_seid)
            &&& !s.tables.session_map.contains_key(ue.bits)
            &&& no_rules_of(s.tables.pdr_map, s.next_seid)
            &&& no_rules_of(s.tables.far_map, s.next_seid)
            &&& req.create_pdrs.len() <= 8
            &&& distinct_pdr_ids(req.create_pdrs)
            &&& fars_referenced(req.create_pdrs, req.create_fars)
        }),
    ensures
        ({
            let s2 = spec_establishment(s, h1, body, src).0;
            let (s3, res) = spec_deletion(s2, h2, src);
            &&& res is Ok
            &&& s3 == (UpfView { next_seid: (s.next_seid + 1) as u64, next_teid: (s.next_teid + 1) as u32, ..s })
        }),
{
    let req = spec_decode_session_establishment(body).unwrap();
    let i = first_by_peer(s.associations, src, 0).unwrap();
    lemma_first_by_peer_found(s.associations, src, i);
    let ue = first_ue_ip(req.create_pdrs, 0).unwrap();
    let seid = s.next_seid;
    let pdrs = req.create_pdrs;
    let fars = req.create_fars;
    let s2 = spec_establishment(s, h1, body, src).0;
    let a = s.associations[i];
    // The same association answers for `src` after the establishment.
    lemma_first_by_peer_update(s.associations, src, i, s2.associations[i], 0);
    assert(first_by_peer(s2.associations, src, 0) == Some(i));
    let d = s2.sessions[seid];
    assert(s2.associations[i].sessions.contains_key(d.cp_seid));
    // The PDR IDs that the new session entry lists are those of its PDRs.
    let ids = listed_pdr_ids(s2.tables.session_map, ue.bits);
    assert(ids =~= pdrs.map_values(|p: ParsedPDR| p.pdr_id as u32));
    assert(id_keys(seid, ids) =~= pdr_keys(seid, pdrs));
    let (s3, res) = spec_deletion(s2, h2, src);
    let pm2 = s2.tables.pdr_map;
    let far_ids = referenced_far_ids(pm2, seid, ids);
    lemma_insert_pdrs(s.tables.pdr_map, seid, ue, pdrs);
    lemma_insert_fars(s.tables.far_map, seid, s.n3_addr, fars);
    lemma_remove_rules(pm2, seid, ids);
    lemma_remove_rules(s2.tables.far_map, seid, far_ids);
    // PDR entries.
    assert forall|k: u64| #[trigger] s3.tables.pdr_map.contains_key(k) <==> s.tables.pdr_map.contains_key(k) by {
        if pdr_keys(seid, pdrs).contains(k) {
            let w = choose|w: int| 0 <= w < pdr_keys(seid, pdrs).len() && pdr_keys(seid, pdrs)[w] == k;
            assert(k == rule_key(seid, pdrs[w].pdr_id as u32));
        }
    }
    assert(s3.tables.pdr_map =~= s.tables.pdr_map);
    // FAR entries: each one written is reached through a PDR.
    assert forall|k: u64| #[trigger] far_keys(seid, fars).contains(k) implies id_keys(seid, far_ids).contains(k) by {
        let w = choose|w: int| 0 <= w < far_keys(seid, fars).len() && far_keys(seid, fars)[w] == k;
        assert(fars[w].far_id == fars[w].far_id);
        let p = choose|p: int| 0 <= p < pdrs.len() && #[trigger] pdrs[p].far_id == Some(#[trigger] fars[w].far_id);
        assert(pdr_keys(seid, pdrs)[p] == rule_key(seid, pdrs[p].pdr_id as u32));
        assert(ids[p] == pdrs[p].pdr_id as u32);
        assert(pm2[rule_key(seid, ids[p])] == spec_pdr_value(pdrs[p], ue));
        lemma_referenced_far(pm2, seid, ids, p);
        let q = choose|q: int| 0 <= q < far_ids.len() && far_ids[q] == fars[w].far_id;
        assert(id_keys(seid, far_ids)[q] == k);
    }
    assert forall|k: u64| #[trigger] s3.tables.far_map.contains_key(k) <==> s.tables.far_map.contains_key(k) by {
        if s.tables.far_map.contains_key(k) && id_keys(seid, far_ids).contains(k) {
            let w = choose|w: int| 0 <= w < id_keys(seid, far_ids).len() && id_keys(seid, far_ids)[w] == k;
            assert(k == rule_key(seid, far_ids[w]));
        }
        if s.tables.far_map.contains_key(k) && far_keys(seid, fars).contains(k) {
            let w = choose|w: int| 0 <= w < far_keys(seid, fars).len() && far_keys(seid, fars)[w] == k;
            assert(k == rule_key(seid, fars[w].far_id));
        }
    }
    assert(s3.tables.far_map =~= s.tables.far_map);
    assert(s3.tables.session_map =~= s.tables.session_map);
    assert(s3.sessions =~= s.sessions);
    assert(s3.associations[i].sessions =~= a.sessions);
    assert(s3.associations =~= s.associations);
}

proof fn lemma_first_by_peer_update(a: Seq<AssociationView>, src: SocketAddr, i: int, x: AssociationView, k: int)
    requires
        0 <= k,
        0 <= i < a.len(),
        x.peer_addr == a[i].peer_addr,
    ensures
        first_by_peer(a.update(i, x), src, k) == first_by_peer(a, src, k),
    decreases a.len() - k,
{
    if k < a.len() {
        lemma_first_by_peer_update(a, src, i, x, k + 1);
    }
}


// ── What a modification does to the FAR entries ────────────────────────

/// The FAR map keeps every key it had, and the effects so far stay in
/// front, whatever Update FARs follow.
proof fn lemma_updates_grow(t: ModState, seid: u64, ue: u32, fars: Seq<ParsedFAR>, k: u64)
    ensures
        t.far_map.contains_key(k) ==> apply_updates(t, seid, ue, fars).far_map.contains_key(k),
        apply_updates(t, seid, ue, fars).effects.len() >= t.effects.len(),
        forall|i: int|
            0 <= i < t.effects.len() ==> #[trigger] apply_updates(t, seid, ue, fars).effects[i]
                == t.effects[i],
    decreases fars.len(),
{
    if fars.len() > 0 {
        lemma_updates_grow(t, seid, ue, fars.drop_last(), k);
    }
}

/// The effect list holds a FAR map write of key `k` that sends to `o`.
pub open spec fn writes_far_to(effects: Seq<UpfEffect>, k: u64, o: crate::ie::OuterHeaderCreation) -> bool {
    exists|i: int|
        0 <= i < effects.len() && (#[trigger] effects[i] matches UpfEffect::FarMapInsert { key, value }
            && key.key == k && value.teid == o.teid && value.gnb_ip == o.peer_addr.bits)
}

proof fn lemma_update_sticks(t: ModState, seid: u64, ue: u32, fars: Seq<ParsedFAR>, j: int, n: int)
    requires
        0 <= j < n <= fars.len(),
        fars[j].outer_header_creation is Some,
        t.far_map.contains_key(rule_key(seid, fars[j].far_id)),
        forall|m: int|
            j < m < fars.len() && (#[trigger] fars[m]).outer_header_creation is Some ==> rule_key(
                seid,
                fars[m].far_id,
            ) != rule_key(seid, fars[j].far_id),
    ensures
        ({
            let r = apply_updates(t, seid, ue, fars.take(n));
            let k = rule_key(seid, fars[j].far_id);
            let o = fars[j].outer_header_creation->Some_0;
            &&& r.far_map.contains_key(k)
            &&& r.far_map[k].teid == o.teid
            &&& r.far_map[k].gnb_ip == o.peer_addr.bits
            &&& writes_far_to(r.effects, k, o)
        }),
    decreases n,
{
    let k = rule_key(seid, fars[j].far_id);
    let o = fars[j].outer_header_creation->Some_0;
    assert(fars.take(n).drop_last() =~= fars.take(n - 1));
    assert(fars.take(n).last() == fars[n - 1]);
    let p = apply_updates(t, seid, ue, fars.take(n - 1));
    let r = apply_update(p, seid, ue, fars[n - 1]);
    assert(apply_updates(t, seid, ue, fars.take(n)) == r);
    if n == j + 1 {
        lemma_updates_grow(t, seid, ue, fars.take(n - 1), k);
        assert(p.far_map.contains_key(k));
        let v = FarValue { gnb_ip: o.peer_addr.bits, teid: o.teid, ..p.far_map[k] };
        let i = p.effects.len() as int;
        assert(r.effects[i] == UpfEffect::FarMapInsert { key: crate::dataplane::FarKey { key: k }, value: v });
        assert(writes_far_to(r.effects, k, o));
    } else {
        lemma_update_sticks(t, seid, ue, fars, j, n - 1);
        let f = fars[n - 1];
        assert(writes_far_to(p.effects, k, o));
        let w = choose|i: int|
            0 <= i < p.effects.len() && (#[trigger] p.effects[i] matches UpfEffect::FarMapInsert { key, value }
                && key.key == k && value.teid == o.teid && value.gnb_ip == o.peer_addr.bits);
        lemma_updates_grow(p, seid, ue, seq![f], k);
        assert(seq![f].drop_last() =~= Seq::<ParsedFAR>::empty());
        assert(apply_updates(p, seid, ue, Seq::<ParsedFAR>::empty()) == p);
        assert(seq![f].last() == f);
        assert(apply_updates(p, seid, ue, seq![f]) == r);
        assert(r.effects[w] == p.effects[w]);
        assert(writes_far_to(r.effects, k, o));
    }
}

/// After an accepted Session Modification, an Update FAR that carries an
/// Outer Header Creation and names an existing FAR entry of the session
/// leaves that entry sending to the new peer address with the new TEID,
/// and the effects hold a FAR map write that says so; only a later Update
/// FAR with an Outer Header Creation for the same entry can change it.
pub proof fn law_modification_retargets_far_entry(
    s: UpfView,
    header: PfcpHeader,
    body: Seq<u8>,
    src: SocketAddr,
    j: int,
)
    requires
        spec_modification(s, header, body, src).1 is Ok,
        spec_decode_session_modification(body) is Ok,
        header.seid is Some,
        0 <= j < spec_decode_session_modification(body)->Ok_0.len(),
        spec_decode_session_modification(body)->Ok_0[j].outer_header_creation is Some,
        s.tables.far_map.contains_key(
            rule_key(header.seid->Some_0, spec_decode_session_modification(body)->Ok_0[j].far_id),
        ),
        forall|m: int|
            j < m < spec_decode_session_modification(body)->Ok_0.len() && (
            #[trigger] spec_decode_session_modification(body)->Ok_0[m]).outer_header_creation is Some
                ==> rule_key(header.seid->Some_0, spec_decode_session_modification(body)->Ok_0[m].far_id)
                != rule_key(header.seid->Some_0, spec_decode_session_modification(body)->Ok_0[j].far_id),
    ensures
        ({
            let (s2, res) = spec_modification(s, header, body, src);
            let f = spec_decode_session_modification(body)->Ok_0[j];
            let o = f.outer_header_creation->Some_0;
            let k = rule_key(header.seid->Some_0, f.far_id);
            &&& s2.tables.far_map.contains_key(k)
            &&& s2.tables.far_map[k].teid == o.teid
            &&& s2.tables.far_map[k].gnb_ip == o.peer_addr.bits
            &&& res matches Ok((_, effects)) && writes_far_to(effects, k, o)
        }),
{
    let fars = spec_decode_session_modification(body)->Ok_0;
    let seid = header.seid->Some_0;
    let d = s.sessions[seid];
    let t0 = ModState {
        far_map: s.tables.far_map,
        session_map: s.tables.session_map,
        sessions: s.sessions,
        effects: Seq::empty(),
    };
    lemma_update_sticks(t0, seid, d.ue_ip.bits, fars, j, fars.len() as int);
    assert(fars.take(fars.len() as int) =~= fars);
}

// ── What an establishment reports back ─────────────────────────────────

/// The Created PDRs that a Session Establishment Response reports are the
/// request's PDRs whose source is the access side, all of them and no
/// other, in the request's order, each with the session's TEID and the N3
/// address.
pub proof fn law_created_pdrs_are_access_pdrs(pdrs: Seq<ParsedPDR>, teid: u32, n3: Ipv4Addr)
    ensures
        created_of(pdrs, teid, n3) == pdrs.filter(|p: ParsedPDR| p.source_interface == INTERFACE_ACCESS)
            .map_values(|p: ParsedPDR| (p.pdr_id, teid, n3)),
    decreases pdrs.len(),
{
    reveal(Seq::filter);
    let pred = |p: ParsedPDR| p.source_interface == INTERFACE_ACCESS;
    let f = |p: ParsedPDR| (p.pdr_id, teid, n3);
    if pdrs.len() == 0 {
        assert(pdrs.filter(pred).map_values(f) =~= Seq::<(u16, u32, Ipv4Addr)>::empty());
    } else {
        law_created_pdrs_are_access_pdrs(pdrs.drop_last(), teid, n3);
        let sub = pdrs.drop_last().filter(pred);
        if pred(pdrs.last()) {
            assert(pdrs.filter(pred) == sub.push(pdrs.last()));
            assert(sub.push(pdrs.last()).map_values(f) =~= sub.map_values(f).push(f(pdrs.last())));
        } else {
            assert(pdrs.filter(pred) == sub);
        }
    }
}


/// An accepted Session Establishment Response carries, as its Created PDRs,
/// the request's access-side PDRs in order, each with the TEID the session
/// was given and the UPF's N3 address.
pub proof fn law_establishment_reports_access_pdrs(s: UpfView, header: PfcpHeader, body: Seq<u8>, src: SocketAddr)
    requires
        spec_establishment(s, header, body, src).1 is Ok,
    ensures
        ({
            let req = spec_decode_session_establishment(body)->Ok_0;
            spec_establishment(s, header, body, src).1->Ok_0.0
                == crate::builder::spec_build_session_establishment_response(
                header.seq_num,
                req.cp_seid,
                s.next_seid,
                s.n3_addr,
                req.create_pdrs.filter(|p: ParsedPDR| p.source_interface == INTERFACE_ACCESS).map_values(
                    |p: ParsedPDR| (p.pdr_id, s.next_teid, s.n3_addr),
                ),
            )
        }),
{
    let req = spec_decode_session_establishment(body)->Ok_0;
    law_created_pdrs_are_access_pdrs(req.create_pdrs, s.next_teid, s.n3_addr);
}


/// Whether one of `fars` carries an Outer Header Creation for the FAR
/// entry with key `k` of session `seid`.
pub open spec fn retargets(seid: u64, fars: Seq<ParsedFAR>, k: u64) -> bool {
    exists|j: int|
        0 <= j < fars.len() && (#[trigger] fars[j]).outer_header_creation is Some && rule_key(
            seid,
            fars[j].far_id,
        ) == k
}

proof fn lemma_updates_frame(t: ModState, seid: u64, ue: u32, fars: Seq<ParsedFAR>)
    ensures
        ({
            let r = apply_updates(t, seid, ue, fars);
            &&& r.far_map.dom() == t.far_map.dom()
            &&& forall|k: u64|
                #![trigger r.far_map[k]]
                t.far_map.contains_key(k) ==> {
                    &&& r.far_map[k].apply_action == t.far_map[k].apply_action
                    &&& r.far_map[k].dst_interface == t.far_map[k].dst_interface
                    &&& r.far_map[k].upf_n3_ip == t.far_map[k].upf_n3_ip
                    &&& (!retargets(seid, fars, k) ==> r.far_map[k] == t.far_map[k])
                }
        }),
    decreases fars.len(),
{
    if fars.len() > 0 {
        let pre = fars.drop_last();
        lemma_updates_frame(t, seid, ue, pre);
        let p = apply_updates(t, seid, ue, pre);
        let r = apply_updates(t, seid, ue, fars);
        let f = fars.last();
        assert(r == apply_update(p, seid, ue, f));
        assert(r.far_map.dom() =~= t.far_map.dom());
        assert forall|k: u64| #![trigger r.far_map[k]] t.far_map.contains_key(k) implies {
            &&& r.far_map[k].apply_action == t.far_map[k].apply_action
            &&& r.far_map[k].dst_interface == t.far_map[k].dst_interface
            &&& r.far_map[k].upf_n3_ip == t.far_map[k].upf_n3_ip
            &&& (!retargets(seid, fars, k) ==> r.far_map[k] == t.far_map[k])
        } by {
            assert(p.far_map[k] == p.far_map[k]);
            if !retargets(seid, fars, k) {
                if retargets(seid, pre, k) {
                    let j = choose|j: int|
                        0 <= j < pre.len() && (#[trigger] pre[j]).outer_header_creation is Some && rule_key(
                            seid,
                            pre[j].far_id,
                        ) == k;
                    assert(fars[j] == pre[j]);
                }
                if f.outer_header_creation is Some && rule_key(seid, f.far_id) == k {
                    assert(fars[fars.len() - 1] == f);
                }
            }
        }
    }
}

/// An accepted Session Modification changes the FAR entries of the session
/// only where an Update FAR carries an Outer Header Creation for them, and
/// there only their tunnel (peer address and TEID): it adds and removes no
/// FAR entry, keeps every entry's action, interface and N3 address, and
/// leaves the PDR map and the associations as they were.
pub proof fn law_modification_touches_only_retargeted_fars(
    s: UpfView,
    header: PfcpHeader,
    body: Seq<u8>,
    src: SocketAddr,
)
    requires
        spec_modification(s, header, body, src).1 is Ok,
    ensures
        ({
            let s2 = spec_modification(s, header, body, src).0;
            let fars = spec_decode_session_modification(body)->Ok_0;
            let seid = header.seid->Some_0;
            &&& s2.tables.far_map.dom() == s.tables.far_map.dom()
            &&& forall|k: u64|
                #![trigger s2.tables.far_map[k]]
                s.tables.far_map.contains_key(k) ==> {
                    &&& s2.tables.far_map[k].apply_action == s.tables.far_map[k].apply_action
                    &&& s2.tables.far_map[k].dst_interface == s.tables.far_map[k].dst_interface
                    &&& s2.tables.far_map[k].upf_n3_ip == s.tables.far_map[k].upf_n3_ip
                    &&& (!retargets(seid, fars, k) ==> s2.tables.far_map[k] == s.tables.far_map[k])
                }
            &&& s2.tables.pdr_map == s.tables.pdr_map
            &&& s2.associations == s.associations
        }),
{
    let fars = spec_decode_session_modification(body)->Ok_0;
    let seid = header.seid->Some_0;
    let d = s.sessions[seid];
    let t0 = ModState {
        far_map: s.tables.far_map,
        session_map: s.tables.session_map,
        sessions: s.sessions,
        effects: Seq::empty(),
    };
    lemma_updates_frame(t0, seid, d.ue_ip.bits, fars);
}

} // verus!
