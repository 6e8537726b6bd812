//! The UPF's PFCP control plane: association management, the session state
//! machine, and the rule tables it writes for the data plane.
//!
//! Each handler is a verified function from the server state and a message
//! to the next state, a response and the effects that the caller carries
//! out (writing the kernel maps, installing routes, persisting sessions,
//! informing the TUI).
use vstd::prelude::*;
use std::collections::HashMap;
use std::time::Instant;
use crate::association::{
    spec_new_association, AssociationState, AssociationView, HeartbeatTracker, SessionData,
    SmfAssociation,
};
use crate::builder::{
    build_association_setup_rejection, build_association_setup_response, build_heartbeat_request,
    build_heartbeat_response, spec_build_association_setup_rejection, spec_build_association_setup_response,
    spec_build_heartbeat_request, spec_build_heartbeat_response,
};
use crate::clock::{
    elapsed_millis, instant_now, ntp_from_unix, spec_ntp_from_unix, unix_time_secs, NTP_UNIX_OFFSET,
};
use crate::dataplane::{
    FarKey, FarValue, MacAddr, PdrKey, PdrValue, RuleTables, RuleTablesView, SessionInfo, SessionKey,
};
use crate::dict::{spec_validate, validate};
use crate::header::{spec_decode, PfcpError, PfcpHeader};
use crate::messages::{
    spec_decode_association_setup, spec_optional_recovery_ts, AssociationSetupReq, HeartbeatReq,
    SessionEstablishmentReq,
};
use crate::net::{Ipv4Addr, SocketAddr};
use crate::session::{establishment_allocates, spec_deletion, spec_establishment, spec_modification};
use crate::types::{
    PFCP_ASSOCIATION_SETUP_REQ, PFCP_HEARTBEAT_REQ, PFCP_PORT, PFCP_SESSION_DELETION_REQ,
    PFCP_SESSION_ESTABLISHMENT_REQ, PFCP_SESSION_MODIFICATION_REQ,
};

verus! {

broadcast use vstd::std_specs::hash::group_hash_axioms;


/// Short notes for the operator's log.
#[derive(Clone, Copy, Debug, PartialEq, Eq, Structural)]
pub enum TuiNote {
    AssociationEstablished,
    HeartbeatResponse { seq: u32 },
    SessionAdded { ue_ip: Ipv4Addr, seid: u64 },
    SessionDeleted { seid: u64 },
}

/// What the caller of a handler is to do, in order.
#[derive(Clone, Copy, Debug)]
pub enum UpfEffect {
    /// Write `info` under `key` in the kernel SESSION_MAP.
    SessionMapInsert { key: SessionKey, info: SessionInfo },
    SessionMapRemove { key: SessionKey },
    PdrMapInsert { key: PdrKey, value: PdrValue },
    PdrMapRemove { key: PdrKey },
    FarMapInsert { key: FarKey, value: FarValue },
    FarMapRemove { key: FarKey },
    /// Install the host route and neighbour entry of a UE.
    SetupUeRoute { ue_ip: Ipv4Addr },
    TeardownUeRoute { ue_ip: Ipv4Addr },
    /// Persist a session.
    StoreSave { seid: u64, data: SessionData },
    StoreDelete { seid: u64 },
    TuiLog(TuiNote),
    TuiAssociationChanged(bool),
    TuiHeartbeatUpdated,
    /// The session list changed.
    TuiSessionsUpdated,
}

/// Why a message was not handled.
#[derive(Clone, Copy, Debug, PartialEq, Eq, Structural)]
pub enum UpfError {
    Pfcp(PfcpError),
    /// The message came from an IPv6 source.
    NonIpv4Source,
    /// No association has the message's source as its peer.
    NoAssociation(SocketAddr),
    /// The association of the source does not own the session.
    OwnershipViolation { cp_seid: u64 },
    UnknownSeid(u64),
    /// A session message without SEID.
    MissingSeid,
    /// No Create PDR carries a UE IP address.
    NoUeIp,
    /// No Create FAR carries an Outer Header Creation.
    NoOuterHeaderCreation,
    /// A request type that the UPF does not handle.
    Unhandled(u8),
}

/// A response to send back (empty: send nothing) and the effects to carry out.
pub struct Reply {
    pub response: Vec<u8>,
    pub effects: Vec<UpfEffect>,
}

impl View for Reply {
    type V = (Seq<u8>, Seq<UpfEffect>);

    open spec fn view(&self) -> (Seq<u8>, Seq<UpfEffect>) {
        (self.response@, self.effects@)
    }
}

/// PFCP server state.
pub struct PfcpServer {
    /// N4 interface (PFCP) address of the UPF
    pub n4_addr: Ipv4Addr,
    /// N3 interface (GTP-U) address of the UPF
    pub n3_addr: Ipv4Addr,
    /// Recovery time stamp (NTP)
    pub recovery_ts: u32,
    pub associated: bool,
    pub next_seid: u64,
    pub next_teid: u32,
    /// Sessions by local SEID.
    pub sessions: HashMap<u64, SessionData>,
    /// SMF address learned during association.
    pub peer_addr: Option<SocketAddr>,
    /// When a PFCP message was last received or sent.
    pub last_activity: Instant,
    pub smf_recovery_ts: Option<u32>,
    /// The associations, at most one per SMF Node ID.
    pub associations: Vec<SmfAssociation>,
    /// The rule tables that the data plane reads.
    pub tables: RuleTables,
}

pub struct UpfView {
    pub n4_addr: Ipv4Addr,
    pub n3_addr: Ipv4Addr,
    pub recovery_ts: u32,
    pub associated: bool,
    pub next_seid: u64,
    pub next_teid: u32,
    pub sessions: Map<u64, SessionData>,
    pub peer_addr: Option<SocketAddr>,
    pub last_activity: Instant,
    pub smf_recovery_ts: Option<u32>,
    pub associations: Seq<AssociationView>,
    pub tables: RuleTablesView,
}

pub open spec fn assoc_views(a: Seq<SmfAssociation>) -> Seq<AssociationView> {
    a.map_values(|x: SmfAssociation| x@)
}

impl View for PfcpServer {
    type V = UpfView;

    open spec fn view(&self) -> UpfView {
        UpfView {
            n4_addr: self.n4_addr,
            n3_addr: self.n3_addr,
            recovery_ts: self.recovery_ts,
            associated: self.associated,
            next_seid: self.next_seid,
            next_teid: self.next_teid,
            sessions: self.sessions@,
            peer_addr: self.peer_addr,
            last_activity: self.last_activity,
            smf_recovery_ts: self.smf_recovery_ts,
            associations: assoc_views(self.associations@),
            tables: self.tables@,
        }
    }
}

/// The index of the first association, from `i` on, whose peer is `src`.
pub open spec fn first_by_peer(a: Seq<AssociationView>, src: SocketAddr, i: int) -> Option<int>
    decreases a.len() - i,
{
    if i < 0 || i >= a.len() {
        None
    } else if a[i].peer_addr == src {
        Some(i)
    } else {
        first_by_peer(a, src, i + 1)
    }
}

/// The index of the first association, from `i` on, with Node ID `node`.
pub open spec fn first_by_node(a: Seq<AssociationView>, node: Ipv4Addr, i: int) -> Option<int>
    decreases a.len() - i,
{
    if i < 0 || i >= a.len() {
        None
    } else if a[i].node_id == node {
        Some(i)
    } else {
        first_by_node(a, node, i + 1)
    }
}

pub proof fn lemma_first_by_peer_found(a: Seq<AssociationView>, src: SocketAddr, i: int)
    requires
        first_by_peer(a, src, 0) matches Some(k) && k == i,
    ensures
        0 <= i < a.len(),
        a[i].peer_addr == src,
        forall|j: int| 0 <= j < i ==> a[j].peer_addr != src,
{
    lemma_first_by_peer_from(a, src, 0);
}

proof fn lemma_first_by_peer_from(a: Seq<AssociationView>, src: SocketAddr, k: int)
    requires
        0 <= k,
    ensures
        first_by_peer(a, src, k) matches Some(i) ==> (k <= i < a.len() && a[i].peer_addr == src
            && forall|j: int| k <= j < i ==> a[j].peer_addr != src),
    decreases a.len() - k,
{
    if k < a.len() && a[k].peer_addr != src {
        lemma_first_by_peer_from(a, src, k + 1);
    }
}

proof fn lemma_first_by_node_from(a: Seq<AssociationView>, node: Ipv4Addr, k: int)
    requires
        0 <= k,
    ensures
        first_by_node(a, node, k) matches Some(i) ==> (k <= i < a.len() && a[i].node_id == node
            && forall|j: int| k <= j < i ==> a[j].node_id != node),
    decreases a.len() - k,
{
    if k < a.len() && a[k].node_id != node {
        lemma_first_by_node_from(a, node, k + 1);
    }
}

/// The association after a Heartbeat Request from its peer carrying the
/// Recovery Time Stamp `recv`: a different stamp means the SMF restarted,
/// and the sessions it owned are forgotten.
pub open spec fn spec_heartbeat_seen(a: AssociationView, recv: u32, now: Instant) -> AssociationView {
    AssociationView {
        sessions: if a.recovery_ts != recv {
            Map::empty()
        } else {
            a.sessions
        },
        recovery_ts: recv,
        last_activity: now,
        heartbeat: HeartbeatTracker { last_response: Some(now), consecutive_failures: 0, ..a.heartbeat },
        ..a
    }
}

/// The state after a Heartbeat Request with body `body` from `src`.
pub open spec fn spec_heartbeat_state(s: UpfView, body: Seq<u8>, src: SocketAddr, now: Instant) -> UpfView {
    match (src, first_by_peer(s.associations, src, 0), spec_optional_recovery_ts(body)) {
        (SocketAddr::V4 { .. }, Some(i), Some(recv)) => UpfView {
            associations: s.associations.update(i, spec_heartbeat_seen(s.associations[i], recv, now)),
            ..s
        },
        _ => s,
    }
}

pub open spec fn spec_heartbeat_reply(s: UpfView, header: PfcpHeader) -> (Seq<u8>, Seq<UpfEffect>) {
    (
        spec_build_heartbeat_response(header.seq_num, s.recovery_ts),
        seq![UpfEffect::TuiHeartbeatUpdated, UpfEffect::TuiLog(TuiNote::HeartbeatResponse { seq: header.seq_num })],
    )
}

/// The state and reply after an Association Setup Request from `src`. A
/// request that repeats the Recovery Time Stamp of the association of its
/// Node ID is accepted and changes nothing; one with an older stamp is
/// refused (Cause = Request rejected) and changes nothing; one with a newer
/// stamp (the SMF restarted), or from a Node ID not on record, replaces that
/// association (or adds one) with a fresh association, owning no session.
pub open spec fn spec_association(
    s: UpfView,
    header: PfcpHeader,
    body: Seq<u8>,
    src: SocketAddr,
    now: Instant,
) -> (UpfView, Result<(Seq<u8>, Seq<UpfEffect>), UpfError>) {
    match spec_decode_association_setup(body) {
        Err(e) => (s, Err(UpfError::Pfcp(e))),
        Ok(req) => {
            let resp = spec_build_association_setup_response(header.seq_num, s.n3_addr, s.recovery_ts);
            let found = first_by_node(s.associations, req.node_id, 0);
            if found matches Some(i) && s.associations[i].recovery_ts == req.recovery_ts {
                (s, Ok((resp, Seq::empty())))
            } else if found matches Some(i) && req.recovery_ts < s.associations[i].recovery_ts {
                (
                    s,
                    Ok(
                        (
                            spec_build_association_setup_rejection(header.seq_num, s.n3_addr, s.recovery_ts),
                            Seq::empty(),
                        ),
                    ),
                )
            } else {
                let a = spec_new_association(req.node_id, src, req.recovery_ts, now);
                let assocs = match found {
                    Some(i) => s.associations.update(i, a),
                    None => s.associations.push(a),
                };
                (
                    UpfView {
                        associations: assocs,
                        peer_addr: Some(SocketAddr::V4 { ip: req.node_id, port: PFCP_PORT }),
                        ..s
                    },
                    Ok(
                        (
                            resp,
                            seq![
                                UpfEffect::TuiLog(TuiNote::AssociationEstablished),
                                UpfEffect::TuiAssociationChanged(true),
                            ],
                        ),
                    ),
                )
            }
        },
    }
}

impl PfcpServer {
    /// A server with no association and no session, whose Recovery Time
    /// Stamp is the NTP form of `unix_secs` and whose link was last active
    /// at `now`.
    pub fn started_at(n4_addr: Ipv4Addr, n3_addr: Ipv4Addr, unix_secs: u64, now: Instant) -> (r: Self)
        ensures
            r@.n4_addr == n4_addr,
            r@.n3_addr == n3_addr,
            r@.recovery_ts == spec_ntp_from_unix(unix_secs, NTP_UNIX_OFFSET),
            !r@.associated,
            r@.next_seid == 1,
            r@.next_teid == 1000,
            r@.sessions == Map::<u64, SessionData>::empty(),
            r@.peer_addr is None,
            r@.last_activity == now,
            r@.smf_recovery_ts is None,
            r@.associations == Seq::<AssociationView>::empty(),
            r@.tables.session_map == Map::<u32, SessionInfo>::empty(),
            r@.tables.pdr_map == Map::<u64, PdrValue>::empty(),
            r@.tables.far_map == Map::<u64, FarValue>::empty(),
    {
        let zero_mac = MacAddr { addr: [0u8; 6] };
        Self {
            n4_addr,
            n3_addr,
            recovery_ts: ntp_from_unix(unix_secs, NTP_UNIX_OFFSET),
            associated: false,
            next_seid: 1,
            next_teid: 1000,
            sessions: HashMap::new(),
            peer_addr: None,
            last_activity: now,
            smf_recovery_ts: None,
            associations: Vec::new(),
            tables: RuleTables::new([zero_mac, zero_mac], [0u32, 0u32]),
        }
    }

    /// A server started now: as `started_at` with the clocks' readings.
    /// Whatever they read, the Recovery Time Stamp is the NTP form of some
    /// Unix time.
    pub fn new(n4_addr: Ipv4Addr, n3_addr: Ipv4Addr) -> (r: Self)
        ensures
            r@.n4_addr == n4_addr,
            r@.n3_addr == n3_addr,
            exists|u: u64| r@.recovery_ts == #[trigger] spec_ntp_from_unix(u, NTP_UNIX_OFFSET),
            !r@.associated,
            r@.next_seid == 1,
            r@.next_teid == 1000,
            r@.sessions == Map::<u64, SessionData>::empty(),
            r@.peer_addr is None,
            r@.smf_recovery_ts is None,
            r@.associations == Seq::<AssociationView>::empty(),
            r@.tables.session_map == Map::<u32, SessionInfo>::empty(),
            r@.tables.pdr_map == Map::<u64, PdrValue>::empty(),
            r@.tables.far_map == Map::<u64, FarValue>::empty(),
    {
        let unix_now = unix_time_secs();
        let r = Self::started_at(n4_addr, n3_addr, unix_now, instant_now());
        proof {
            let _ = spec_ntp_from_unix(unix_now, NTP_UNIX_OFFSET);
        }
        r
    }

    pub fn alloc_seid(&mut self) -> (s: u64)
        requires
            old(self).next_seid < u64::MAX,
        ensures
            s == old(self).next_seid,
            final(self)@ == (UpfView { next_seid: (s + 1) as u64, ..old(self)@ }),
    {
        let s = self.next_seid;
        self.next_seid += 1;
        s
    }

    pub fn alloc_teid(&mut self) -> (t: u32)
        requires
            old(self).next_teid < u32::MAX,
        ensures
            t == old(self).next_teid,
            final(self)@ == (UpfView { next_teid: (t + 1) as u32, ..old(self)@ }),
    {
        let t = self.next_teid;
        self.next_teid += 1;
        t
    }

    /// Sessions restored from the session store at start-up.
    pub fn restore_sessions(&mut self, restored: Vec<(u64, SessionData)>)
        ensures
            final(self)@ == (UpfView { sessions: restore_into(old(self)@.sessions, restored@), ..old(self)@ }),
    {
        let mut i: usize = 0;
        while i < restored.len()
            invariant
                0 <= i <= restored@.len(),
                self@ == (UpfView { sessions: restore_into(old(self)@.sessions, restored@.take(i as int)), ..old(self)@ }),
            decreases restored@.len() - i,
        {
            let (seid, data) = restored[i];
            self.sessions.insert(seid, data);
            proof {
                assert(restored@.take(i + 1).drop_last() =~= restored@.take(i as int));
            }
            i += 1;
        }
        assert(restored@.take(restored@.len() as int) =~= restored@);
    }

    /// The index of the first association whose peer is `src`.
    pub(crate) fn find_by_peer(&self, src: &SocketAddr) -> (r: Option<usize>)
        ensures
            match r {
                Some(j) => j < self.associations@.len() && first_by_peer(self@.associations, *src, 0) == Some(j as int),
                None => first_by_peer(self@.associations, *src, 0) is None,
            },
    {
        proof {
            lemma_first_by_peer_from(self@.associations, *src, 0);
        }
        let mut i: usize = 0;
        while i < self.associations.len()
            invariant
                0 <= i <= self.associations@.len(),
                first_by_peer(self@.associations, *src, 0) == first_by_peer(self@.associations, *src, i as int),
            decreases self.associations@.len() - i,
        {
            if self.associations[i].peer_addr.same(src) {
                return Some(i);
            }
            i += 1;
        }
        None
    }

    /// The index of the first association with Node ID `node`.
    pub(crate) fn find_by_node(&self, node: Ipv4Addr) -> (r: Option<usize>)
        ensures
            match r {
                Some(j) => j < self.associations@.len() && first_by_node(self@.associations, node, 0) == Some(j as int),
                None => first_by_node(self@.associations, node, 0) is None,
            },
    {
        proof {
            lemma_first_by_node_from(self@.associations, node, 0);
        }
        let mut i: usize = 0;
        while i < self.associations.len()
            invariant
                0 <= i <= self.associations@.len(),
                first_by_node(self@.associations, node, 0) == first_by_node(self@.associations, node, i as int),
            decreases self.associations@.len() - i,
        {
            if self.associations[i].node_id.bits == node.bits {
                return Some(i);
            }
            i += 1;
        }
        None
    }

    pub(crate) fn take_association(&mut self, i: usize) -> (a: SmfAssociation)
        requires
            i < old(self).associations@.len(),
        ensures
            a@ == old(self)@.associations[i as int],
            final(self).associations@.len() == old(self).associations@.len() - 1,
            final(self)@ == (UpfView { associations: old(self)@.associations.remove(i as int), ..old(self)@ }),
    {
        let a = self.associations.remove(i);
        assert(assoc_views(self.associations@) =~= assoc_views(old(self).associations@).remove(i as int));
        a
    }

    pub(crate) fn put_association(&mut self, i: usize, a: SmfAssociation)
        requires
            i <= old(self).associations@.len(),
        ensures
            final(self).associations@.len() == old(self).associations@.len() + 1,
            final(self)@ == (UpfView { associations: old(self)@.associations.insert(i as int, a@), ..old(self)@ }),
    {
        self.associations.insert(i, a);
        assert(assoc_views(self.associations@) =~= assoc_views(old(self).associations@).insert(i as int, a@));
    }

    /// Heartbeat Request.
    fn handle_heartbeat(&mut self, header: &PfcpHeader, body: &[u8], src: SocketAddr, now: Instant) -> (r: Reply)
        ensures
            final(self)@ == spec_heartbeat_state(old(self)@, body@, src, now),
            r@ == spec_heartbeat_reply(old(self)@, *header),
    {
        let req = HeartbeatReq::decode(body);
        let recv_ts = req.recovery_ts;
        if let SocketAddr::V4 { .. } = src {
            match self.find_by_peer(&src) {
                Some(i) => match recv_ts {
                    Some(recv) => {
                        let ghost s0 = self@;
                        let mut a = self.take_association(i);
                        if a.recovery_ts != recv {
                            a.sessions.clear();
                            a.recovery_ts = recv;
                        }
                        a.last_activity = now;
                        a.heartbeat.last_response = Some(now);
                        a.heartbeat.consecutive_failures = 0;
                        assert(a@ == spec_heartbeat_seen(s0.associations[i as int], recv, now));
                        self.put_association(i, a);
                        assert(self@.associations =~= s0.associations.update(i as int, a@));
                    },
                    None => {},
                },
                None => {},
            }
        }
        let mut effects: Vec<UpfEffect> = Vec::new();
        effects.push(UpfEffect::TuiHeartbeatUpdated);
        effects.push(UpfEffect::TuiLog(TuiNote::HeartbeatResponse { seq: header.seq_num }));
        let response = build_heartbeat_response(header.seq_num, self.recovery_ts);
        Reply { response, effects }
    }

    /// Association Setup Request.
    fn handle_session_association(&mut self, header: &PfcpHeader, body: &[u8], src: SocketAddr, now: Instant) -> (r: Result<Reply, UpfError>)
        ensures
            ({
                let (s2, res) = spec_association(old(self)@, *header, body@, src, now);
                &&& final(self)@ == s2
                &&& match res {
                    Ok(v) => r matches Ok(rep) && rep@ == v,
                    Err(e) => r matches Err(e2) && e2 == e,
                }
            }),
    {
        let req = match AssociationSetupReq::decode(body) {
            Ok(req) => req,
            Err(e) => {
                return Err(UpfError::Pfcp(e));
            },
        };
        let smf_node_id = req.node_id;
        let recovery_ts = req.recovery_ts;
        let found = self.find_by_node(smf_node_id);
        if let Some(i) = found {
            if recovery_ts == self.associations[i].recovery_ts {
                // Duplicate setup (same Recovery Time Stamp): success, nothing changes.
                let response = build_association_setup_response(header.seq_num, self.n3_addr, self.recovery_ts);
                return Ok(Reply { response, effects: Vec::new() });
            }
            if recovery_ts < self.associations[i].recovery_ts {
                // An older stamp than the one on record: refused, nothing changes.
                let response = build_association_setup_rejection(header.seq_num, self.n3_addr, self.recovery_ts);
                return Ok(Reply { response, effects: Vec::new() });
            }
            // A newer stamp means the SMF restarted: the association is replaced.
        }
        let assoc = SmfAssociation::new(smf_node_id, src, recovery_ts, now);
        let ghost s0 = self@;
        match found {
            Some(i) => {
                let _old = self.take_association(i);
                self.put_association(i, assoc);
                assert(self@.associations =~= s0.associations.update(i as int, assoc@));
            },
            None => {
                let n = self.associations.len();
                self.put_association(n, assoc);
                assert(self@.associations =~= s0.associations.push(assoc@));
            },
        }
        self.peer_addr = Some(SocketAddr::V4 { ip: smf_node_id, port: PFCP_PORT });
        let mut effects: Vec<UpfEffect> = Vec::new();
        effects.push(UpfEffect::TuiLog(TuiNote::AssociationEstablished));
        effects.push(UpfEffect::TuiAssociationChanged(true));
        let response = build_association_setup_response(header.seq_num, self.n3_addr, self.recovery_ts);
        Ok(Reply { response, effects })
    }
}

/// The state and reply after the PFCP message `data` from `src`. Requests
/// go to their handlers; a response type (even) is ignored with no reply,
/// any other type is refused.
pub open spec fn spec_handle_message(s: UpfView, data: Seq<u8>, src: SocketAddr, now: Instant) -> (
    UpfView,
    Result<(Seq<u8>, Seq<UpfEffect>), UpfError>,
) {
    match spec_decode(data) {
        Err(e) => (s, Err(UpfError::Pfcp(e))),
        Ok((h, pos)) => {
            let body = data.subrange(pos, data.len() as int);
            if h.msg_type == PFCP_HEARTBEAT_REQ {
                (spec_heartbeat_state(s, body, src, now), Ok(spec_heartbeat_reply(s, h)))
            } else if h.msg_type == PFCP_ASSOCIATION_SETUP_REQ {
                spec_association(s, h, body, src, now)
            } else if h.msg_type == PFCP_SESSION_ESTABLISHMENT_REQ {
                spec_establishment(s, h, body, src)
            } else if h.msg_type == PFCP_SESSION_MODIFICATION_REQ {
                spec_modification(s, h, body, src)
            } else if h.msg_type == PFCP_SESSION_DELETION_REQ {
                spec_deletion(s, h, src)
            } else if h.msg_type % 2 == 0 {
                (s, Ok((Seq::empty(), Seq::empty())))
            } else {
                (s, Err(UpfError::Unhandled(h.msg_type)))
            }
        },
    }
}

/// Whether a keepalive Heartbeat is due: the link has been idle for the
/// interval, and an SMF address is known.
pub open spec fn keepalive_due(elapsed_ms: u64, interval_ms: u64, peer: Option<SocketAddr>) -> bool {
    elapsed_ms >= interval_ms && peer is Some
}

/// The keepalive decision for an idle time `elapsed_ms` and a Unix time
/// `unix_secs`: when due, the Heartbeat Request with sequence number `seq`
/// and the NTP form of `unix_secs`, for the SMF at `peer`; none otherwise.
pub open spec fn keepalive_outcome(
    peer: Option<SocketAddr>,
    elapsed_ms: u64,
    interval_ms: u64,
    unix_secs: u64,
    seq: u32,
) -> Option<(Seq<u8>, SocketAddr)> {
    if keepalive_due(elapsed_ms, interval_ms, peer) {
        Some((spec_build_heartbeat_request(seq, spec_ntp_from_unix(unix_secs, NTP_UNIX_OFFSET)), peer.unwrap()))
    } else {
        None
    }
}

/// A message to send and its recipient, by the message's bytes.
pub open spec fn sent_view(r: Option<(Vec<u8>, SocketAddr)>) -> Option<(Seq<u8>, SocketAddr)> {
    match r {
        Some((m, p)) => Some((m@, p)),
        None => None,
    }
}

/// How long the server loop sleeps before its next keepalive check: the
/// rest of the interval, or one millisecond once it has run out.
pub open spec fn spec_keepalive_sleep_ms(elapsed_ms: u64, interval_ms: u64) -> u64 {
    if elapsed_ms >= interval_ms {
        1
    } else {
        (interval_ms - elapsed_ms) as u64
    }
}

pub fn keepalive_sleep_ms(elapsed_ms: u64, interval_ms: u64) -> (r: u64)
    ensures
        r == spec_keepalive_sleep_ms(elapsed_ms, interval_ms),
{
    if elapsed_ms >= interval_ms {
        1
    } else {
        interval_ms - elapsed_ms
    }
}

/// Reads the header of a received message: the header, the body after it,
/// and the names of the mandatory IEs of its type that the body lacks (for
/// the log; a message is handled all the same).
pub fn decode_header(data: &[u8]) -> (r: Result<(PfcpHeader, &[u8], Vec<&'static str>), PfcpError>)
    ensures
        match spec_decode(data@) {
            Ok((h, pos)) => r matches Ok((h2, body, missing)) && h2 == h && body@ == data@.subrange(
                pos,
                data@.len() as int,
            ) && missing@ == spec_validate(h.msg_type, body@),
            Err(e) => r matches Err(e2) && e2 == e,
        },
{
    let (header, body) = match PfcpHeader::decode(data) {
        Ok(x) => x,
        Err(e) => {
            return Err(e);
        },
    };
    let val = validate(header.msg_type, body);
    Ok((header, body, val.missing))
}

/// Whether a message from `src` is a Session Establishment Request that
/// gets as far as taking a new SEID and TEID.
pub open spec fn message_allocates(s: UpfView, data: Seq<u8>, src: SocketAddr) -> bool {
    spec_decode(data) matches Ok((h, pos)) && h.msg_type == PFCP_SESSION_ESTABLISHMENT_REQ
        && establishment_allocates(s, data.subrange(pos, data.len() as int), src)
}

impl PfcpServer {
    /// Whether the SEID and TEID counters leave room for handling the
    /// message from `src`: false only where the message would take a new
    /// SEID and TEID and one of the counters is at its maximum.
    pub fn counters_suffice(&self, data: &[u8], src: SocketAddr) -> (r: bool)
        ensures
            r == (message_allocates(self@, data@, src) ==> self.next_seid < u64::MAX
                && self.next_teid < u32::MAX),
    {
        if self.next_seid < u64::MAX && self.next_teid < u32::MAX {
            return true;
        }
        let (header, body, _missing) = match decode_header(data) {
            Ok(x) => x,
            Err(_) => {
                return true;
            },
        };
        if header.msg_type != PFCP_SESSION_ESTABLISHMENT_REQ {
            return true;
        }
        if SessionEstablishmentReq::decode(body).is_err() {
            return true;
        }
        if let SocketAddr::V6 { .. } = src {
            return true;
        }
        self.find_by_peer(&src).is_none()
    }

    /// Handles one PFCP message from `src`, received at `now`.
    pub fn handle_message(&mut self, data: &[u8], src: SocketAddr, now: Instant) -> (r: Result<
        Reply,
        UpfError,
    >)
        requires
            message_allocates(old(self)@, data@, src) ==> old(self).next_seid < u64::MAX
                && old(self).next_teid < u32::MAX,
        ensures
            ({
                let (s2, res) = spec_handle_message(old(self)@, data@, src, now);
                &&& final(self)@ == s2
                &&& match res {
                    Ok(v) => r matches Ok(rep) && rep@ == v,
                    Err(e) => r matches Err(e2) && e2 == e,
                }
            }),
    {
        let (header, body, _missing) = match decode_header(data) {
            Ok(x) => x,
            Err(e) => {
                return Err(UpfError::Pfcp(e));
            },
        };
        let t = header.msg_type;
        if t == PFCP_HEARTBEAT_REQ {
            Ok(self.handle_heartbeat(&header, body, src, now))
        } else if t == PFCP_ASSOCIATION_SETUP_REQ {
            self.handle_session_association(&header, body, src, now)
        } else if t == PFCP_SESSION_ESTABLISHMENT_REQ {
            self.handle_session_establishment(&header, body, src)
        } else if t == PFCP_SESSION_MODIFICATION_REQ {
            self.handle_session_modification(&header, body, src)
        } else if t == PFCP_SESSION_DELETION_REQ {
            self.handle_session_deletion(&header, src)
        } else if t % 2 == 0 {
            Ok(Reply { response: Vec::new(), effects: Vec::new() })
        } else {
            Err(UpfError::Unhandled(t))
        }
    }

    /// Records PFCP traffic at `now`.
    pub fn touch_activity(&mut self, now: Instant)
        ensures
            final(self)@ == (UpfView { last_activity: now, ..old(self)@ }),
    {
        self.last_activity = now;
    }

    /// The keepalive decision, given the idle time, the interval and the
    /// current Unix time: when due, a Heartbeat Request with sequence number
    /// `seq` and the NTP form of `unix_secs`, for the SMF; `seq` then moves on.
    pub fn keepalive_request(&self, elapsed_ms: u64, interval_ms: u64, unix_secs: u64, seq: &mut u32) -> (r:
        Option<(Vec<u8>, SocketAddr)>)
        requires
            *old(seq) < u32::MAX,
        ensures
            keepalive_due(elapsed_ms, interval_ms, self.peer_addr) ==> (r matches Some((msg, peer))
                && Some(peer) == self.peer_addr && msg@ == spec_build_heartbeat_request(
                *old(seq),
                spec_ntp_from_unix(unix_secs, NTP_UNIX_OFFSET),
            ) && *final(seq) == *old(seq) + 1),
            !keepalive_due(elapsed_ms, interval_ms, self.peer_addr) ==> (r is None && *final(seq)
                == *old(seq)),
    {
        if elapsed_ms < interval_ms {
            return None;
        }
        let peer = match self.peer_addr {
            Some(p) => p,
            None => {
                return None;
            },
        };
        let ntp = ntp_from_unix(unix_secs, NTP_UNIX_OFFSET);
        let msg = build_heartbeat_request(*seq, ntp);
        *seq = *seq + 1;
        Some((msg, peer))
    }

    /// Reads the clocks and makes the keepalive decision: the message sent,
    /// if any, and the sequence number after it are those of the decision
    /// for some idle time and some Unix time that the clocks gave. With a
    /// zero interval a Heartbeat is sent whenever an SMF address is known.
    pub fn check_keepalive(&self, interval_ms: u64, seq: &mut u32) -> (r: Option<(Vec<u8>, SocketAddr)>)
        requires
            *old(seq) < u32::MAX,
        ensures
            exists|elapsed_ms: u64, unix_secs: u64|
                sent_view(r) == #[trigger] keepalive_outcome(
                    self.peer_addr,
                    elapsed_ms,
                    interval_ms,
                    unix_secs,
                    *old(seq),
                ) && *final(seq) == (if keepalive_due(elapsed_ms, interval_ms, self.peer_addr) {
                    (*old(seq) + 1) as u32
                } else {
                    *old(seq)
                }),
    {
        let elapsed = elapsed_millis(&self.last_activity);
        let unix = unix_time_secs();
        let r = self.keepalive_request(elapsed, interval_ms, unix, seq);
        assert(sent_view(r) == keepalive_outcome(self.peer_addr, elapsed, interval_ms, unix, *old(seq)));
        r
    }
}

/// The sessions after restoring `restored` in order over `m`.
pub open spec fn restore_into(m: Map<u64, SessionData>, restored: Seq<(u64, SessionData)>) -> Map<u64, SessionData>
    decreases restored.len(),
{
    if restored.len() == 0 {
        m
    } else {
        restore_into(m, restored.drop_last()).insert(restored.last().0, restored.last().1)
    }
}

} // verus!
