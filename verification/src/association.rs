//! PFCP associations with SMFs (3GPP TS 29.244 §5.5): each SMF, by Node ID,
//! owns the sessions that it established.
use vstd::prelude::*;
use std::collections::HashMap;
use std::time::Instant;
use crate::net::{Ipv4Addr, SocketAddr};

verus! {

/// What the UPF keeps of one session.
#[derive(Clone, Copy, Debug, PartialEq, Eq, Structural)]
pub struct SessionData {
    pub ue_ip: Ipv4Addr,
    pub teid: u32,
    pub gnb_ip: Ipv4Addr,
    pub cp_seid: u64,
}

#[derive(Clone, Copy, Debug, PartialEq, Eq, Structural)]
pub enum AssociationState {
    Active,
    HeartbeatTimeOut,
}

#[derive(Clone, Copy)]
pub struct HeartbeatTracker {
    pub next_seq: u32,
    pub last_sent: Option<Instant>,
    pub last_response: Option<Instant>,
    pub consecutive_failures: u32,
}

impl HeartbeatTracker {
    pub fn new() -> (r: Self)
        ensures
            r.next_seq == 200,
            r.last_sent is None,
            r.last_response is None,
            r.consecutive_failures == 0,
    {
        Self { next_seq: 200, last_sent: None, last_response: None, consecutive_failures: 0 }
    }
}

pub struct SmfAssociation {
    pub node_id: Ipv4Addr,
    pub peer_addr: SocketAddr,
    pub recovery_ts: u32,
    pub state: AssociationState,
    /// Sessions owned by this SMF, by CP SEID.
    pub sessions: HashMap<u64, SessionData>,
    pub last_activity: Instant,
    pub heartbeat: HeartbeatTracker,
}

pub struct AssociationView {
    pub node_id: Ipv4Addr,
    pub peer_addr: SocketAddr,
    pub recovery_ts: u32,
    pub state: AssociationState,
    pub sessions: Map<u64, SessionData>,
    pub last_activity: Instant,
    pub heartbeat: HeartbeatTracker,
}

impl View for SmfAssociation {
    type V = AssociationView;

    open spec fn view(&self) -> AssociationView {
        AssociationView {
            node_id: self.node_id,
            peer_addr: self.peer_addr,
            recovery_ts: self.recovery_ts,
            state: self.state,
            sessions: self.sessions@,
            last_activity: self.last_activity,
            heartbeat: self.heartbeat,
        }
    }
}

/// A fresh association: active, owning no session, heartbeat counters reset.
pub open spec fn spec_new_association(
    node_id: Ipv4Addr,
    peer_addr: SocketAddr,
    recovery_ts: u32,
    now: Instant,
) -> AssociationView {
    AssociationView {
        node_id,
        peer_addr,
        recovery_ts,
        state: AssociationState::Active,
        sessions: Map::empty(),
        last_activity: now,
        heartbeat: HeartbeatTracker {
            next_seq: 200,
            last_sent: None,
            last_response: None,
            consecutive_failures: 0,
        },
    }
}

impl SmfAssociation {
    pub fn new(node_id: Ipv4Addr, peer_addr: SocketAddr, recovery_ts: u32, now: Instant) -> (r: Self)
        ensures
            r@ == spec_new_association(node_id, peer_addr, recovery_ts, now),
    {
        Self {
            node_id,
            peer_addr,
            recovery_ts,
            state: AssociationState::Active,
            sessions: HashMap::new(),
            last_activity: now,
            heartbeat: HeartbeatTracker::new(),
        }
    }
}

} // verus!
