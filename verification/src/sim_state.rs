//! The SMF simulator's own state: the addresses, TEIDs, SEIDs and sequence
//! numbers it hands out, and the sessions it has established.
use vstd::prelude::*;
use std::collections::HashMap;
use std::time::Instant;
use crate::net::Ipv4Addr;
use crate::sim_config::SessionConfig;

verus! {

broadcast use vstd::std_specs::hash::group_hash_axioms;

/// A session the simulator established on the UPF.
#[derive(Clone, Copy)]
pub struct SimSession {
    pub cp_seid: u64,
    pub upf_seid: u64,
    pub upf_teid: u32,
    pub upf_n3_addr: Ipv4Addr,
    pub ue_ip: Ipv4Addr,
    pub gnb_teid: u32,
    pub created_at: Instant,
}

/// The UE address pool is used up.
#[derive(Debug, Clone, Copy, PartialEq, Eq, Structural)]
pub struct PoolExhausted;

pub struct SimState {
    next_ue_ip: u32,
    ue_ip_end: u32,
    next_gnb_teid: u32,
    next_cp_seid: u64,
    next_seq: u32,
    pub sessions: HashMap<u64, SimSession>,
}

pub struct SimStateView {
    pub next_ue_ip: u32,
    pub ue_ip_end: u32,
    pub next_gnb_teid: u32,
    pub next_cp_seid: u64,
    pub next_seq: u32,
    pub sessions: Map<u64, SimSession>,
}

impl View for SimState {
    type V = SimStateView;

    closed spec fn view(&self) -> SimStateView {
        SimStateView {
            next_ue_ip: self.next_ue_ip,
            ue_ip_end: self.ue_ip_end,
            next_gnb_teid: self.next_gnb_teid,
            next_cp_seid: self.next_cp_seid,
            next_seq: self.next_seq,
            sessions: self.sessions@,
        }
    }
}

impl SimState {
    /// A fresh state: UE addresses from the pool's start, gNB TEIDs from
    /// the configured start, SEIDs and sequence numbers from 1.
    pub fn new(config: &SessionConfig) -> (r: Self)
        ensures
            r@.next_ue_ip == config.ue_ip_pool_start.bits,
            r@.ue_ip_end == config.ue_ip_pool_end.bits,
            r@.next_gnb_teid == config.gnb_teid_start,
            r@.next_cp_seid == 1,
            r@.next_seq == 1,
            r@.sessions == Map::<u64, SimSession>::empty(),
    {
        Self {
            next_ue_ip: config.ue_ip_pool_start.bits,
            ue_ip_end: config.ue_ip_pool_end.bits,
            next_gnb_teid: config.gnb_teid_start,
            next_cp_seid: 1,
            next_seq: 1,
            sessions: HashMap::new(),
        }
    }

    /// The next UE address of the pool, or `PoolExhausted` past its end.
    pub fn alloc_ue_ip(&mut self) -> (r: Result<Ipv4Addr, PoolExhausted>)
        requires
            old(self)@.next_ue_ip <= old(self)@.ue_ip_end ==> old(self)@.next_ue_ip < u32::MAX,
        ensures
            old(self)@.next_ue_ip <= old(self)@.ue_ip_end ==> (r == Ok::<Ipv4Addr, PoolExhausted>(
                Ipv4Addr { bits: old(self)@.next_ue_ip },
            ) && final(self)@ == (SimStateView {
                next_ue_ip: (old(self)@.next_ue_ip + 1) as u32,
                ..old(self)@
            })),
            old(self)@.next_ue_ip > old(self)@.ue_ip_end ==> (r == Err::<Ipv4Addr, PoolExhausted>(
                PoolExhausted,
            ) && final(self)@ == old(self)@),
    {
        if self.next_ue_ip > self.ue_ip_end {
            return Err(PoolExhausted);
        }
        let ip = Ipv4Addr::from_bits(self.next_ue_ip);
        self.next_ue_ip += 1;
        Ok(ip)
    }

    pub fn alloc_gnb_teid(&mut self) -> (t: u32)
        requires
            old(self)@.next_gnb_teid < u32::MAX,
        ensures
            t == old(self)@.next_gnb_teid,
            final(self)@ == (SimStateView { next_gnb_teid: (t + 1) as u32, ..old(self)@ }),
    {
        let t = self.next_gnb_teid;
        self.next_gnb_teid += 1;
        t
    }

    pub fn alloc_cp_seid(&mut self) -> (s: u64)
        requires
            old(self)@.next_cp_seid < u64::MAX,
        ensures
            s == old(self)@.next_cp_seid,
            final(self)@ == (SimStateView { next_cp_seid: (s + 1) as u64, ..old(self)@ }),
    {
        let s = self.next_cp_seid;
        self.next_cp_seid += 1;
        s
    }

    /// Records a session under its SMF SEID.
    pub fn insert_session(&mut self, cp_seid: u64, session: SimSession)
        ensures
            final(self)@ == (SimStateView { sessions: old(self)@.sessions.insert(cp_seid, session), ..old(self)@ }),
    {
        self.sessions.insert(cp_seid, session);
    }

    /// Forgets the session with SMF SEID `cp_seid`.
    pub fn remove_session(&mut self, cp_seid: u64)
        ensures
            final(self)@ == (SimStateView { sessions: old(self)@.sessions.remove(cp_seid), ..old(self)@ }),
    {
        self.sessions.remove(&cp_seid);
    }

    /// The session with SMF SEID `cp_seid`.
    pub fn session(&self, cp_seid: u64) -> (r: Option<SimSession>)
        ensures
            r == (if self@.sessions.contains_key(cp_seid) {
                Some(self@.sessions[cp_seid])
            } else {
                None
            }),
    {
        match self.sessions.get(&cp_seid) {
            Some(s) => Some(*s),
            None => None,
        }
    }

    /// The allocation counters, for callers that check them before
    /// allocating: the next UE address, the pool's last address, the next
    /// gNB TEID, the next SMF SEID and the next sequence number.
    pub fn counters(&self) -> (r: (u32, u32, u32, u64, u32))
        ensures
            r == (self@.next_ue_ip, self@.ue_ip_end, self@.next_gnb_teid, self@.next_cp_seid, self@.next_seq),
    {
        (self.next_ue_ip, self.ue_ip_end, self.next_gnb_teid, self.next_cp_seid, self.next_seq)
    }

    pub fn next_seq_num(&mut self) -> (s: u32)
        requires
            old(self)@.next_seq < u32::MAX,
        ensures
            s == old(self)@.next_seq,
            final(self)@ == (SimStateView { next_seq: (s + 1) as u32, ..old(self)@ }),
    {
        let s = self.next_seq;
        self.next_seq += 1;
        s
    }
}

} // verus!
