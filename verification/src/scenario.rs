//! The simulator's basic session lifecycle scenario as a state machine:
//! Association Setup (retried with a growing wait), Session Establishment,
//! a wait during which the keepalive sends its Heartbeats, Session
//! Modification, Session Deletion. The caller sends what a step asks for,
//! waits where it asks, and hands back the reply, a failed send, or the end
//! of a wait.
use vstd::prelude::*;
use std::time::Instant;
use crate::builder::{build_session_deletion_request, spec_build_association_setup_request, spec_finish};
use crate::header::{spec_encode, spec_session_header};
use crate::net::Ipv4Addr;
use crate::sim_flow::{
    association_request, association_result, lifecycle_establishment_request, retry_wait_secs,
    spec_lifecycle_establishment_request, spec_retry_wait_secs, spec_tunnel_update_request, tunnel_update_request,
};
use crate::sim_state::{SimSession, SimState, SimStateView};
use crate::types::{
    PFCP_ASSOCIATION_SETUP_REQ, PFCP_SESSION_DELETION_REQ, PFCP_SESSION_ESTABLISHMENT_REQ,
    PFCP_SESSION_MODIFICATION_REQ,
};
use crate::validator::{extract_session_info, response_checked, spec_session_info, validate_response, ResponseError};

verus! {

/// Where the scenario stands.
#[derive(Clone, Copy, Debug, PartialEq, Eq, Structural)]
pub enum LifecyclePhase {
    /// Not started.
    Idle,
    /// The `tries`-th Association Setup Request, sequence number `seq`, is out.
    Associating { tries: u32, seq: u32 },
    /// Waiting before the next Association Setup attempt.
    AssociationBackoff { tries: u32 },
    /// The Session Establishment Request `seq` is out.
    Establishing { seq: u32, cp_seid: u64, ue_ip: Ipv4Addr, gnb_teid: u32 },
    /// Waiting while the keepalive exchanges Heartbeats.
    Heartbeating { cp_seid: u64, upf_seid: u64 },
    /// The Session Modification Request `seq` is out.
    Modifying { seq: u32, cp_seid: u64, upf_seid: u64 },
    /// The Session Deletion Request `seq` is out.
    Deleting { seq: u32, cp_seid: u64 },
    Done,
}

/// What the caller reports.
pub enum LifecycleEvent {
    Start,
    Reply(Vec<u8>),
    SendFailed,
    Waited,
}

pub enum LifecycleEventView {
    Start,
    Reply(Seq<u8>),
    SendFailed,
    Waited,
}

impl View for LifecycleEvent {
    type V = LifecycleEventView;

    open spec fn view(&self) -> LifecycleEventView {
        match self {
            LifecycleEvent::Start => LifecycleEventView::Start,
            LifecycleEvent::Reply(m) => LifecycleEventView::Reply(m@),
            LifecycleEvent::SendFailed => LifecycleEventView::SendFailed,
            LifecycleEvent::Waited => LifecycleEventView::Waited,
        }
    }
}

/// Why the scenario stopped short.
#[derive(Debug)]
pub enum LifecycleError {
    /// A reply was not the accepted response.
    Response(ResponseError),
    /// A request could not be sent or got no answer.
    Transport,
    /// A counter of the simulator is used up.
    Exhausted,
    /// The UE address pool is used up.
    PoolExhausted,
    /// An event that the current phase does not expect.
    OutOfOrder,
}

/// Why the scenario stopped short, without the details of a refused reply.
#[derive(Clone, Copy, Debug, PartialEq, Eq, Structural)]
pub enum LifecycleFailure {
    Rejected,
    Transport,
    Exhausted,
    PoolExhausted,
    OutOfOrder,
}

/// What the caller is to do next.
pub enum LifecycleAction {
    /// Send the message to the UPF and report its reply.
    Send(Vec<u8>),
    /// Wait this many seconds and report `Waited`.
    Wait(u64),
    /// The scenario is over.
    Finish(Result<(), LifecycleError>),
}

pub enum LifecycleActionView {
    Send(Seq<u8>),
    Wait(u64),
    Finished,
    Failed(LifecycleFailure),
}

impl View for LifecycleAction {
    type V = LifecycleActionView;

    open spec fn view(&self) -> LifecycleActionView {
        match self {
            LifecycleAction::Send(m) => LifecycleActionView::Send(m@),
            LifecycleAction::Wait(w) => LifecycleActionView::Wait(*w),
            LifecycleAction::Finish(Ok(())) => LifecycleActionView::Finished,
            LifecycleAction::Finish(Err(LifecycleError::Response(_))) => LifecycleActionView::Failed(
                LifecycleFailure::Rejected,
            ),
            LifecycleAction::Finish(Err(LifecycleError::Transport)) => LifecycleActionView::Failed(
                LifecycleFailure::Transport,
            ),
            LifecycleAction::Finish(Err(LifecycleError::Exhausted)) => LifecycleActionView::Failed(
                LifecycleFailure::Exhausted,
            ),
            LifecycleAction::Finish(Err(LifecycleError::PoolExhausted)) => LifecycleActionView::Failed(
                LifecycleFailure::PoolExhausted,
            ),
            LifecycleAction::Finish(Err(LifecycleError::OutOfOrder)) => LifecycleActionView::Failed(
                LifecycleFailure::OutOfOrder,
            ),
        }
    }
}

/// What the scenario is run with.
#[derive(Clone, Copy)]
pub struct LifecycleSetup {
    pub smf_addr: Ipv4Addr,
    pub gnb_addr: Ipv4Addr,
    /// The keepalive's interval, in seconds.
    pub heartbeat_interval_sec: u64,
    /// The simulator's Recovery Time Stamp.
    pub recovery_ts: u32,
}

/// The gNB TEID that the modification moves the downlink tunnel to.
pub const MODIFIED_GNB_TEID: u32 = 0xdead_beef;

/// Whether `rsp` is the accepted response to request `seq` of type `req_type`.
pub open spec fn accepted(req_type: u8, seq: u32, rsp: Seq<u8>) -> bool {
    response_checked(req_type, seq, rsp, Ok(()))
}

/// The wait before the next association attempt after `tries` failed ones.
pub open spec fn backoff_secs(tries: u32) -> u64 {
    let t: u32 = if tries < 1 {
        1
    } else if tries > 63 {
        63
    } else {
        tries
    };
    spec_retry_wait_secs(t as nat) as u64
}

/// How long to leave the keepalive to exchange three Heartbeats: three
/// intervals and five seconds (at most `u64::MAX`).
pub open spec fn heartbeat_wait_secs(interval: u64) -> u64 {
    if interval <= (u64::MAX - 5) / 3 {
        (interval * 3 + 5) as u64
    } else {
        u64::MAX
    }
}

/// Sends the next Association Setup Request, the `tries + 1`-th.
pub open spec fn spec_send_association(s: SimStateView, tries: u32, setup: LifecycleSetup) -> (
    SimStateView,
    LifecyclePhase,
    LifecycleActionView,
) {
    if s.next_seq == u32::MAX || tries == u32::MAX {
        (s, LifecyclePhase::Done, LifecycleActionView::Failed(LifecycleFailure::Exhausted))
    } else {
        (
            SimStateView { next_seq: (s.next_seq + 1) as u32, ..s },
            LifecyclePhase::Associating { tries: (tries + 1) as u32, seq: s.next_seq },
            LifecycleActionView::Send(
                spec_build_association_setup_request(s.next_seq, setup.smf_addr, setup.recovery_ts),
            ),
        )
    }
}

/// Takes a UE address, a gNB TEID, an SMF SEID and a sequence number and
/// sends the Session Establishment Request.
pub open spec fn spec_send_establishment(s: SimStateView, setup: LifecycleSetup) -> (
    SimStateView,
    LifecyclePhase,
    LifecycleActionView,
) {
    if s.next_ue_ip > s.ue_ip_end {
        (s, LifecyclePhase::Done, LifecycleActionView::Failed(LifecycleFailure::PoolExhausted))
    } else if s.next_ue_ip == u32::MAX || s.next_gnb_teid == u32::MAX || s.next_cp_seid == u64::MAX
        || s.next_seq == u32::MAX {
        (s, LifecyclePhase::Done, LifecycleActionView::Failed(LifecycleFailure::Exhausted))
    } else {
        let ue = Ipv4Addr { bits: s.next_ue_ip };
        (
            SimStateView {
                next_ue_ip: (s.next_ue_ip + 1) as u32,
                next_gnb_teid: (s.next_gnb_teid + 1) as u32,
                next_cp_seid: (s.next_cp_seid + 1) as u64,
                next_seq: (s.next_seq + 1) as u32,
                ..s
            },
            LifecyclePhase::Establishing {
                seq: s.next_seq,
                cp_seid: s.next_cp_seid,
                ue_ip: ue,
                gnb_teid: s.next_gnb_teid,
            },
            LifecycleActionView::Send(
                spec_lifecycle_establishment_request(
                    s.next_seq,
                    setup.smf_addr,
                    s.next_cp_seid,
                    ue,
                    setup.gnb_addr,
                    s.next_gnb_teid,
                ),
            ),
        )
    }
}

pub open spec fn stop(s: SimStateView, why: LifecycleFailure) -> (SimStateView, LifecyclePhase, LifecycleActionView) {
    (s, LifecyclePhase::Done, LifecycleActionView::Failed(why))
}

/// One step of the scenario: the state, phase and action after event `ev`
/// in phase `ph`.
pub open spec fn spec_lifecycle_step(
    s: SimStateView,
    ph: LifecyclePhase,
    ev: LifecycleEventView,
    setup: LifecycleSetup,
    now: Instant,
) -> (SimStateView, LifecyclePhase, LifecycleActionView) {
    match (ph, ev) {
        (LifecyclePhase::Idle, LifecycleEventView::Start) => spec_send_association(s, 0, setup),
        (LifecyclePhase::AssociationBackoff { tries }, LifecycleEventView::Waited) => spec_send_association(
            s,
            tries,
            setup,
        ),
        (LifecyclePhase::Associating { tries, seq }, LifecycleEventView::Reply(rsp)) => {
            if accepted(PFCP_ASSOCIATION_SETUP_REQ, seq, rsp) {
                spec_send_establishment(s, setup)
            } else {
                (s, LifecyclePhase::AssociationBackoff { tries }, LifecycleActionView::Wait(backoff_secs(tries)))
            }
        },
        (LifecyclePhase::Associating { tries, seq }, LifecycleEventView::SendFailed) => (
            s,
            LifecyclePhase::AssociationBackoff { tries },
            LifecycleActionView::Wait(backoff_secs(tries)),
        ),
        (
            LifecyclePhase::Establishing { seq, cp_seid, ue_ip, gnb_teid },
            LifecycleEventView::Reply(rsp),
        ) => {
            if !accepted(PFCP_SESSION_ESTABLISHMENT_REQ, seq, rsp) {
                stop(s, LifecycleFailure::Rejected)
            } else {
                match spec_session_info(rsp) {
                    Err(_) => stop(s, LifecycleFailure::Rejected),
                    Ok((upf_seid, upf_teid, upf_n3_addr)) => (
                        SimStateView {
                            sessions: s.sessions.insert(
                                cp_seid,
                                SimSession {
                                    cp_seid,
                                    upf_seid,
                                    upf_teid,
                                    upf_n3_addr,
                                    ue_ip,
                                    gnb_teid,
                                    created_at: now,
                                },
                            ),
                            ..s
                        },
                        LifecyclePhase::Heartbeating { cp_seid, upf_seid },
                        LifecycleActionView::Wait(heartbeat_wait_secs(setup.heartbeat_interval_sec)),
                    ),
                }
            }
        },
        (LifecyclePhase::Heartbeating { cp_seid, upf_seid }, LifecycleEventView::Waited) => {
            if s.next_seq == u32::MAX {
                stop(s, LifecycleFailure::Exhausted)
            } else {
                (
                    SimStateView { next_seq: (s.next_seq + 1) as u32, ..s },
                    LifecyclePhase::Modifying { seq: s.next_seq, cp_seid, upf_seid },
                    LifecycleActionView::Send(
                        spec_tunnel_update_request(s.next_seq, upf_seid, setup.gnb_addr, MODIFIED_GNB_TEID),
                    ),
                )
            }
        },
        (LifecyclePhase::Modifying { seq, cp_seid, upf_seid }, LifecycleEventView::Reply(rsp)) => {
            if !accepted(PFCP_SESSION_MODIFICATION_REQ, seq, rsp) {
                stop(s, LifecycleFailure::Rejected)
            } else if s.next_seq == u32::MAX {
                stop(s, LifecycleFailure::Exhausted)
            } else {
                (
                    SimStateView { next_seq: (s.next_seq + 1) as u32, ..s },
                    LifecyclePhase::Deleting { seq: s.next_seq, cp_seid },
                    LifecycleActionView::Send(
                        spec_finish(
                            spec_encode(spec_session_header(PFCP_SESSION_DELETION_REQ, upf_seid, s.next_seq)),
                        ),
                    ),
                )
            }
        },
        (LifecyclePhase::Deleting { seq, cp_seid }, LifecycleEventView::Reply(rsp)) => {
            if !accepted(PFCP_SESSION_DELETION_REQ, seq, rsp) {
                stop(s, LifecycleFailure::Rejected)
            } else {
                (
                    SimStateView { sessions: s.sessions.remove(cp_seid), ..s },
                    LifecyclePhase::Done,
                    LifecycleActionView::Finished,
                )
            }
        },
        (LifecyclePhase::Establishing { .. }, LifecycleEventView::SendFailed) => stop(
            s,
            LifecycleFailure::Transport,
        ),
        (LifecyclePhase::Modifying { .. }, LifecycleEventView::SendFailed) => stop(s, LifecycleFailure::Transport),
        (LifecyclePhase::Deleting { .. }, LifecycleEventView::SendFailed) => stop(s, LifecycleFailure::Transport),
        _ => (s, ph, LifecycleActionView::Failed(LifecycleFailure::OutOfOrder)),
    }
}

fn send_association(state: &mut SimState, phase: &mut LifecyclePhase, tries: u32, setup: &LifecycleSetup) -> (r:
    LifecycleAction)
    ensures
        (final(state)@, *final(phase), r@) == spec_send_association(old(state)@, tries, *setup),
{
    if state.counters().4 == u32::MAX || tries == u32::MAX {
        *phase = LifecyclePhase::Done;
        return LifecycleAction::Finish(Err(LifecycleError::Exhausted));
    }
    let seq = state.next_seq_num();
    *phase = LifecyclePhase::Associating { tries: tries + 1, seq };
    LifecycleAction::Send(association_request(seq, setup.smf_addr, setup.recovery_ts))
}

fn send_establishment(state: &mut SimState, phase: &mut LifecyclePhase, setup: &LifecycleSetup) -> (r:
    LifecycleAction)
    ensures
        (final(state)@, *final(phase), r@) == spec_send_establishment(old(state)@, *setup),
{
    let (next_ue, ue_end, next_teid, next_cp, next_seq) = state.counters();
    if next_ue > ue_end {
        *phase = LifecyclePhase::Done;
        return LifecycleAction::Finish(Err(LifecycleError::PoolExhausted));
    }
    if next_ue == u32::MAX || next_teid == u32::MAX || next_cp == u64::MAX || next_seq == u32::MAX {
        *phase = LifecyclePhase::Done;
        return LifecycleAction::Finish(Err(LifecycleError::Exhausted));
    }
    let ue_ip = match state.alloc_ue_ip() {
        Ok(ip) => ip,
        Err(_) => {
            *phase = LifecyclePhase::Done;
            return LifecycleAction::Finish(Err(LifecycleError::PoolExhausted));
        },
    };
    let gnb_teid = state.alloc_gnb_teid();
    let cp_seid = state.alloc_cp_seid();
    let seq = state.next_seq_num();
    *phase = LifecyclePhase::Establishing { seq, cp_seid, ue_ip, gnb_teid };
    LifecycleAction::Send(
        lifecycle_establishment_request(seq, setup.smf_addr, cp_seid, ue_ip, setup.gnb_addr, gnb_teid),
    )
}

fn backoff(tries: u32) -> (r: u64)
    ensures
        r == backoff_secs(tries),
{
    let t: u32 = if tries < 1 {
        1
    } else if tries > 63 {
        63
    } else {
        tries
    };
    retry_wait_secs(t)
}

fn heartbeat_wait(interval: u64) -> (r: u64)
    ensures
        r == heartbeat_wait_secs(interval),
{
    if interval <= (u64::MAX - 5) / 3 {
        interval * 3 + 5
    } else {
        u64::MAX
    }
}

/// Whether `rsp` is the accepted response to request `seq` of type
/// `req_type`, and the refusal where it is not.
fn check_reply(req_type: u8, seq: u32, rsp: &[u8]) -> (r: Result<(), ResponseError>)
    requires
        req_type < 255,
    ensures
        r is Ok <==> accepted(req_type, seq, rsp@),
        response_checked(req_type, seq, rsp@, r),
{
    validate_response(req_type, seq, rsp)
}

/// Why the reply `ev` in phase `ph` was refused, where `e` is the error the
/// scenario stopped with: the check of the reply against its request, or,
/// for an accepted Session Establishment Response, the reading of the UPF's
/// SEID and tunnel from it.
pub open spec fn refusal_explained(ph: LifecyclePhase, ev: LifecycleEventView, e: ResponseError) -> bool {
    match (ph, ev) {
        (LifecyclePhase::Establishing { seq, .. }, LifecycleEventView::Reply(rsp)) => if accepted(
            PFCP_SESSION_ESTABLISHMENT_REQ,
            seq,
            rsp,
        ) {
            spec_session_info(rsp) == Err::<(u64, u32, Ipv4Addr), ResponseError>(e)
        } else {
            response_checked(PFCP_SESSION_ESTABLISHMENT_REQ, seq, rsp, Err(e))
        },
        (LifecyclePhase::Modifying { seq, .. }, LifecycleEventView::Reply(rsp)) => response_checked(
            PFCP_SESSION_MODIFICATION_REQ,
            seq,
            rsp,
            Err(e),
        ),
        (LifecyclePhase::Deleting { seq, .. }, LifecycleEventView::Reply(rsp)) => response_checked(
            PFCP_SESSION_DELETION_REQ,
            seq,
            rsp,
            Err(e),
        ),
        _ => false,
    }
}

/// Runs one step of the scenario.
pub fn lifecycle_step(
    state: &mut SimState,
    phase: &mut LifecyclePhase,
    ev: LifecycleEvent,
    setup: &LifecycleSetup,
    now: Instant,
) -> (r: LifecycleAction)
    ensures
        (final(state)@, *final(phase), r@) == spec_lifecycle_step(old(state)@, *old(phase), ev@, *setup, now),
        r matches LifecycleAction::Finish(Err(LifecycleError::Response(e))) ==> refusal_explained(
            *old(phase),
            ev@,
            e,
        ),
{
    let ph = *phase;
    match (ph, ev) {
        (LifecyclePhase::Idle, LifecycleEvent::Start) => send_association(state, phase, 0, setup),
        (LifecyclePhase::AssociationBackoff { tries }, LifecycleEvent::Waited) => send_association(
            state,
            phase,
            tries,
            setup,
        ),
        (LifecyclePhase::Associating { tries, seq }, LifecycleEvent::Reply(rsp)) => {
            match association_result(seq, rsp.as_slice()) {
                Ok(_) => send_establishment(state, phase, setup),
                Err(_) => {
                    *phase = LifecyclePhase::AssociationBackoff { tries };
                    LifecycleAction::Wait(backoff(tries))
                },
            }
        },
        (LifecyclePhase::Associating { tries, seq }, LifecycleEvent::SendFailed) => {
            *phase = LifecyclePhase::AssociationBackoff { tries };
            LifecycleAction::Wait(backoff(tries))
        },
        (LifecyclePhase::Establishing { seq, cp_seid, ue_ip, gnb_teid }, LifecycleEvent::Reply(rsp)) => {
            if let Err(e) = check_reply(PFCP_SESSION_ESTABLISHMENT_REQ, seq, rsp.as_slice()) {
                *phase = LifecyclePhase::Done;
                return LifecycleAction::Finish(Err(LifecycleError::Response(e)));
            }
            match extract_session_info(rsp.as_slice()) {
                Err(e) => {
                    *phase = LifecyclePhase::Done;
                    LifecycleAction::Finish(Err(LifecycleError::Response(e)))
                },
                Ok((upf_seid, upf_teid, upf_n3_addr)) => {
                    state.insert_session(
                        cp_seid,
                        SimSession { cp_seid, upf_seid, upf_teid, upf_n3_addr, ue_ip, gnb_teid, created_at: now },
                    );
                    *phase = LifecyclePhase::Heartbeating { cp_seid, upf_seid };
                    LifecycleAction::Wait(heartbeat_wait(setup.heartbeat_interval_sec))
                },
            }
        },
        (LifecyclePhase::Heartbeating { cp_seid, upf_seid }, LifecycleEvent::Waited) => {
            if state.counters().4 == u32::MAX {
                *phase = LifecyclePhase::Done;
                return LifecycleAction::Finish(Err(LifecycleError::Exhausted));
            }
            let seq = state.next_seq_num();
            *phase = LifecyclePhase::Modifying { seq, cp_seid, upf_seid };
            LifecycleAction::Send(tunnel_update_request(seq, upf_seid, setup.gnb_addr, MODIFIED_GNB_TEID))
        },
        (LifecyclePhase::Modifying { seq, cp_seid, upf_seid }, LifecycleEvent::Reply(rsp)) => {
            if let Err(e) = check_reply(PFCP_SESSION_MODIFICATION_REQ, seq, rsp.as_slice()) {
                *phase = LifecyclePhase::Done;
                return LifecycleAction::Finish(Err(LifecycleError::Response(e)));
            }
            if state.counters().4 == u32::MAX {
                *phase = LifecyclePhase::Done;
                return LifecycleAction::Finish(Err(LifecycleError::Exhausted));
            }
            let seq2 = state.next_seq_num();
            *phase = LifecyclePhase::Deleting { seq: seq2, cp_seid };
            LifecycleAction::Send(build_session_deletion_request(seq2, upf_seid))
        },
        (LifecyclePhase::Deleting { seq, cp_seid }, LifecycleEvent::Reply(rsp)) => {
            if let Err(e) = check_reply(PFCP_SESSION_DELETION_REQ, seq, rsp.as_slice()) {
                *phase = LifecyclePhase::Done;
                return LifecycleAction::Finish(Err(LifecycleError::Response(e)));
            }
            state.remove_session(cp_seid);
            *phase = LifecyclePhase::Done;
            LifecycleAction::Finish(Ok(()))
        },
        (LifecyclePhase::Establishing { .. }, LifecycleEvent::SendFailed) | (
            LifecyclePhase::Modifying { .. },
            LifecycleEvent::SendFailed,
        ) | (LifecyclePhase::Deleting { .. }, LifecycleEvent::SendFailed) => {
            *phase = LifecyclePhase::Done;
            LifecycleAction::Finish(Err(LifecycleError::Transport))
        },
        _ => LifecycleAction::Finish(Err(LifecycleError::OutOfOrder)),
    }
}

/// A run in which every reply is the accepted response sends, in this
/// order, the Association Setup Request, the Session Establishment Request,
/// (then waits while the keepalive exchanges Heartbeats) the Session
/// Modification Request and the Session Deletion Request, with consecutive
/// sequence numbers, and ends with the session map as it began.
pub proof fn law_lifecycle_accepted_run(
    s0: SimStateView,
    setup: LifecycleSetup,
    now: Instant,
    r1: Seq<u8>,
    r2: Seq<u8>,
    r3: Seq<u8>,
    r4: Seq<u8>,
)
    requires
        s0.next_seq < u32::MAX - 3,
        s0.next_ue_ip <= s0.ue_ip_end,
        s0.next_ue_ip < u32::MAX,
        s0.next_gnb_teid < u32::MAX,
        s0.next_cp_seid < u64::MAX,
        !s0.sessions.contains_key(s0.next_cp_seid),
        accepted(PFCP_ASSOCIATION_SETUP_REQ, s0.next_seq, r1),
        accepted(PFCP_SESSION_ESTABLISHMENT_REQ, (s0.next_seq + 1) as u32, r2),
        spec_session_info(r2) is Ok,
        accepted(PFCP_SESSION_MODIFICATION_REQ, (s0.next_seq + 2) as u32, r3),
        accepted(PFCP_SESSION_DELETION_REQ, (s0.next_seq + 3) as u32, r4),
    ensures
        ({
            let q = s0.next_seq;
            let ue = Ipv4Addr { bits: s0.next_ue_ip };
            let upf_seid = spec_session_info(r2).unwrap().0;
            let t1 = spec_lifecycle_step(s0, LifecyclePhase::Idle, LifecycleEventView::Start, setup, now);
            let t2 = spec_lifecycle_step(t1.0, t1.1, LifecycleEventView::Reply(r1), setup, now);
            let t3 = spec_lifecycle_step(t2.0, t2.1, LifecycleEventView::Reply(r2), setup, now);
            let t4 = spec_lifecycle_step(t3.0, t3.1, LifecycleEventView::Waited, setup, now);
            let t5 = spec_lifecycle_step(t4.0, t4.1, LifecycleEventView::Reply(r3), setup, now);
            let t6 = spec_lifecycle_step(t5.0, t5.1, LifecycleEventView::Reply(r4), setup, now);
            &&& t1.2 == LifecycleActionView::Send(
                spec_build_association_setup_request(q, setup.smf_addr, setup.recovery_ts),
            )
            &&& t2.2 == LifecycleActionView::Send(
                spec_lifecycle_establishment_request(
                    (q + 1) as u32,
                    setup.smf_addr,
                    s0.next_cp_seid,
                    ue,
                    setup.gnb_addr,
                    s0.next_gnb_teid,
                ),
            )
            &&& t3.2 == LifecycleActionView::Wait(heartbeat_wait_secs(setup.heartbeat_interval_sec))
            &&& t4.2 == LifecycleActionView::Send(
                spec_tunnel_update_request((q + 2) as u32, upf_seid, setup.gnb_addr, MODIFIED_GNB_TEID),
            )
            &&& t5.2 == LifecycleActionView::Send(
                spec_finish(spec_encode(spec_session_header(PFCP_SESSION_DELETION_REQ, upf_seid, (q + 3) as u32))),
            )
            &&& t6.2 == LifecycleActionView::Finished
            &&& t6.1 == LifecyclePhase::Done
            &&& t6.0.sessions == s0.sessions
        }),
{
}

/// A refused or unanswered Association Setup Request is retried after
/// `retry_wait_secs(tries)` seconds: three, doubling, at most thirty.
pub proof fn law_association_backoff(
    s: SimStateView,
    tries: u32,
    seq: u32,
    ev: LifecycleEventView,
    setup: LifecycleSetup,
    now: Instant,
)
    requires
        1 <= tries <= 63,
        ev is SendFailed || (ev matches LifecycleEventView::Reply(rsp) && !accepted(
            PFCP_ASSOCIATION_SETUP_REQ,
            seq,
            rsp,
        )),
    ensures
        spec_lifecycle_step(s, LifecyclePhase::Associating { tries, seq }, ev, setup, now) == (
            s,
            LifecyclePhase::AssociationBackoff { tries },
            LifecycleActionView::Wait(spec_retry_wait_secs(tries as nat) as u64),
        ),
        spec_lifecycle_step(s, LifecyclePhase::AssociationBackoff { tries }, LifecycleEventView::Waited, setup, now).2
            == (if s.next_seq < u32::MAX {
            LifecycleActionView::Send(spec_build_association_setup_request(s.next_seq, setup.smf_addr, setup.recovery_ts))
        } else {
            LifecycleActionView::Failed(LifecycleFailure::Exhausted)
        }),
{
}
} // verus!
