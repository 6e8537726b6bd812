//! The simulator's keepalive as a state machine: once the link has been
//! idle for the Heartbeat interval it sends a Heartbeat Request; a reply
//! with a new Recovery Time Stamp means that the UPF restarted, which is
//! reported and answered with a new Association Setup; a Heartbeat that
//! gets no answer is followed, after a pause, by a new Association Setup.
//! The caller measures the idle time, sends, waits, and hands back what
//! happened.
use vstd::prelude::*;
use crate::builder::{spec_build_association_setup_request, spec_build_heartbeat_request};
use crate::net::Ipv4Addr;
use crate::sim_flow::{
    association_request, association_result, keepalive_request, observe_heartbeat,
    spec_observe_heartbeat, KeepaliveEvent,
};
use crate::types::PFCP_ASSOCIATION_SETUP_REQ;
use crate::validator::{response_checked, spec_extract_recovery_ts};

verus! {

/// How long the keepalive pauses, in milliseconds, after a Heartbeat that
/// got no answer, before it associates again.
pub const REASSOCIATION_PAUSE_MS: u64 = 5000;

/// Where the keepalive stands.
#[derive(Clone, Copy, Debug, PartialEq, Eq, Structural)]
pub enum KeepalivePhase {
    /// Waiting for the link to be idle for the interval.
    Watching,
    /// The Heartbeat Request `seq` is out.
    Heartbeat { seq: u32 },
    /// Pausing after a Heartbeat that got no answer.
    Pausing,
    /// The Association Setup Request `seq` is out.
    Reassociating { seq: u32 },
    /// Resting for one interval after a round.
    Resting,
}

/// The keepalive's state: its phase, the sequence number of its next
/// request, and the UPF's Recovery Time Stamp as last seen (0 while none).
#[derive(Clone, Copy, Debug, PartialEq, Eq, Structural)]
pub struct KeepaliveState {
    pub phase: KeepalivePhase,
    pub next_seq: u32,
    pub upf_ts: u32,
}

/// What the keepalive works with: the SMF's address, the Heartbeat interval
/// in milliseconds, and the simulator's own Recovery Time Stamp.
#[derive(Clone, Copy, Debug)]
pub struct KeepaliveSetup {
    pub smf_addr: Ipv4Addr,
    pub interval_ms: u64,
    pub recovery_ts: u32,
}

/// What the caller reports.
pub enum KeepaliveInput {
    Start,
    /// The link has been idle for this many milliseconds.
    IdleFor(u64),
    Reply(Vec<u8>),
    SendFailed,
    Waited,
}

pub enum KeepaliveInputView {
    Start,
    IdleFor(u64),
    Reply(Seq<u8>),
    SendFailed,
    Waited,
}

impl View for KeepaliveInput {
    type V = KeepaliveInputView;

    open spec fn view(&self) -> KeepaliveInputView {
        match self {
            KeepaliveInput::Start => KeepaliveInputView::Start,
            KeepaliveInput::IdleFor(ms) => KeepaliveInputView::IdleFor(*ms),
            KeepaliveInput::Reply(m) => KeepaliveInputView::Reply(m@),
            KeepaliveInput::SendFailed => KeepaliveInputView::SendFailed,
            KeepaliveInput::Waited => KeepaliveInputView::Waited,
        }
    }
}

/// What the caller is to do next.
pub enum KeepaliveAction {
    /// Report how long the link has been idle.
    CheckIdle,
    /// Wait this many milliseconds and report `Waited`.
    Wait(u64),
    /// Send the message to the UPF and report its reply.
    Send(Vec<u8>),
}

pub enum KeepaliveActionView {
    CheckIdle,
    Wait(u64),
    Send(Seq<u8>),
}

impl View for KeepaliveAction {
    type V = KeepaliveActionView;

    open spec fn view(&self) -> KeepaliveActionView {
        match self {
            KeepaliveAction::CheckIdle => KeepaliveActionView::CheckIdle,
            KeepaliveAction::Wait(ms) => KeepaliveActionView::Wait(*ms),
            KeepaliveAction::Send(m) => KeepaliveActionView::Send(m@),
        }
    }
}

/// The sequence number after `seq`, wrapping at 2^32.
pub open spec fn next_after(seq: u32) -> u32 {
    if seq == u32::MAX {
        0
    } else {
        (seq + 1) as u32
    }
}

/// The state, the event for the rest of the simulator and the action after
/// `input` in state `s`. An input that the phase does not expect starts the
/// round over.
pub open spec fn spec_keepalive_step(s: KeepaliveState, input: KeepaliveInputView, setup: KeepaliveSetup) -> (
    KeepaliveState,
    Option<KeepaliveEvent>,
    KeepaliveActionView,
) {
    let watch = (KeepaliveState { phase: KeepalivePhase::Watching, ..s }, None, KeepaliveActionView::CheckIdle);
    let associate = KeepaliveActionView::Send(
        spec_build_association_setup_request(s.next_seq, setup.smf_addr, setup.recovery_ts),
    );
    let reassociating = KeepalivePhase::Reassociating { seq: s.next_seq };
    let rest = KeepaliveActionView::Wait(setup.interval_ms);
    match (s.phase, input) {
        (KeepalivePhase::Watching, KeepaliveInputView::IdleFor(ms)) => if ms < setup.interval_ms {
            (s, None, KeepaliveActionView::Wait((setup.interval_ms - ms) as u64))
        } else {
            (
                KeepaliveState {
                    phase: KeepalivePhase::Heartbeat { seq: s.next_seq },
                    next_seq: next_after(s.next_seq),
                    ..s
                },
                None,
                KeepaliveActionView::Send(spec_build_heartbeat_request(s.next_seq, setup.recovery_ts)),
            )
        },
        (KeepalivePhase::Heartbeat { .. }, KeepaliveInputView::Reply(rsp)) => {
            let (ts, ev) = spec_observe_heartbeat(s.upf_ts, rsp);
            match ev {
                Some(_) => (
                    KeepaliveState { phase: reassociating, next_seq: next_after(s.next_seq), upf_ts: ts },
                    ev,
                    associate,
                ),
                None => (KeepaliveState { phase: KeepalivePhase::Resting, upf_ts: ts, ..s }, None, rest),
            }
        },
        (KeepalivePhase::Heartbeat { .. }, KeepaliveInputView::SendFailed) => (
            KeepaliveState { phase: KeepalivePhase::Pausing, ..s },
            None,
            KeepaliveActionView::Wait(REASSOCIATION_PAUSE_MS),
        ),
        (KeepalivePhase::Pausing, KeepaliveInputView::Waited) => (
            KeepaliveState { phase: reassociating, next_seq: next_after(s.next_seq), ..s },
            None,
            associate,
        ),
        (KeepalivePhase::Reassociating { seq }, KeepaliveInputView::Reply(rsp)) => {
            let accepted = response_checked(PFCP_ASSOCIATION_SETUP_REQ, seq, rsp, Ok(()));
            let ts = match spec_extract_recovery_ts(rsp) {
                Some(t) => if accepted {
                    t
                } else {
                    s.upf_ts
                },
                None => s.upf_ts,
            };
            (KeepaliveState { phase: KeepalivePhase::Resting, upf_ts: ts, ..s }, None, rest)
        },
        (KeepalivePhase::Reassociating { .. }, KeepaliveInputView::SendFailed) => (
            KeepaliveState { phase: KeepalivePhase::Resting, ..s },
            None,
            rest,
        ),
        _ => watch,
    }
}

/// One step of the keepalive.
pub fn keepalive_step(state: &mut KeepaliveState, input: KeepaliveInput, setup: &KeepaliveSetup) -> (r: (
    Option<KeepaliveEvent>,
    KeepaliveAction,
))
    ensures
        ({
            let (s2, ev, act) = spec_keepalive_step(*old(state), input@, *setup);
            *final(state) == s2 && r.0 == ev && r.1@ == act
        }),
{
    let s = *state;
    match (s.phase, input) {
        (KeepalivePhase::Watching, KeepaliveInput::IdleFor(ms)) => {
            if ms < setup.interval_ms {
                (None, KeepaliveAction::Wait(setup.interval_ms - ms))
            } else {
                let msg = keepalive_request(s.next_seq, setup.recovery_ts);
                *state = KeepaliveState {
                    phase: KeepalivePhase::Heartbeat { seq: s.next_seq },
                    next_seq: s.next_seq.wrapping_add(1),
                    ..s
                };
                (None, KeepaliveAction::Send(msg))
            }
        },
        (KeepalivePhase::Heartbeat { .. }, KeepaliveInput::Reply(rsp)) => {
            let (ts, ev) = observe_heartbeat(s.upf_ts, &rsp);
            match ev {
                Some(_) => {
                    let msg = association_request(s.next_seq, setup.smf_addr, setup.recovery_ts);
                    *state = KeepaliveState {
                        phase: KeepalivePhase::Reassociating { seq: s.next_seq },
                        next_seq: s.next_seq.wrapping_add(1),
                        upf_ts: ts,
                    };
                    (ev, KeepaliveAction::Send(msg))
                },
                None => {
                    *state = KeepaliveState { phase: KeepalivePhase::Resting, upf_ts: ts, ..s };
                    (None, KeepaliveAction::Wait(setup.interval_ms))
                },
            }
        },
        (KeepalivePhase::Heartbeat { .. }, KeepaliveInput::SendFailed) => {
            *state = KeepaliveState { phase: KeepalivePhase::Pausing, ..s };
            (None, KeepaliveAction::Wait(REASSOCIATION_PAUSE_MS))
        },
        (KeepalivePhase::Pausing, KeepaliveInput::Waited) => {
            let msg = association_request(s.next_seq, setup.smf_addr, setup.recovery_ts);
            *state = KeepaliveState {
                phase: KeepalivePhase::Reassociating { seq: s.next_seq },
                next_seq: s.next_seq.wrapping_add(1),
                ..s
            };
            (None, KeepaliveAction::Send(msg))
        },
        (KeepalivePhase::Reassociating { seq }, KeepaliveInput::Reply(rsp)) => {
            let ts = match association_result(seq, &rsp) {
                Ok(Some(t)) => t,
                _ => s.upf_ts,
            };
            *state = KeepaliveState { phase: KeepalivePhase::Resting, upf_ts: ts, ..s };
            (None, KeepaliveAction::Wait(setup.interval_ms))
        },
        (KeepalivePhase::Reassociating { .. }, KeepaliveInput::SendFailed) => {
            *state = KeepaliveState { phase: KeepalivePhase::Resting, ..s };
            (None, KeepaliveAction::Wait(setup.interval_ms))
        },
        _ => {
            *state = KeepaliveState { phase: KeepalivePhase::Watching, ..s };
            (None, KeepaliveAction::CheckIdle)
        },
    }
}

/// A Heartbeat goes out only once the link has been idle for the whole
/// interval; before that the keepalive waits out the rest of it.
pub proof fn law_heartbeat_only_when_idle(s: KeepaliveState, ms: u64, setup: KeepaliveSetup)
    requires
        s.phase == KeepalivePhase::Watching,
    ensures
        ({
            let (s2, ev, act) = spec_keepalive_step(s, KeepaliveInputView::IdleFor(ms), setup);
            &&& ev is None
            &&& (ms < setup.interval_ms ==> s2 == s && act == KeepaliveActionView::Wait(
                (setup.interval_ms - ms) as u64,
            ))
            &&& (ms >= setup.interval_ms ==> s2.phase == (KeepalivePhase::Heartbeat {
                seq: s.next_seq,
            }) && act == KeepaliveActionView::Send(
                spec_build_heartbeat_request(s.next_seq, setup.recovery_ts),
            ))
        }),
{
}

/// A Heartbeat reply whose Recovery Time Stamp differs from the one seen
/// before reports the UPF's restart, records the new stamp and sends an
/// Association Setup Request; one with the same stamp, the first stamp, or
/// none, changes nothing but the stamp and rests for an interval.
pub proof fn law_restart_reassociates(s: KeepaliveState, rsp: Seq<u8>, setup: KeepaliveSetup)
    requires
        s.phase is Heartbeat,
    ensures
        ({
            let (s2, ev, act) = spec_keepalive_step(s, KeepaliveInputView::Reply(rsp), setup);
            match spec_extract_recovery_ts(rsp) {
                Some(t) => if s.upf_ts != 0 && t != s.upf_ts {
                    &&& ev == Some(KeepaliveEvent::UpfRestarted { new_ts: t })
                    &&& s2.upf_ts == t
                    &&& s2.phase == (KeepalivePhase::Reassociating { seq: s.next_seq })
                    &&& act == KeepaliveActionView::Send(
                        spec_build_association_setup_request(s.next_seq, setup.smf_addr, setup.recovery_ts),
                    )
                } else {
                    &&& ev is None
                    &&& s2.upf_ts == t
                    &&& s2.phase == KeepalivePhase::Resting
                    &&& act == KeepaliveActionView::Wait(setup.interval_ms)
                },
                None => ev is None && s2 == (KeepaliveState { phase: KeepalivePhase::Resting, ..s })
                    && act == KeepaliveActionView::Wait(setup.interval_ms),
            }
        }),
{
}

/// A Heartbeat that gets no answer is followed by a pause and then by an
/// Association Setup Request with the next sequence number.
pub proof fn law_silence_reassociates(s: KeepaliveState, setup: KeepaliveSetup)
    requires
        s.phase is Heartbeat,
    ensures
        ({
            let (s2, ev, act) = spec_keepalive_step(s, KeepaliveInputView::SendFailed, setup);
            let (s3, ev3, act3) = spec_keepalive_step(s2, KeepaliveInputView::Waited, setup);
            &&& ev is None && ev3 is None
            &&& act == KeepaliveActionView::Wait(REASSOCIATION_PAUSE_MS)
            &&& act3 == KeepaliveActionView::Send(
                spec_build_association_setup_request(s.next_seq, setup.smf_addr, setup.recovery_ts),
            )
            &&& s3.phase == (KeepalivePhase::Reassociating { seq: s.next_seq })
            &&& s3.next_seq == next_after(s.next_seq)
            &&& s3.upf_ts == s.upf_ts
        }),
{
}

} // verus!
