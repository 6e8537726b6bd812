use upf_edge::builder::{build_association_setup_request, build_association_setup_response, build_heartbeat_request, build_heartbeat_response};
use upf_edge::keepalive::{
    keepalive_step, KeepaliveAction, KeepaliveInput, KeepalivePhase, KeepaliveSetup, KeepaliveState,
    REASSOCIATION_PAUSE_MS,
};
use upf_edge::net::Ipv4Addr;
use upf_edge::sim_flow::KeepaliveEvent;

fn setup() -> KeepaliveSetup {
    KeepaliveSetup { smf_addr: Ipv4Addr::new(10, 0, 0, 1), interval_ms: 5000, recovery_ts: 42 }
}

fn sent(action: KeepaliveAction) -> Vec<u8> {
    match action {
        KeepaliveAction::Send(msg) => msg,
        _ => panic!("expected a message to send"),
    }
}

fn waited(action: KeepaliveAction) -> u64 {
    match action {
        KeepaliveAction::Wait(ms) => ms,
        _ => panic!("expected a wait"),
    }
}

#[test]
fn keepalive_waits_out_the_interval() {
    let mut s = KeepaliveState { phase: KeepalivePhase::Watching, next_seq: 100, upf_ts: 0 };
    let (ev, act) = keepalive_step(&mut s, KeepaliveInput::Start, &setup());
    assert!(ev.is_none());
    assert!(matches!(act, KeepaliveAction::CheckIdle));
    let (ev, act) = keepalive_step(&mut s, KeepaliveInput::IdleFor(1200), &setup());
    assert!(ev.is_none());
    assert_eq!(waited(act), 3800);
    assert_eq!(s, KeepaliveState { phase: KeepalivePhase::Watching, next_seq: 100, upf_ts: 0 });
}

#[test]
fn keepalive_heartbeat_then_restart_reassociates() {
    let mut s = KeepaliveState { phase: KeepalivePhase::Watching, next_seq: 100, upf_ts: 0 };
    let (_, act) = keepalive_step(&mut s, KeepaliveInput::IdleFor(5000), &setup());
    assert_eq!(sent(act), build_heartbeat_request(100, 42));
    assert_eq!(s.phase, KeepalivePhase::Heartbeat { seq: 100 });
    assert_eq!(s.next_seq, 101);
    // First stamp seen: recorded, nothing reported.
    let (ev, act) = keepalive_step(&mut s, KeepaliveInput::Reply(build_heartbeat_response(100, 7)), &setup());
    assert!(ev.is_none());
    assert_eq!(waited(act), 5000);
    assert_eq!(s.upf_ts, 7);
    assert_eq!(s.phase, KeepalivePhase::Resting);
    let (_, act) = keepalive_step(&mut s, KeepaliveInput::Waited, &setup());
    assert!(matches!(act, KeepaliveAction::CheckIdle));
    assert_eq!(s.phase, KeepalivePhase::Watching);
    let (_, act) = keepalive_step(&mut s, KeepaliveInput::IdleFor(9000), &setup());
    assert_eq!(sent(act), build_heartbeat_request(101, 42));
    // A new stamp: the UPF restarted.
    let (ev, act) = keepalive_step(&mut s, KeepaliveInput::Reply(build_heartbeat_response(101, 9)), &setup());
    assert_eq!(ev, Some(KeepaliveEvent::UpfRestarted { new_ts: 9 }));
    assert_eq!(sent(act), build_association_setup_request(102, Ipv4Addr::new(10, 0, 0, 1), 42));
    assert_eq!(s, KeepaliveState { phase: KeepalivePhase::Reassociating { seq: 102 }, next_seq: 103, upf_ts: 9 });
    let rsp = build_association_setup_response(102, Ipv4Addr::new(10, 0, 0, 10), 11);
    let (ev, act) = keepalive_step(&mut s, KeepaliveInput::Reply(rsp), &setup());
    assert!(ev.is_none());
    assert_eq!(waited(act), 5000);
    assert_eq!(s, KeepaliveState { phase: KeepalivePhase::Resting, next_seq: 103, upf_ts: 11 });
}

#[test]
fn keepalive_silence_pauses_then_reassociates() {
    let mut s = KeepaliveState { phase: KeepalivePhase::Heartbeat { seq: 7 }, next_seq: 8, upf_ts: 5 };
    let (ev, act) = keepalive_step(&mut s, KeepaliveInput::SendFailed, &setup());
    assert!(ev.is_none());
    assert_eq!(waited(act), REASSOCIATION_PAUSE_MS);
    assert_eq!(REASSOCIATION_PAUSE_MS, 5000);
    let (_, act) = keepalive_step(&mut s, KeepaliveInput::Waited, &setup());
    assert_eq!(sent(act), build_association_setup_request(8, Ipv4Addr::new(10, 0, 0, 1), 42));
    assert_eq!(s.phase, KeepalivePhase::Reassociating { seq: 8 });
    // A refused answer keeps the stamp.
    let wrong = build_association_setup_response(99, Ipv4Addr::new(10, 0, 0, 10), 11);
    let (_, act) = keepalive_step(&mut s, KeepaliveInput::Reply(wrong), &setup());
    assert_eq!(waited(act), 5000);
    assert_eq!(s.upf_ts, 5);
}
