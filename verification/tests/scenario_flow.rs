use std::time::Instant;

use upf_edge::builder::build_heartbeat_response;
use upf_edge::header::PfcpHeader;
use upf_edge::net::{Ipv4Addr, SocketAddr};
use upf_edge::scenario::{lifecycle_step, LifecycleAction, LifecycleError, LifecycleEvent, LifecyclePhase, LifecycleSetup};
use upf_edge::server::PfcpServer;
use upf_edge::sim_config::SessionConfig;
use upf_edge::sim_state::SimState;
use upf_edge::validator::ResponseError;

fn setup() -> LifecycleSetup {
    LifecycleSetup {
        smf_addr: Ipv4Addr::new(10, 0, 0, 1),
        gnb_addr: Ipv4Addr::new(192, 168, 1, 100),
        heartbeat_interval_sec: 15,
        recovery_ts: 42,
    }
}

fn sim() -> SimState {
    SimState::new(&SessionConfig {
        ue_ip_pool_start: Ipv4Addr::new(10, 60, 0, 1),
        ue_ip_pool_end: Ipv4Addr::new(10, 60, 0, 9),
        gnb_teid_start: 0x100,
        max_session: 10,
    })
}

#[test]
fn lifecycle_scenario_runs_against_the_upf() {
    let smf = SocketAddr::new_v4(Ipv4Addr::new(10, 0, 0, 1), 8805);
    let mut upf = PfcpServer::new(Ipv4Addr::new(10, 0, 0, 10), Ipv4Addr::new(10, 45, 0, 4));
    let mut state = sim();
    let mut phase = LifecyclePhase::Idle;
    let mut ev = LifecycleEvent::Start;
    let mut sent = Vec::new();
    let mut waits = Vec::new();
    loop {
        match lifecycle_step(&mut state, &mut phase, ev, &setup(), Instant::now()) {
            LifecycleAction::Send(msg) => {
                sent.push(PfcpHeader::decode(&msg).unwrap().0.msg_type);
                let rep = upf.handle_message(&msg, smf, Instant::now()).unwrap();
                ev = LifecycleEvent::Reply(rep.response);
            }
            LifecycleAction::Wait(secs) => {
                waits.push(secs);
                ev = LifecycleEvent::Waited;
            }
            LifecycleAction::Finish(r) => {
                assert!(r.is_ok());
                break;
            }
        }
    }
    assert_eq!(sent, vec![5, 50, 52, 54]);
    assert_eq!(waits, vec![50]);
    assert_eq!(phase, LifecyclePhase::Done);
    assert!(state.sessions.is_empty());
    assert!(upf.sessions.is_empty());
}

#[test]
fn refused_association_backs_off() {
    let mut state = sim();
    let mut phase = LifecyclePhase::Idle;
    assert!(matches!(
        lifecycle_step(&mut state, &mut phase, LifecycleEvent::Start, &setup(), Instant::now()),
        LifecycleAction::Send(_)
    ));
    assert_eq!(phase, LifecyclePhase::Associating { tries: 1, seq: 1 });
    let wrong = build_heartbeat_response(1, 1);
    let a = lifecycle_step(&mut state, &mut phase, LifecycleEvent::Reply(wrong), &setup(), Instant::now());
    assert!(matches!(a, LifecycleAction::Wait(3)));
    assert!(matches!(
        lifecycle_step(&mut state, &mut phase, LifecycleEvent::Waited, &setup(), Instant::now()),
        LifecycleAction::Send(_)
    ));
    let a = lifecycle_step(&mut state, &mut phase, LifecycleEvent::SendFailed, &setup(), Instant::now());
    assert!(matches!(a, LifecycleAction::Wait(6)));
}

#[test]
fn out_of_order_event_is_reported() {
    let mut state = sim();
    let mut phase = LifecyclePhase::Idle;
    let a = lifecycle_step(&mut state, &mut phase, LifecycleEvent::Waited, &setup(), Instant::now());
    assert!(matches!(a, LifecycleAction::Finish(Err(LifecycleError::OutOfOrder))));
    assert_eq!(phase, LifecyclePhase::Idle);
}

#[test]
fn refused_modification_reports_why() {
    let mut state = sim();
    let mut phase = LifecyclePhase::Modifying { seq: 7, cp_seid: 1, upf_seid: 2 };
    let wrong = build_heartbeat_response(7, 1);
    let a = lifecycle_step(&mut state, &mut phase, LifecycleEvent::Reply(wrong), &setup(), Instant::now());
    match a {
        LifecycleAction::Finish(Err(LifecycleError::Response(ResponseError::TypeMismatch { expected, got }))) => {
            assert_eq!(expected, 53);
            assert_eq!(got, 2);
        }
        _ => panic!("expected a type mismatch"),
    }
    assert_eq!(phase, LifecyclePhase::Done);
}
