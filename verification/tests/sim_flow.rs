use std::time::Instant;

use upf_edge::builder::{build_heartbeat_request, build_heartbeat_response, build_session_deletion_response};
use upf_edge::header::PfcpHeader;
use upf_edge::net::{Ipv4Addr, SocketAddr};
use upf_edge::server::PfcpServer;
use upf_edge::messages::SessionEstablishmentReq;
use upf_edge::sim_config::SessionConfig;
use upf_edge::sim_flow::{
    association_request, association_result, begin_add_session, begin_delete_session, expected_response,
    finish_add_session, finish_delete_session, is_response, lifecycle_establishment_request, observe_heartbeat,
    recovery_ts_of, retry_wait_secs, single_establishment_request, tunnel_update_request, unsolicited_reply,
    KeepaliveEvent,
};
use upf_edge::sim_state::{PoolExhausted, SimState};
use upf_edge::types::{
    PFCP_HEARTBEAT_RSP, PFCP_SESSION_DELETION_REQ, PFCP_SESSION_DELETION_RSP, PFCP_SESSION_ESTABLISHMENT_RSP,
};
use upf_edge::validator::{extract_recovery_ts, validate_response, ResponseError};

fn config(start: Ipv4Addr, end: Ipv4Addr) -> SessionConfig {
    SessionConfig { ue_ip_pool_start: start, ue_ip_pool_end: end, gnb_teid_start: 0x100, max_session: 10 }
}

fn smf_ip() -> Ipv4Addr {
    Ipv4Addr::new(10, 0, 0, 1)
}

fn smf_sock() -> SocketAddr {
    SocketAddr::new_v4(smf_ip(), 8805)
}

#[test]
fn recovery_ts_is_ntp_seconds() {
    assert_eq!(recovery_ts_of(0), 2_208_988_800);
    assert_eq!(recovery_ts_of(1_700_000_000), 1_700_000_000u32.wrapping_add(2_208_988_800));
}

#[test]
fn retry_wait_doubles_up_to_thirty_seconds() {
    assert_eq!(retry_wait_secs(1), 3);
    assert_eq!(retry_wait_secs(2), 6);
    assert_eq!(retry_wait_secs(3), 12);
    assert_eq!(retry_wait_secs(4), 24);
    assert_eq!(retry_wait_secs(5), 30);
    assert_eq!(retry_wait_secs(20), 30);
}

#[test]
fn association_with_the_upf() {
    let mut upf = PfcpServer::new(Ipv4Addr::new(10, 0, 0, 10), Ipv4Addr::new(10, 45, 0, 4));
    let req = association_request(1, smf_ip(), 42);
    let rep = upf.handle_message(&req, smf_sock(), Instant::now()).unwrap();
    assert_eq!(association_result(1, &rep.response).unwrap(), Some(upf.recovery_ts));
    assert!(matches!(
        association_result(2, &rep.response),
        Err(ResponseError::SeqMismatch { expected: 2, got: 1 })
    ));
}

#[test]
fn add_and_delete_session_against_the_upf() {
    let mut upf = PfcpServer::new(Ipv4Addr::new(10, 0, 0, 10), Ipv4Addr::new(10, 45, 0, 4));
    let rep = upf.handle_message(&association_request(1, smf_ip(), 42), smf_sock(), Instant::now()).unwrap();
    assert!(association_result(1, &rep.response).is_ok());

    let mut sim = SimState::new(&config(Ipv4Addr::new(10, 60, 0, 1), Ipv4Addr::new(10, 60, 0, 9)));
    let p = begin_add_session(&mut sim, smf_ip(), Ipv4Addr::new(192, 168, 1, 100)).ok().unwrap();
    assert_eq!(p.ue_ip, Ipv4Addr::new(10, 60, 0, 1));
    assert_eq!(p.gnb_teid, 0x100);
    assert_eq!(p.cp_seid, 1);
    assert_eq!(p.seq, 1);
    let rsp = upf.handle_message(&p.request, smf_sock(), Instant::now()).unwrap().response;
    assert!(is_response(&rsp, PFCP_SESSION_ESTABLISHMENT_RSP));
    let upf_seid = finish_add_session(&mut sim, &p, &rsp, Instant::now()).ok().unwrap();
    assert_eq!(upf_seid, 1);
    let s = sim.session(1).unwrap();
    assert_eq!(s.upf_seid, 1);
    assert_eq!(s.upf_n3_addr, Ipv4Addr::new(10, 45, 0, 4));
    assert_eq!(s.ue_ip, Ipv4Addr::new(10, 60, 0, 1));

    let (seq, del) = begin_delete_session(&mut sim, 1).unwrap();
    assert_eq!(seq, 2);
    assert_eq!(expected_response(&del), Some(PFCP_SESSION_DELETION_RSP));
    let (h, _) = PfcpHeader::decode(&del).unwrap();
    assert_eq!(h.msg_type, PFCP_SESSION_DELETION_REQ);
    assert_eq!(h.seid, Some(1));
    let rsp = upf.handle_message(&del, smf_sock(), Instant::now()).unwrap().response;
    assert!(validate_response(PFCP_SESSION_DELETION_REQ, seq, &rsp).is_ok());
    finish_delete_session(&mut sim, 1);
    assert!(sim.session(1).is_none());
    assert!(upf.sessions.is_empty());
}

#[test]
fn delete_of_unknown_session_sends_nothing() {
    let mut sim = SimState::new(&config(Ipv4Addr::new(10, 60, 0, 1), Ipv4Addr::new(10, 60, 0, 9)));
    assert!(begin_delete_session(&mut sim, 5).is_none());
}

#[test]
fn pool_exhaustion_is_reported() {
    let mut sim = SimState::new(&config(Ipv4Addr::new(10, 60, 0, 1), Ipv4Addr::new(10, 60, 0, 1)));
    assert!(sim.alloc_ue_ip().is_ok());
    assert_eq!(sim.alloc_ue_ip(), Err(PoolExhausted));
    let r = begin_add_session(&mut sim, smf_ip(), Ipv4Addr::new(192, 168, 1, 100));
    assert!(matches!(r, Err(PoolExhausted)));
}

#[test]
fn sim_counters_move_on() {
    let mut sim = SimState::new(&config(Ipv4Addr::new(10, 60, 0, 1), Ipv4Addr::new(10, 60, 0, 9)));
    assert_eq!(sim.next_seq_num(), 1);
    assert_eq!(sim.next_seq_num(), 2);
    assert_eq!(sim.alloc_gnb_teid(), 0x100);
    assert_eq!(sim.alloc_gnb_teid(), 0x101);
    assert_eq!(sim.alloc_cp_seid(), 1);
    assert_eq!(sim.alloc_ue_ip(), Ok(Ipv4Addr::new(10, 60, 0, 1)));
    assert_eq!(sim.alloc_ue_ip(), Ok(Ipv4Addr::new(10, 60, 0, 2)));
}

#[test]
fn heartbeat_observation_detects_restart() {
    let first = build_heartbeat_response(1, 100);
    assert_eq!(observe_heartbeat(0, &first), (100, None));
    assert_eq!(observe_heartbeat(100, &first), (100, None));
    let later = build_heartbeat_response(2, 200);
    assert_eq!(observe_heartbeat(100, &later), (200, Some(KeepaliveEvent::UpfRestarted { new_ts: 200 })));
    assert_eq!(observe_heartbeat(100, &[1, 2]), (100, None));
}

#[test]
fn unsolicited_heartbeat_is_answered() {
    let req = build_heartbeat_request(33, 5);
    let rsp = unsolicited_reply(&req, 77).unwrap();
    let (h, _) = PfcpHeader::decode(&rsp).unwrap();
    assert_eq!(h.msg_type, PFCP_HEARTBEAT_RSP);
    assert_eq!(h.seq_num, 33);
    assert_eq!(extract_recovery_ts(&rsp), Some(77));
    let other = build_session_deletion_response(1, 1);
    assert!(unsolicited_reply(&other, 77).is_none());
}

#[test]
fn response_type_mismatch_is_reported() {
    let rsp = build_heartbeat_response(1, 1);
    assert!(matches!(
        validate_response(PFCP_SESSION_DELETION_REQ, 1, &rsp),
        Err(ResponseError::TypeMismatch { expected: PFCP_SESSION_DELETION_RSP, got: PFCP_HEARTBEAT_RSP })
    ));
}

#[test]
fn single_establishment_request_contents() {
    let msg = single_establishment_request(2, smf_ip(), 1, Ipv4Addr::new(10, 45, 0, 100), Ipv4Addr::new(192, 168, 1, 100), 0x80000001);
    let (h, body) = PfcpHeader::decode(&msg).unwrap();
    assert_eq!(h.msg_type, upf_edge::types::PFCP_SESSION_ESTABLISHMENT_REQ);
    assert_eq!(h.seq_num, 2);
    let req = SessionEstablishmentReq::decode(body).unwrap();
    assert_eq!(req.cp_seid, 1);
    assert_eq!(req.create_pdrs.len(), 1);
    assert_eq!(req.create_pdrs[0].far_id, Some(2));
    assert_eq!(req.create_pdrs[0].ue_ip, Some(Ipv4Addr::new(10, 45, 0, 100)));
    assert_eq!(req.create_fars.len(), 2);
    let ohc = req.create_fars[1].outer_header_creation.unwrap();
    assert_eq!(ohc.teid, 0x80000001);
    assert_eq!(ohc.peer_addr, Ipv4Addr::new(192, 168, 1, 100));
}

#[test]
fn lifecycle_requests_against_the_upf() {
    let mut upf = PfcpServer::new(Ipv4Addr::new(10, 0, 0, 10), Ipv4Addr::new(10, 45, 0, 4));
    upf.handle_message(&association_request(1, smf_ip(), 42), smf_sock(), Instant::now()).unwrap();
    let ue = Ipv4Addr::new(10, 60, 0, 7);
    let req = lifecycle_establishment_request(2, smf_ip(), 9, ue, Ipv4Addr::new(192, 168, 1, 100), 0x77);
    let rsp = upf.handle_message(&req, smf_sock(), Instant::now()).unwrap().response;
    let (upf_seid, _, _) = upf_edge::validator::extract_session_info(&rsp).unwrap();
    assert_eq!(upf.tables.session_map.get(&ue.to_bits()).unwrap().pdr_count, 2);
    let upd = tunnel_update_request(3, upf_seid, Ipv4Addr::new(192, 168, 1, 101), 0xdead_beef);
    let rsp = upf.handle_message(&upd, smf_sock(), Instant::now()).unwrap().response;
    assert!(validate_response(upf_edge::types::PFCP_SESSION_MODIFICATION_REQ, 3, &rsp).is_ok());
    let d = upf.sessions.get(&upf_seid).unwrap();
    assert_eq!(d.teid, 0xdead_beef);
    assert_eq!(d.gnb_ip, Ipv4Addr::new(192, 168, 1, 101));
}
