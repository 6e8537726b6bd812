use std::time::Instant;

use upf_edge::builder::{
    build_association_setup_request, build_heartbeat_request, build_session_deletion_request,
    build_session_establishment_request, FarParams, MsgBuilder,
};
use upf_edge::header::{PfcpError, PfcpHeader};
use upf_edge::ie::{iter_ies, parse_recovery_timestamp, OuterHeaderCreation};
use upf_edge::net::{Ipv4Addr, SocketAddr};
use upf_edge::server::{decode_header, keepalive_sleep_ms, PfcpServer, UpfEffect, UpfError};
use upf_edge::types::{
    ACTION_DROP, ACTION_FORW, INTERFACE_ACCESS, PFCP_ASSOCIATION_SETUP_RSP, PFCP_HEARTBEAT_RSP,
    PFCP_SESSION_DELETION_RSP, PFCP_SESSION_ESTABLISHMENT_RSP, PFCP_SESSION_MODIFICATION_REQ,
    PFCP_SESSION_MODIFICATION_RSP,
};
use upf_edge::validator::extract_session_info;

fn smf() -> SocketAddr {
    SocketAddr::new_v4(Ipv4Addr::new(10, 0, 0, 1), 8805)
}

fn other_smf() -> SocketAddr {
    SocketAddr::new_v4(Ipv4Addr::new(10, 0, 0, 2), 8805)
}

fn server() -> PfcpServer {
    PfcpServer::new(Ipv4Addr::new(10, 0, 0, 10), Ipv4Addr::new(10, 45, 0, 4))
}

fn associate(s: &mut PfcpServer, from: SocketAddr, node: Ipv4Addr, ts: u32) {
    let req = build_association_setup_request(1, node, ts);
    let rep = s.handle_message(&req, from, Instant::now()).unwrap();
    let (h, _) = PfcpHeader::decode(&rep.response).unwrap();
    assert_eq!(h.msg_type, PFCP_ASSOCIATION_SETUP_RSP);
}

fn establish(s: &mut PfcpServer, from: SocketAddr, cp_seid: u64, ue: Ipv4Addr) -> u64 {
    let req = build_session_establishment_request(
        2,
        Ipv4Addr::new(10, 0, 0, 1),
        cp_seid,
        ue,
        Ipv4Addr::new(192, 168, 1, 100),
        0x1234,
    );
    let rep = s.handle_message(&req, from, Instant::now()).unwrap();
    let (h, _) = PfcpHeader::decode(&rep.response).unwrap();
    assert_eq!(h.msg_type, PFCP_SESSION_ESTABLISHMENT_RSP);
    assert_eq!(h.seid, Some(cp_seid));
    extract_session_info(&rep.response).unwrap().0
}

#[test]
fn association_setup_is_answered_and_recorded() {
    let mut s = server();
    associate(&mut s, smf(), Ipv4Addr::new(10, 0, 0, 1), 77);
    assert_eq!(s.peer_addr, Some(smf()));
    assert_eq!(s.associations[0].recovery_ts, 77);
    assert_eq!(s.associations.len(), 1);
}

#[test]
fn repeated_association_setup_keeps_one_association() {
    let mut s = server();
    associate(&mut s, smf(), Ipv4Addr::new(10, 0, 0, 1), 77);
    associate(&mut s, smf(), Ipv4Addr::new(10, 0, 0, 1), 77);
    assert_eq!(s.associations.len(), 1);
}

#[test]
fn heartbeat_is_answered_with_own_recovery_timestamp() {
    let mut s = server();
    let req = build_heartbeat_request(9, 5);
    let rep = s.handle_message(&req, smf(), Instant::now()).unwrap();
    let (h, body) = PfcpHeader::decode(&rep.response).unwrap();
    assert_eq!(h.msg_type, PFCP_HEARTBEAT_RSP);
    assert_eq!(h.seq_num, 9);
    let ies = iter_ies(body);
    assert_eq!(parse_recovery_timestamp(ies[0].value).unwrap(), s.recovery_ts);
}

#[test]
fn establishment_installs_session_and_rules() {
    let mut s = server();
    associate(&mut s, smf(), Ipv4Addr::new(10, 0, 0, 1), 77);
    let ue = Ipv4Addr::new(10, 60, 0, 1);
    let seid = establish(&mut s, smf(), 0xABCD, ue);
    assert_eq!(seid, 1);
    let d = s.sessions.get(&seid).unwrap();
    assert_eq!(d.ue_ip, ue);
    assert_eq!(d.teid, 1000);
    assert_eq!(d.gnb_ip, Ipv4Addr::new(192, 168, 1, 100));
    assert_eq!(d.cp_seid, 0xABCD);
    let info = s.tables.session_map.get(&ue.to_bits()).unwrap();
    assert_eq!(info.seid, seid);
    assert_eq!(info.teid, 1000);
    assert!(info.pdr_count >= 1);
    assert!(!s.tables.pdr_map.is_empty());
    assert!(!s.tables.far_map.is_empty());
    assert_eq!(s.next_seid, 2);
    assert_eq!(s.next_teid, 1001);
}

#[test]
fn establishment_from_unassociated_source_is_refused() {
    let mut s = server();
    let req = build_session_establishment_request(
        2,
        Ipv4Addr::new(10, 0, 0, 1),
        7,
        Ipv4Addr::new(10, 60, 0, 1),
        Ipv4Addr::new(192, 168, 1, 100),
        1,
    );
    let r = s.handle_message(&req, smf(), Instant::now());
    assert!(matches!(r, Err(UpfError::NoAssociation(a)) if a == smf()));
    assert!(s.sessions.is_empty());
    assert_eq!(s.next_seid, 1);
}

#[test]
fn deletion_restores_the_tables() {
    let mut s = server();
    associate(&mut s, smf(), Ipv4Addr::new(10, 0, 0, 1), 77);
    let seid = establish(&mut s, smf(), 0xABCD, Ipv4Addr::new(10, 60, 0, 1));
    let req = build_session_deletion_request(3, seid);
    let rep = s.handle_message(&req, smf(), Instant::now()).unwrap();
    let (h, _) = PfcpHeader::decode(&rep.response).unwrap();
    assert_eq!(h.msg_type, PFCP_SESSION_DELETION_RSP);
    assert_eq!(h.seid, Some(seid));
    assert!(s.sessions.is_empty());
    assert!(s.tables.session_map.is_empty());
    assert!(s.tables.pdr_map.is_empty());
    assert!(s.tables.far_map.is_empty());
    assert!(s.associations[0].sessions.is_empty());
}

#[test]
fn deletion_of_unknown_session_is_refused() {
    let mut s = server();
    associate(&mut s, smf(), Ipv4Addr::new(10, 0, 0, 1), 77);
    let req = build_session_deletion_request(3, 99);
    let r = s.handle_message(&req, smf(), Instant::now());
    assert!(matches!(r, Err(UpfError::UnknownSeid(99))));
}

#[test]
fn foreign_deletion_is_refused_and_changes_nothing() {
    let mut s = server();
    associate(&mut s, smf(), Ipv4Addr::new(10, 0, 0, 1), 77);
    associate(&mut s, other_smf(), Ipv4Addr::new(10, 0, 0, 2), 78);
    let seid = establish(&mut s, smf(), 0xABCD, Ipv4Addr::new(10, 60, 0, 1));
    let req = build_session_deletion_request(3, seid);
    let r = s.handle_message(&req, other_smf(), Instant::now());
    assert!(matches!(r, Err(UpfError::OwnershipViolation { cp_seid: 0xABCD })));
    assert_eq!(s.sessions.len(), 1);
    assert_eq!(s.tables.session_map.len(), 1);
}

#[test]
fn modification_updates_far_and_tunnel() {
    let mut s = server();
    associate(&mut s, smf(), Ipv4Addr::new(10, 0, 0, 1), 77);
    let ue = Ipv4Addr::new(10, 60, 0, 1);
    let seid = establish(&mut s, smf(), 0xABCD, ue);
    let hdr = PfcpHeader::new_session_msg(PFCP_SESSION_MODIFICATION_REQ, seid, 4);
    let mut b = MsgBuilder::new(hdr);
    b.add_update_far(&FarParams {
        far_id: 2,
        apply_action: ACTION_FORW,
        dest_interface: INTERFACE_ACCESS,
        outer_header_creation: Some(OuterHeaderCreation {
            teid: 0x5555,
            peer_addr: Ipv4Addr::new(192, 168, 1, 200),
            port: 2152,
        }),
    });
    let req = b.finish();
    let rep = s.handle_message(&req, smf(), Instant::now()).unwrap();
    let (h, _) = PfcpHeader::decode(&rep.response).unwrap();
    assert_eq!(h.msg_type, PFCP_SESSION_MODIFICATION_RSP);
    assert_eq!(h.seid, Some(0xABCD));
    let d = s.sessions.get(&seid).unwrap();
    assert_eq!(d.teid, 0x5555);
    assert_eq!(d.gnb_ip, Ipv4Addr::new(192, 168, 1, 200));
    let info = s.tables.session_map.get(&ue.to_bits()).unwrap();
    assert_eq!(info.teid, 0x5555);
    assert_eq!(info.gnb_ip, Ipv4Addr::new(192, 168, 1, 200).to_bits());
}

#[test]
fn modification_to_drop_keeps_tunnel() {
    let mut s = server();
    associate(&mut s, smf(), Ipv4Addr::new(10, 0, 0, 1), 77);
    let ue = Ipv4Addr::new(10, 60, 0, 1);
    let seid = establish(&mut s, smf(), 0xABCD, ue);
    let hdr = PfcpHeader::new_session_msg(PFCP_SESSION_MODIFICATION_REQ, seid, 4);
    let mut b = MsgBuilder::new(hdr);
    b.add_update_far(&FarParams {
        far_id: 2,
        apply_action: ACTION_DROP,
        dest_interface: INTERFACE_ACCESS,
        outer_header_creation: None,
    });
    let req = b.finish();
    assert!(s.handle_message(&req, smf(), Instant::now()).is_ok());
    assert_eq!(s.sessions.get(&seid).unwrap().teid, 1000);
}

#[test]
fn modification_without_seid_is_refused() {
    let mut s = server();
    associate(&mut s, smf(), Ipv4Addr::new(10, 0, 0, 1), 77);
    let hdr = PfcpHeader::new_node_msg(PFCP_SESSION_MODIFICATION_REQ, 4);
    let req = MsgBuilder::new(hdr).finish();
    let r = s.handle_message(&req, smf(), Instant::now());
    assert!(matches!(r, Err(UpfError::MissingSeid)));
}

#[test]
fn unknown_request_type_is_refused_and_responses_ignored() {
    let mut s = server();
    let req = MsgBuilder::new(PfcpHeader::new_node_msg(7, 1)).finish();
    assert!(matches!(s.handle_message(&req, smf(), Instant::now()), Err(UpfError::Unhandled(7))));
    let rsp = MsgBuilder::new(PfcpHeader::new_node_msg(PFCP_HEARTBEAT_RSP, 1)).finish();
    let rep = s.handle_message(&rsp, smf(), Instant::now()).unwrap();
    assert!(rep.response.is_empty());
    assert!(rep.effects.is_empty());
}

#[test]
fn short_message_is_refused() {
    let mut s = server();
    let r = s.handle_message(&[0x20, 0x01], smf(), Instant::now());
    assert!(matches!(r, Err(UpfError::Pfcp(PfcpError::BufferTooShort { .. }))));
}

#[test]
fn ipv6_source_is_refused() {
    let mut s = server();
    let from = SocketAddr::V6 { ip: 1, port: 8805, flowinfo: 0, scope_id: 0 };
    let req = build_session_establishment_request(
        2,
        Ipv4Addr::new(10, 0, 0, 1),
        7,
        Ipv4Addr::new(10, 60, 0, 1),
        Ipv4Addr::new(192, 168, 1, 100),
        1,
    );
    assert!(matches!(s.handle_message(&req, from, Instant::now()), Err(UpfError::NonIpv4Source)));
}

#[test]
fn keepalive_waits_for_the_interval_and_a_peer() {
    let mut s = server();
    let mut seq = 200u32;
    assert!(s.keepalive_request(60_000, 30_000, 0, &mut seq).is_none());
    assert_eq!(seq, 200);
    associate(&mut s, smf(), Ipv4Addr::new(10, 0, 0, 1), 77);
    assert!(s.keepalive_request(10_000, 30_000, 0, &mut seq).is_none());
    let (msg, to) = s.keepalive_request(30_000, 30_000, 0, &mut seq).unwrap();
    assert_eq!(to, smf());
    assert_eq!(seq, 201);
    let (h, _) = PfcpHeader::decode(&msg).unwrap();
    assert_eq!(h.seq_num, 200);
}

#[test]
fn keepalive_sleep_is_rest_of_interval() {
    assert_eq!(keepalive_sleep_ms(10_000, 30_000), 20_000);
    assert_eq!(keepalive_sleep_ms(30_000, 30_000), 1);
}

#[test]
fn heartbeat_with_new_stamp_forgets_owned_sessions() {
    let mut s = server();
    associate(&mut s, smf(), Ipv4Addr::new(10, 0, 0, 1), 77);
    establish(&mut s, smf(), 0xABCD, Ipv4Addr::new(10, 60, 0, 1));
    assert_eq!(s.associations[0].sessions.len(), 1);
    let same = build_heartbeat_request(5, 77);
    s.handle_message(&same, smf(), Instant::now()).unwrap();
    assert_eq!(s.associations[0].sessions.len(), 1);
    let restarted = build_heartbeat_request(6, 78);
    s.handle_message(&restarted, smf(), Instant::now()).unwrap();
    assert!(s.associations[0].sessions.is_empty());
    assert_eq!(s.associations[0].recovery_ts, 78);
}

#[test]
fn association_restart_replaces_and_disowns() {
    let mut s = server();
    associate(&mut s, smf(), Ipv4Addr::new(10, 0, 0, 1), 77);
    let seid = establish(&mut s, smf(), 0xABCD, Ipv4Addr::new(10, 60, 0, 1));
    associate(&mut s, smf(), Ipv4Addr::new(10, 0, 0, 1), 99);
    assert_eq!(s.associations.len(), 1);
    assert_eq!(s.associations[0].recovery_ts, 99);
    assert!(s.associations[0].sessions.is_empty());
    // The session now belongs to no association: deleting it is refused.
    let req = build_session_deletion_request(3, seid);
    assert!(matches!(
        s.handle_message(&req, smf(), Instant::now()),
        Err(UpfError::OwnershipViolation { cp_seid: 0xABCD })
    ));
}

#[test]
fn foreign_modification_is_refused_and_changes_nothing() {
    let mut s = server();
    associate(&mut s, smf(), Ipv4Addr::new(10, 0, 0, 1), 77);
    associate(&mut s, other_smf(), Ipv4Addr::new(10, 0, 0, 2), 78);
    let seid = establish(&mut s, smf(), 0xABCD, Ipv4Addr::new(10, 60, 0, 1));
    let mut b = MsgBuilder::new(PfcpHeader::new_session_msg(PFCP_SESSION_MODIFICATION_REQ, seid, 4));
    b.add_update_far(&FarParams {
        far_id: 2,
        apply_action: ACTION_FORW,
        dest_interface: INTERFACE_ACCESS,
        outer_header_creation: Some(OuterHeaderCreation {
            teid: 0x5555,
            peer_addr: Ipv4Addr::new(192, 168, 1, 200),
            port: 2152,
        }),
    });
    let r = s.handle_message(&b.finish(), other_smf(), Instant::now());
    assert!(matches!(r, Err(UpfError::OwnershipViolation { cp_seid: 0xABCD })));
    assert_eq!(s.sessions.get(&seid).unwrap().teid, 1000);
}

#[test]
fn decode_header_lists_missing_mandatory_ies() {
    let hb = build_heartbeat_request(1, 5);
    let (h, body, missing) = decode_header(&hb).unwrap();
    assert_eq!(h.seq_num, 1);
    assert_eq!(body.len(), hb.len() - h.header_len());
    assert!(missing.is_empty());
    let bare = MsgBuilder::new(PfcpHeader::new_node_msg(upf_edge::types::PFCP_ASSOCIATION_SETUP_REQ, 2)).finish();
    let (_, _, missing) = decode_header(&bare).unwrap();
    assert!(missing.contains(&"Node ID"));
    assert!(decode_header(&[0x20]).is_err());
}

#[test]
fn source_port_is_part_of_the_association() {
    let mut s = server();
    associate(&mut s, smf(), Ipv4Addr::new(10, 0, 0, 1), 77);
    let same_host_other_port = SocketAddr::new_v4(Ipv4Addr::new(10, 0, 0, 1), 9999);
    let req = build_session_establishment_request(
        2,
        Ipv4Addr::new(10, 0, 0, 1),
        7,
        Ipv4Addr::new(10, 60, 0, 1),
        Ipv4Addr::new(192, 168, 1, 100),
        1,
    );
    assert!(matches!(
        s.handle_message(&req, same_host_other_port, Instant::now()),
        Err(UpfError::NoAssociation(_))
    ));
}

#[test]
fn ue_route_follows_the_session() {
    let mut s = server();
    associate(&mut s, smf(), Ipv4Addr::new(10, 0, 0, 1), 77);
    let ue = Ipv4Addr::new(10, 60, 0, 1);
    let req = build_session_establishment_request(2, Ipv4Addr::new(10, 0, 0, 1), 5, ue, Ipv4Addr::new(192, 168, 1, 100), 1);
    let rep = s.handle_message(&req, smf(), Instant::now()).unwrap();
    assert!(rep.effects.iter().any(|e| matches!(e, UpfEffect::SetupUeRoute { ue_ip } if *ue_ip == ue)));
    assert!(rep.effects.iter().any(|e| matches!(e, UpfEffect::StoreSave { seid: 1, .. })));
    let rep = s.handle_message(&build_session_deletion_request(3, 1), smf(), Instant::now()).unwrap();
    assert!(rep.effects.iter().any(|e| matches!(e, UpfEffect::TeardownUeRoute { ue_ip } if *ue_ip == ue)));
    assert!(rep.effects.iter().any(|e| matches!(e, UpfEffect::StoreDelete { seid: 1 })));
}

#[test]
fn older_association_setup_is_refused() {
    let mut s = server();
    associate(&mut s, smf(), Ipv4Addr::new(10, 0, 0, 1), 77);
    establish(&mut s, smf(), 0xABCD, Ipv4Addr::new(10, 60, 0, 1));
    let req = build_association_setup_request(5, Ipv4Addr::new(10, 0, 0, 1), 50);
    let rep = s.handle_message(&req, other_smf(), Instant::now()).unwrap();
    let (h, body) = PfcpHeader::decode(&rep.response).unwrap();
    assert_eq!(h.msg_type, PFCP_ASSOCIATION_SETUP_RSP);
    let cause = iter_ies(body).into_iter().find(|ie| ie.ie_type == upf_edge::types::PFCP_IE_CAUSE).unwrap();
    assert_eq!(cause.value, &[upf_edge::types::CAUSE_REQUEST_REJECTED][..]);
    assert_eq!(s.associations[0].recovery_ts, 77);
    assert_eq!(s.associations[0].peer_addr, smf());
    assert_eq!(s.associations[0].sessions.len(), 1);
}

#[test]
fn recovery_stamp_is_ntp_time() {
    let s = PfcpServer::started_at(Ipv4Addr::new(10, 0, 0, 10), Ipv4Addr::new(10, 45, 0, 4), 0, Instant::now());
    assert_eq!(s.recovery_ts, 2_208_988_800);
    let s = PfcpServer::started_at(Ipv4Addr::new(10, 0, 0, 10), Ipv4Addr::new(10, 45, 0, 4), 1_700_000_000, Instant::now());
    assert_eq!(s.recovery_ts, 1_700_000_000u32.wrapping_add(2_208_988_800));
}

#[test]
fn counters_bound_only_allocating_establishments() {
    let mut s = server();
    s.next_seid = u64::MAX;
    let req = build_session_establishment_request(
        2,
        Ipv4Addr::new(10, 0, 0, 1),
        9,
        Ipv4Addr::new(10, 45, 0, 2),
        Ipv4Addr::new(192, 168, 1, 100),
        0x1234,
    );
    // Not associated yet: refused before any SEID is taken.
    assert!(s.counters_suffice(&req, smf()));
    assert!(matches!(s.handle_message(&req, smf(), Instant::now()), Err(UpfError::NoAssociation(_))));
    assert!(s.counters_suffice(&build_heartbeat_request(1, 5), smf()));
    associate(&mut s, smf(), Ipv4Addr::new(10, 0, 0, 1), 77);
    assert!(!s.counters_suffice(&req, smf()));
    assert!(s.counters_suffice(&req, other_smf()));
    s.next_seid = 1;
    assert!(s.counters_suffice(&req, smf()));
}
