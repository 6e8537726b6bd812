use upf_edge::builder::{
    build_session_establishment_request, build_heartbeat_response, build_session_establishment_response, MsgBuilder, PdrParams, UrrParams,
};
use upf_edge::dict::{lookup, validate};
use upf_edge::header::PfcpHeader;
use upf_edge::ie::{iter_ies, parse_create_pdr, parse_create_urr, parse_fteid, parse_node_id, parse_recovery_timestamp, parse_ue_ip_address};
use upf_edge::net::Ipv4Addr;
use upf_edge::types::{
    MEASUREMENT_METHOD_VOLUM, PFCP_ASSOCIATION_SETUP_REQ, PFCP_HEARTBEAT_REQ, PFCP_HEARTBEAT_RSP,
    PFCP_IE_CREATE_PDR, PFCP_IE_MEASUREMENT_METHOD, PFCP_IE_MEASUREMENT_PERIOD, PFCP_IE_PDR_ID,
    PFCP_IE_PRECEDENCE, PFCP_IE_REPORTING_TRIGGERS, PFCP_IE_URR_ID, PFCP_IE_VOLUME_THRESHOLD,
    PFCP_SESSION_ESTABLISHMENT_REQ, PFCP_SESSION_ESTABLISHMENT_RSP, REPORTING_TRIGGER_PERIO,
    REPORTING_TRIGGER_VOLTH, VOLUME_THRESHOLD_TOVOL,
};

#[test]
fn heartbeat_response_roundtrip() {
    let bytes = build_heartbeat_response(42, 0xE4B32C00);
    let (hdr, body) = PfcpHeader::decode(&bytes).unwrap();
    assert_eq!(hdr.msg_type, PFCP_HEARTBEAT_RSP);
    assert_eq!(hdr.seq_num, 42);

    let ies = iter_ies(body);
    assert_eq!(ies.len(), 1);
    let ts = parse_recovery_timestamp(ies[0].value).unwrap();
    assert_eq!(ts, 0xE4B32C00);
}

#[test]
fn session_establishment_response_roundtrip() {
    let created = vec![(1u16, 0x03E8u32, Ipv4Addr::new(10, 45, 0, 3))];
    let bytes = build_session_establishment_response(
        7,
        0xABCD,
        0x0001,
        Ipv4Addr::new(10, 45, 0, 4),
        &created,
    );
    let (hdr, body) = PfcpHeader::decode(&bytes).unwrap();
    assert_eq!(hdr.msg_type, PFCP_SESSION_ESTABLISHMENT_RSP);
    assert_eq!(hdr.seid, Some(0xABCD));

    let ies = iter_ies(body);
    // Node ID + Cause + F-SEID + Created PDR
    assert_eq!(ies.len(), 4);
}

#[test]
fn create_pdr_roundtrip() {
    let hdr = PfcpHeader::new_session_msg(PFCP_SESSION_ESTABLISHMENT_REQ, 0, 1);
    let mut msg = MsgBuilder::new(hdr);
    msg.add_create_pdr(&PdrParams {
        pdr_id: 1,
        precedence: 100,
        source_interface: 0,
        fteid_choose: true,
        ue_ip: Some(Ipv4Addr::new(10, 45, 0, 100)),
        far_id: 1,
        urr_id: None,
        outer_header_removal: true,
        sdf_filter: None,
    });
    let bytes = msg.finish();

    let (_, body) = PfcpHeader::decode(&bytes).unwrap();
    let ies = iter_ies(body);
    assert_eq!(ies.len(), 1);
    assert_eq!(ies[0].ie_type, PFCP_IE_CREATE_PDR);

    let pdr = parse_create_pdr(ies[0].value).unwrap();
    assert_eq!(pdr.pdr_id, 1);
    assert_eq!(pdr.precedence, 100);
    assert_eq!(pdr.source_interface, 0);
    assert_eq!(pdr.ue_ip, Some(Ipv4Addr::new(10, 45, 0, 100)));
    assert_eq!(pdr.far_id, Some(1));
    assert!(pdr.outer_header_removal);
}

#[test]
fn test_urr_build_parse_roundtrip() {
    let params = UrrParams {
        urr_id: 5,
        measurement_method: MEASUREMENT_METHOD_VOLUM,
        reporting_triggers: REPORTING_TRIGGER_PERIO | REPORTING_TRIGGER_VOLTH,
        volume_threshold_total: Some(1_000_000),
        measurement_period: Some(60),
    };

    let mut inner = Vec::new();
    MsgBuilder::append_ie(&mut inner, PFCP_IE_URR_ID, &params.urr_id.to_be_bytes());
    MsgBuilder::append_ie(&mut inner, PFCP_IE_MEASUREMENT_METHOD, &[params.measurement_method]);
    MsgBuilder::append_ie(&mut inner, PFCP_IE_REPORTING_TRIGGERS, &[params.reporting_triggers, 0x00]);
    let mut vt = vec![VOLUME_THRESHOLD_TOVOL];
    vt.extend_from_slice(&1_000_000u64.to_be_bytes());
    MsgBuilder::append_ie(&mut inner, PFCP_IE_VOLUME_THRESHOLD, &vt);
    MsgBuilder::append_ie(&mut inner, PFCP_IE_MEASUREMENT_PERIOD, &60u32.to_be_bytes());

    let parsed = parse_create_urr(&inner).expect("parse ok");
    assert_eq!(parsed.urr_id, 5);
    assert_eq!(parsed.measurement_method, MEASUREMENT_METHOD_VOLUM);
    assert_eq!(parsed.reporting_triggers & REPORTING_TRIGGER_PERIO, REPORTING_TRIGGER_PERIO);
    assert_eq!(parsed.reporting_triggers & REPORTING_TRIGGER_VOLTH, REPORTING_TRIGGER_VOLTH);
    assert_eq!(parsed.volume_threshold_total, Some(1_000_000));
    assert_eq!(parsed.measurement_period, Some(60));
}

#[test]
fn test_urr_volth_only() {
    let mut inner = Vec::new();
    MsgBuilder::append_ie(&mut inner, PFCP_IE_URR_ID, &1u32.to_be_bytes());
    MsgBuilder::append_ie(&mut inner, PFCP_IE_MEASUREMENT_METHOD, &[MEASUREMENT_METHOD_VOLUM]);
    MsgBuilder::append_ie(&mut inner, PFCP_IE_REPORTING_TRIGGERS, &[REPORTING_TRIGGER_VOLTH, 0x00]);
    let mut vt = vec![VOLUME_THRESHOLD_TOVOL];
    vt.extend_from_slice(&500u64.to_be_bytes());
    MsgBuilder::append_ie(&mut inner, PFCP_IE_VOLUME_THRESHOLD, &vt);

    let parsed = parse_create_urr(&inner).expect("parse ok");
    assert_eq!(parsed.volume_threshold_total, Some(500));
    assert_eq!(parsed.measurement_period, None);
    assert_eq!(parsed.reporting_triggers & REPORTING_TRIGGER_PERIO, 0);
}

#[test]
fn lookup_heartbeat() {
    let spec = lookup(PFCP_HEARTBEAT_REQ).unwrap();
    assert_eq!(spec.name, "Heartbeat Request");
    assert_eq!(spec.ies.len(), 1);
}

#[test]
fn lookup_unknown_returns_none() {
    assert!(lookup(99u8).is_none());
}

#[test]
fn validate_association_setup_missing_node_id() {
    let body = vec![0x00, 0x60, 0x00, 0x04, 0x00, 0x00, 0x00, 0x01];
    let result = validate(PFCP_ASSOCIATION_SETUP_REQ, &body);
    assert!(!result.is_ok());
    assert!(result.missing.contains(&"Node ID"));
}

#[test]
fn validate_heartbeat_empty_body_is_ok() {
    let result = validate(PFCP_HEARTBEAT_REQ, &[]);
    assert!(result.is_ok());
}

#[test]
fn node_header_roundtrip() {
    let hdr = PfcpHeader::new_node_msg(1, 42);
    let bytes = hdr.encode();
    assert_eq!(bytes.len(), 8);

    let (decoded, body) = PfcpHeader::decode(&bytes).unwrap();
    assert_eq!(decoded.version, 1);
    assert!(!decoded.s_flag);
    assert_eq!(decoded.msg_type, 1);
    assert_eq!(decoded.seq_num, 42);
    assert!(decoded.seid.is_none());
    assert_eq!(body.len(), 0);
}

#[test]
fn session_header_roundtrip() {
    let hdr = PfcpHeader::new_session_msg(50, 0xDEADBEEF, 99);
    let bytes = hdr.encode();
    assert_eq!(bytes.len(), 16);

    let (decoded, _body) = PfcpHeader::decode(&bytes).unwrap();
    assert!(decoded.s_flag);
    assert_eq!(decoded.msg_type, 50);
    assert_eq!(decoded.seid, Some(0xDEADBEEF));
    assert_eq!(decoded.seq_num, 99);
}

#[test]
fn too_short_buffer() {
    let buf = [0x20, 0x01, 0x00];
    assert!(PfcpHeader::decode(&buf).is_err());
}

#[test]
fn test_iter_ies() {
    let buf = vec![
        0x00, 0x38, 0x00, 0x02, 0x00, 0x01, 0x00, 0x1D, 0x00, 0x04, 0x00, 0x00, 0x00, 0x64,
    ];
    let ies = iter_ies(&buf);
    assert_eq!(ies.len(), 2);
    assert_eq!(ies[0].ie_type, PFCP_IE_PDR_ID);
    assert_eq!(ies[1].ie_type, PFCP_IE_PRECEDENCE);
}

#[test]
fn test_parse_node_id() {
    let val = vec![0x00, 10, 45, 0, 1];
    let addr = parse_node_id(&val).unwrap();
    assert_eq!(addr, Ipv4Addr::new(10, 45, 0, 1));
}

#[test]
fn test_parse_fteid_choose() {
    let val = vec![0x04, 0x00, 0x00, 0x00, 0x00];
    let (teid, addr) = parse_fteid(&val).unwrap();
    assert_eq!(teid, 0);
    assert_eq!(addr, Ipv4Addr::unspecified());
}

#[test]
fn test_parse_ue_ip() {
    let val = vec![0x02, 10, 45, 0, 100];
    let addr = parse_ue_ip_address(&val).unwrap();
    assert_eq!(addr, Ipv4Addr::new(10, 45, 0, 100));
}

#[test]
fn test_truncated_ie() {
    let buf = vec![0x00, 0x38, 0x00, 0x0A, 0x00, 0x01];
    let ies = iter_ies(&buf);
    assert_eq!(ies.len(), 0);
}

#[test]
fn session_establishment_request_reads_back() {
    let smf = Ipv4Addr::new(10, 0, 0, 1);
    let ue = Ipv4Addr::new(10, 45, 0, 2);
    let gnb = Ipv4Addr::new(192, 168, 1, 100);
    let bytes = build_session_establishment_request(0x0123_4567, smf, 0xABCD, ue, gnb, 0x1111);
    let (hdr, body) = PfcpHeader::decode(&bytes).unwrap();
    assert_eq!(hdr.msg_type, PFCP_SESSION_ESTABLISHMENT_REQ);
    assert_eq!(hdr.seid, Some(0));
    assert_eq!(hdr.seq_num, 0x23_4567);
    assert!(validate(PFCP_SESSION_ESTABLISHMENT_REQ, body).is_ok());
    let req = upf_edge::messages::SessionEstablishmentReq::decode(body).unwrap();
    assert_eq!(req.node_id, Some(smf));
    assert_eq!(req.cp_seid, 0xABCD);
    assert_eq!(req.smf_addr, smf);
    assert_eq!(req.create_pdrs.len(), 2);
    assert_eq!(req.create_pdrs[0].pdr_id, 1);
    assert_eq!(req.create_pdrs[0].local_fteid, Some((0, Ipv4Addr::new(0, 0, 0, 0))));
    assert_eq!(req.create_pdrs[0].ue_ip, Some(ue));
    assert_eq!(req.create_pdrs[0].far_id, Some(1));
    assert!(req.create_pdrs[0].outer_header_removal);
    assert_eq!(req.create_pdrs[1].pdr_id, 2);
    assert_eq!(req.create_pdrs[1].local_fteid, None);
    assert_eq!(req.create_pdrs[1].far_id, Some(2));
    assert!(!req.create_pdrs[1].outer_header_removal);
    assert_eq!(req.create_fars.len(), 2);
    assert_eq!(req.create_fars[0].far_id, 1);
    assert!(req.create_fars[0].outer_header_creation.is_none());
    let ohc = req.create_fars[1].outer_header_creation.unwrap();
    assert_eq!(ohc.teid, 0x1111);
    assert_eq!(ohc.peer_addr, gnb);
    assert_eq!(ohc.port, 2152);
}
