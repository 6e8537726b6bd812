use upf_edge::dataplane::{
    FarKey, FarValue, MacAddr, PdrKey, PdrValue, RuleTables, SessionInfo, ACTION_DROP, ACTION_FORW,
    IFACE_ACCESS, IFACE_CORE,
};
use upf_edge::gtpu::{ip_checksum, GtpuHdr, IpHdr};
use upf_edge::xdp::{downlink_get_far, try_n3_uplink, try_n6_downlink, uplink_check_far, DownlinkFar, XdpAction};

const UE: [u8; 4] = [10, 60, 0, 1];
const GNB: [u8; 4] = [192, 168, 1, 100];
const UPF: [u8; 4] = [10, 45, 0, 4];

fn be32(b: [u8; 4]) -> u32 {
    u32::from_be_bytes(b)
}

fn pdr(source_interface: u8, far_id: u32) -> PdrValue {
    PdrValue {
        precedence: 100,
        source_interface,
        ue_ip: be32(UE),
        qfi: 1,
        far_id,
        qer_id: 0,
        outer_header_removal: 0,
        sdf_proto: 0,
        sdf_src_ip: 0,
        sdf_dst_ip: 0,
        sdf_src_port: 0,
        sdf_dst_port: 0,
    }
}

fn far(apply_action: u8, teid: u32) -> FarValue {
    FarValue { apply_action, dst_interface: IFACE_ACCESS, gnb_ip: be32(GNB), teid, upf_n3_ip: be32(UPF) }
}

fn tables(uplink_action: u8, downlink_action: u8) -> RuleTables {
    let gw = [MacAddr { addr: [1, 1, 1, 1, 1, 1] }, MacAddr { addr: [2, 2, 2, 2, 2, 2] }];
    let mut t = RuleTables::new(gw, [3, 4]);
    let mut ids = [0u32; 8];
    ids[0] = 1;
    ids[1] = 2;
    t.session_map.insert(
        be32(UE),
        SessionInfo { seid: 1, teid: 0x1000, gnb_ip: be32(GNB), upf_ip: be32(UPF), pdr_ids: ids, pdr_count: 2 },
    );
    t.pdr_map.insert(PdrKey::new(1, 1).key, pdr(IFACE_ACCESS, 1));
    t.pdr_map.insert(PdrKey::new(1, 2).key, pdr(IFACE_CORE, 2));
    t.far_map.insert(FarKey::new(1, 1).key, far(uplink_action, 0));
    t.far_map.insert(FarKey::new(1, 2).key, far(downlink_action, 0x2222));
    t
}

fn inner_packet(src: [u8; 4], dst: [u8; 4]) -> Vec<u8> {
    let mut p = vec![0x45, 0, 0, 28, 0, 0, 0, 0, 64, 17, 0, 0];
    p.extend_from_slice(&src);
    p.extend_from_slice(&dst);
    p.extend_from_slice(&[0x12, 0x34, 0x00, 0x35, 0x00, 0x08, 0x00, 0x00]);
    p
}

fn eth(dst: [u8; 6], src: [u8; 6]) -> Vec<u8> {
    let mut f = dst.to_vec();
    f.extend_from_slice(&src);
    f.extend_from_slice(&[0x08, 0x00]);
    f
}

fn uplink_frame() -> Vec<u8> {
    let inner = inner_packet(UE, [8, 8, 8, 8]);
    let mut f = eth([9; 6], [7; 6]);
    let ip_len = (20 + 8 + 8 + inner.len()) as u16;
    f.extend_from_slice(&[0x45, 0, (ip_len >> 8) as u8, ip_len as u8, 0, 0, 0, 0, 64, 17, 0, 0]);
    f.extend_from_slice(&GNB);
    f.extend_from_slice(&UPF);
    let udp_len = (8 + 8 + inner.len()) as u16;
    f.extend_from_slice(&[0x08, 0x68, 0x08, 0x68, (udp_len >> 8) as u8, udp_len as u8, 0, 0]);
    let g_len = inner.len() as u16;
    f.extend_from_slice(&[0x30, 0xFF, (g_len >> 8) as u8, g_len as u8, 0, 0, 0x10, 0x00]);
    f.extend_from_slice(&inner);
    f
}

#[test]
fn ip_checksum_known_value() {
    let h = IpHdr {
        version_ihl: 0x45,
        tos: 0,
        tot_len: 0x0073,
        id: 0,
        frag_off: 0x4000,
        ttl: 64,
        protocol: 17,
        check: 0,
        saddr: 0xC0A8_0001,
        daddr: 0xC0A8_00C7,
    };
    let c = ip_checksum(&h);
    assert_eq!(c, 0xB861);
    let filled = IpHdr { check: c, ..h };
    assert_eq!(ip_checksum(&filled), 0);
}

#[test]
fn gtpu_header_roundtrip() {
    let h = GtpuHdr { flags: 0x30, msg_type: 0xFF, length: 28, teid: 0xDEADBEEF };
    let bytes = h.encode();
    assert_eq!(bytes, vec![0x30, 0xFF, 0x00, 0x1C, 0xDE, 0xAD, 0xBE, 0xEF]);
    let back = GtpuHdr::decode(&bytes, 0);
    assert_eq!(back.teid, 0xDEADBEEF);
    assert_eq!(back.length, 28);
}

#[test]
fn uplink_is_decapsulated_towards_n6() {
    let t = tables(ACTION_FORW, ACTION_FORW);
    let f = uplink_frame();
    let v = try_n3_uplink(&f, &t);
    assert_eq!(v.action, XdpAction::Redirect(4));
    let mut expect = eth([1; 6], [7; 6]);
    expect.extend_from_slice(&inner_packet(UE, [8, 8, 8, 8]));
    assert_eq!(v.frame, expect);
}

#[test]
fn uplink_drop_far_drops() {
    let t = tables(ACTION_DROP, ACTION_FORW);
    assert_eq!(try_n3_uplink(&uplink_frame(), &t).action, XdpAction::Drop);
    let s = *t.session_map.get(&be32(UE)).unwrap();
    assert!(uplink_check_far(&t, &s));
}

#[test]
fn uplink_for_unknown_ue_passes() {
    let t = RuleTables::new([MacAddr { addr: [0; 6] }, MacAddr { addr: [0; 6] }], [0, 0]);
    let v = try_n3_uplink(&uplink_frame(), &t);
    assert_eq!(v.action, XdpAction::Pass);
    assert!(v.frame.is_empty());
}

#[test]
fn non_ipv4_frame_passes() {
    let t = tables(ACTION_FORW, ACTION_FORW);
    let mut f = uplink_frame();
    f[12] = 0x86;
    f[13] = 0xDD;
    assert_eq!(try_n3_uplink(&f, &t).action, XdpAction::Pass);
    assert_eq!(try_n6_downlink(&f, &t).action, XdpAction::Pass);
}

#[test]
fn downlink_is_encapsulated_towards_gnb() {
    let t = tables(ACTION_FORW, ACTION_FORW);
    let inner = inner_packet([8, 8, 8, 8], UE);
    let mut f = eth([5; 6], [6; 6]);
    f.extend_from_slice(&inner);
    let v = try_n6_downlink(&f, &t);
    assert_eq!(v.action, XdpAction::Redirect(3));
    let out = &v.frame;
    assert_eq!(&out[0..6], &[2u8; 6]);
    assert_eq!(&out[6..12], &[5u8; 6]);
    assert_eq!(&out[12..14], &[0x08, 0x00]);
    // Outer IPv4: from the UPF to the gNB, UDP, total length 44 + inner.
    assert_eq!(out[14], 0x45);
    assert_eq!(u16::from_be_bytes([out[16], out[17]]), 28 + 44);
    assert_eq!(out[23], 17);
    assert_eq!(&out[26..30], &UPF);
    assert_eq!(&out[30..34], &GNB);
    // The outer header's checksum verifies.
    let outer = IpHdr {
        version_ihl: out[14],
        tos: out[15],
        tot_len: u16::from_be_bytes([out[16], out[17]]),
        id: u16::from_be_bytes([out[18], out[19]]),
        frag_off: u16::from_be_bytes([out[20], out[21]]),
        ttl: out[22],
        protocol: out[23],
        check: u16::from_be_bytes([out[24], out[25]]),
        saddr: u32::from_be_bytes([out[26], out[27], out[28], out[29]]),
        daddr: u32::from_be_bytes([out[30], out[31], out[32], out[33]]),
    };
    assert_eq!(ip_checksum(&outer), 0);
    // UDP to port 2152, then GTP-U with the FAR's TEID.
    assert_eq!(&out[34..38], &[0x08, 0x68, 0x08, 0x68]);
    let g = GtpuHdr::decode(out, 42);
    assert_eq!(g.flags, 0x34);
    assert_eq!(g.msg_type, 0xFF);
    assert_eq!(g.teid, 0x2222);
    // PDU Session Container: next extension 0x85, downlink, QFI 1.
    assert_eq!(&out[50..58], &[0x00, 0x00, 0x00, 0x85, 0x01, 0x00, 0x01, 0x00]);
    assert_eq!(&out[out.len() - inner.len()..], &inner[..]);
    let s = *t.session_map.get(&be32(UE)).unwrap();
    assert_eq!(downlink_get_far(&t, &s), DownlinkFar::Tunnel(be32(GNB), 0x2222));
}

#[test]
fn downlink_drop_far_drops() {
    let t = tables(ACTION_FORW, ACTION_DROP);
    let s = *t.session_map.get(&be32(UE)).unwrap();
    assert_eq!(downlink_get_far(&t, &s), DownlinkFar::Drop);
    let mut f = eth([5; 6], [6; 6]);
    f.extend_from_slice(&inner_packet([8, 8, 8, 8], UE));
    let v = try_n6_downlink(&f, &t);
    assert_eq!(v.action, XdpAction::Drop);
    assert!(v.frame.is_empty());
}

#[test]
fn downlink_without_rule_uses_session_tunnel() {
    let gw = [MacAddr { addr: [1; 6] }, MacAddr { addr: [2; 6] }];
    let mut t = RuleTables::new(gw, [3, 4]);
    t.session_map.insert(
        be32(UE),
        SessionInfo { seid: 1, teid: 0x1000, gnb_ip: be32(GNB), upf_ip: be32(UPF), pdr_ids: [0; 8], pdr_count: 0 },
    );
    let mut f = eth([5; 6], [6; 6]);
    f.extend_from_slice(&inner_packet([8, 8, 8, 8], UE));
    let v = try_n6_downlink(&f, &t);
    assert_eq!(v.action, XdpAction::Redirect(3));
    assert_eq!(GtpuHdr::decode(&v.frame, 42).teid, 0x1000);
}

#[test]
fn downlink_for_unknown_ue_passes() {
    let t = tables(ACTION_FORW, ACTION_FORW);
    let mut f = eth([5; 6], [6; 6]);
    f.extend_from_slice(&inner_packet([8, 8, 8, 8], [10, 60, 0, 99]));
    assert_eq!(try_n6_downlink(&f, &t).action, XdpAction::Pass);
}

#[test]
fn downlink_encapsulation_decapsulates_back() {
    // The encapsulated frame carries the user packet unchanged after the
    // 58 bytes of outer headers, to the GTP-U port, as a G-PDU.
    let t = tables(ACTION_FORW, ACTION_FORW);
    let mut f = eth([5; 6], [6; 6]);
    let reply = inner_packet([8, 8, 8, 8], UE);
    f.extend_from_slice(&reply);
    let enc = try_n6_downlink(&f, &t);
    assert_eq!(enc.frame.len(), f.len() + 44);
    assert_eq!(&enc.frame[58..], &reply[..]);
    assert_eq!(u16::from_be_bytes([enc.frame[36], enc.frame[37]]), 2152);
    assert_eq!(enc.frame[43], 0xFF);
}
