//! Building PFCP messages.
use vstd::prelude::*;
use crate::bytes::{be16, be32, be64, push_all, push_u16_be, push_u32_be, push_u64_be};
use crate::header::{spec_encode, spec_node_header, spec_session_header, PfcpHeader};
use crate::ie::{tlv, OuterHeaderCreation, SdfFilter};
use crate::net::Ipv4Addr;
use crate::types::{
    CAUSE_REQUEST_ACCEPTED, CAUSE_REQUEST_REJECTED, PFCP_ASSOCIATION_SETUP_REQ, PFCP_ASSOCIATION_SETUP_RSP,
    PFCP_HEARTBEAT_REQ, PFCP_HEARTBEAT_RSP,
    PFCP_IE_APPLY_ACTION, PFCP_IE_CAUSE, PFCP_IE_CREATED_PDR, PFCP_IE_CREATE_FAR,
    PFCP_IE_CREATE_PDR, PFCP_IE_CREATE_URR, PFCP_IE_DESTINATION_INTERFACE, PFCP_IE_FAR_ID,
    PFCP_IE_FORWARDING_PARAMETERS, PFCP_IE_FSEID, PFCP_IE_FTEID, PFCP_IE_MEASUREMENT_METHOD,
    PFCP_IE_MEASUREMENT_PERIOD, PFCP_IE_NODE_ID, PFCP_IE_OUTER_HEADER_CREATION,
    PFCP_IE_OUTER_HEADER_REMOVAL, PFCP_IE_PDI, PFCP_IE_PDR_ID, PFCP_IE_PRECEDENCE,
    PFCP_IE_RECOVERY_TIME_STAMP, PFCP_IE_REPORTING_TRIGGERS, PFCP_IE_REPORT_TYPE,
    PFCP_IE_SDF_FILTER, PFCP_IE_SOURCE_INTERFACE, PFCP_IE_UE_IP_ADDRESS,
    PFCP_IE_UPDATE_FAR, PFCP_IE_UPDATE_FORWARDING_PARAMETERS, PFCP_IE_UP_FUNCTION_FEATURES,
    PFCP_IE_URR_ID, PFCP_IE_USAGE_REPORT_IN_SESS_RPT_REQ, PFCP_IE_USAGE_REPORT_TRIGGER,
    PFCP_IE_UR_SEQN, PFCP_IE_VOLUME_MEASUREMENT, PFCP_IE_VOLUME_THRESHOLD,
    PFCP_SESSION_DELETION_REQ, PFCP_SESSION_DELETION_RSP, PFCP_SESSION_ESTABLISHMENT_RSP, PFCP_SESSION_MODIFICATION_RSP,
    PFCP_SESSION_REPORT_REQ, PFCP_SESSION_REPORT_RSP, REPORT_TYPE_USAR, VOLUME_MEASUREMENT_DLVOL,
    VOLUME_MEASUREMENT_TOVOL, VOLUME_MEASUREMENT_ULVOL, VOLUME_THRESHOLD_TOVOL,
};

verus! {

// ── Parameter structures ────────────────────────────────

pub struct PdrParams {
    pub pdr_id: u16,
    pub precedence: u32,
    pub source_interface: u8,
    pub fteid_choose: bool,
    pub ue_ip: Option<Ipv4Addr>,
    pub far_id: u32,
    pub urr_id: Option<u32>,
    pub outer_header_removal: bool,
    pub sdf_filter: Option<SdfFilter>,
}

pub struct FarParams {
    pub far_id: u32,
    pub apply_action: u8,
    pub dest_interface: u8,
    pub outer_header_creation: Option<OuterHeaderCreation>,
}

pub struct UrrParams {
    pub urr_id: u32,
    pub measurement_method: u8,
    pub reporting_triggers: u8,
    pub volume_threshold_total: Option<u64>,
    pub measurement_period: Option<u32>,
}

// ── Wire images of the IE values ────────────────────────

pub open spec fn opt_bytes(present: bool, b: Seq<u8>) -> Seq<u8> {
    if present { b } else { Seq::empty() }
}

/// Node ID value: IPv4 type, then the address.
pub open spec fn node_id_value(addr: Ipv4Addr) -> Seq<u8> {
    seq![0u8] + addr.spec_octets()
}

/// F-SEID value: V4 flag, SEID, address.
pub open spec fn fseid_value(seid: u64, addr: Ipv4Addr) -> Seq<u8> {
    seq![0x02u8] + be64(seid) + addr.spec_octets()
}

/// F-TEID value with the V4 flag: TEID, address.
pub open spec fn fteid_v4_value(teid: u32, addr: Ipv4Addr) -> Seq<u8> {
    seq![0x02u8] + be32(teid) + addr.spec_octets()
}

/// F-TEID value asking the UP function to choose the TEID.
pub open spec fn fteid_choose_value() -> Seq<u8> {
    seq![0x04u8, 0, 0, 0, 0]
}

pub open spec fn ue_ip_value(addr: Ipv4Addr) -> Seq<u8> {
    seq![0x02u8] + addr.spec_octets()
}

pub open spec fn sdf_value(f: SdfFilter) -> Seq<u8> {
    seq![f.proto] + f.src_ip.spec_octets() + f.dst_ip.spec_octets() + be16(f.src_port) + be16(
        f.dst_port,
    )
}

/// Outer Header Creation value: GTP-U/UDP/IPv4 description, TEID, address.
pub open spec fn ohc_value(o: OuterHeaderCreation) -> Seq<u8> {
    seq![0x01u8, 0x00u8] + be32(o.teid) + o.peer_addr.spec_octets()
}

pub open spec fn created_pdr_value(pdr_id: u16, teid: u32, addr: Ipv4Addr) -> Seq<u8> {
    tlv(PFCP_IE_PDR_ID, be16(pdr_id)) + tlv(PFCP_IE_FTEID, fteid_v4_value(teid, addr))
}

pub open spec fn pdi_value(p: PdrParams) -> Seq<u8> {
    tlv(PFCP_IE_SOURCE_INTERFACE, seq![p.source_interface]) + opt_bytes(
        p.fteid_choose,
        tlv(PFCP_IE_FTEID, fteid_choose_value()),
    ) + (match p.ue_ip {
        Some(a) => tlv(PFCP_IE_UE_IP_ADDRESS, ue_ip_value(a)),
        None => Seq::empty(),
    }) + (match p.sdf_filter {
        Some(f) => tlv(PFCP_IE_SDF_FILTER, sdf_value(f)),
        None => Seq::empty(),
    })
}

pub open spec fn create_pdr_value(p: PdrParams) -> Seq<u8> {
    tlv(PFCP_IE_PDR_ID, be16(p.pdr_id)) + tlv(PFCP_IE_PRECEDENCE, be32(p.precedence)) + tlv(
        PFCP_IE_PDI,
        pdi_value(p),
    ) + tlv(PFCP_IE_FAR_ID, be32(p.far_id)) + (match p.urr_id {
        Some(u) => tlv(PFCP_IE_URR_ID, be32(u)),
        None => Seq::empty(),
    }) + opt_bytes(p.outer_header_removal, tlv(PFCP_IE_OUTER_HEADER_REMOVAL, seq![0u8]))
}

pub open spec fn forwarding_value(f: FarParams) -> Seq<u8> {
    tlv(PFCP_IE_DESTINATION_INTERFACE, seq![f.dest_interface]) + (match f.outer_header_creation {
        Some(o) => tlv(PFCP_IE_OUTER_HEADER_CREATION, ohc_value(o)),
        None => Seq::empty(),
    })
}

/// A FAR value whose forwarding parameters go in an IE of type `fwd_type`.
pub open spec fn far_value(f: FarParams, fwd_type: u16) -> Seq<u8> {
    tlv(PFCP_IE_FAR_ID, be32(f.far_id)) + tlv(PFCP_IE_APPLY_ACTION, seq![f.apply_action]) + tlv(
        fwd_type,
        forwarding_value(f),
    )
}

pub open spec fn create_urr_value(u: UrrParams) -> Seq<u8> {
    tlv(PFCP_IE_URR_ID, be32(u.urr_id)) + tlv(PFCP_IE_MEASUREMENT_METHOD, seq![u.measurement_method])
        + tlv(PFCP_IE_REPORTING_TRIGGERS, seq![u.reporting_triggers, 0u8]) + (
    match u.volume_threshold_total {
        Some(t) => tlv(PFCP_IE_VOLUME_THRESHOLD, seq![VOLUME_THRESHOLD_TOVOL] + be64(t)),
        None => Seq::empty(),
    }) + (match u.measurement_period {
        Some(p) => tlv(PFCP_IE_MEASUREMENT_PERIOD, be32(p)),
        None => Seq::empty(),
    })
}

/// A finished message: the length field (bytes 2..4) holds the number of
/// bytes after the first four, modulo 2^16.
pub open spec fn spec_finish(buf: Seq<u8>) -> Seq<u8> {
    let len = ((buf.len() - 4) as int) as u16;
    buf.update(2, (len >> 8) as u8).update(3, len as u8)
}

/// Message builder. IEs are appended after the header; `finish` completes it.
pub struct MsgBuilder {
    buf: Vec<u8>,
}

impl View for MsgBuilder {
    type V = Seq<u8>;

    closed spec fn view(&self) -> Seq<u8> {
        self.buf@
    }
}

impl MsgBuilder {
    pub fn new(header: PfcpHeader) -> (r: Self)
        ensures
            r@ == spec_encode(header),
    {
        Self { buf: header.encode() }
    }

    /// Completes the message, setting its length field (a message is never
    /// shorter than the four octets that hold it; one that were would be
    /// handed back as it is).
    pub fn finish(self) -> (r: Vec<u8>)
        ensures
            self@.len() >= 4 ==> r@ == spec_finish(self@),
            self@.len() < 4 ==> r@ == self@,
    {
        let mut buf = self.buf;
        if buf.len() < 4 {
            return buf;
        }
        #[verifier::truncate]
        let len = (buf.len() - 4) as u16;
        buf.set(2, (len >> 8) as u8);
        buf.set(3, len as u8);
        buf
    }

    /// Appends one IE.
    pub fn add_ie(&mut self, ie_type: u16, value: &[u8])
        ensures
            final(self)@ == old(self)@ + tlv(ie_type, value@),
    {
        Self::append_ie(&mut self.buf, ie_type, value);
    }

    pub fn add_node_id_v4(&mut self, addr: Ipv4Addr)
        ensures
            final(self)@ == old(self)@ + tlv(PFCP_IE_NODE_ID, node_id_value(addr)),
    {
        let mut val: Vec<u8> = Vec::new();
        val.push(0x00u8);
        let o = addr.octets();
        push_all(&mut val, &o);
        assert(val@ =~= node_id_value(addr));
        self.add_ie(PFCP_IE_NODE_ID, val.as_slice());
    }

    pub fn add_cause(&mut self, cause: u8)
        ensures
            final(self)@ == old(self)@ + tlv(PFCP_IE_CAUSE, seq![cause]),
    {
        let v = [cause];
        assert(v@ =~= seq![cause]);
        self.add_ie(PFCP_IE_CAUSE, &v);
    }

    pub fn add_recovery_timestamp(&mut self, ntp_ts: u32)
        ensures
            final(self)@ == old(self)@ + tlv(PFCP_IE_RECOVERY_TIME_STAMP, be32(ntp_ts)),
    {
        let mut val: Vec<u8> = Vec::new();
        push_u32_be(&mut val, ntp_ts);
        assert(val@ =~= be32(ntp_ts));
        self.add_ie(PFCP_IE_RECOVERY_TIME_STAMP, val.as_slice());
    }

    pub fn add_fseid(&mut self, seid: u64, addr: Ipv4Addr)
        ensures
            final(self)@ == old(self)@ + tlv(PFCP_IE_FSEID, fseid_value(seid, addr)),
    {
        let mut val: Vec<u8> = Vec::new();
        val.push(0x02u8);
        push_u64_be(&mut val, seid);
        let o = addr.octets();
        push_all(&mut val, &o);
        assert(val@ =~= fseid_value(seid, addr));
        self.add_ie(PFCP_IE_FSEID, val.as_slice());
    }

    pub fn add_up_function_features(&mut self)
        ensures
            final(self)@ == old(self)@ + tlv(PFCP_IE_UP_FUNCTION_FEATURES, seq![0x04u8, 0x00u8]),
    {
        let v = [0x04u8, 0x00u8];
        assert(v@ =~= seq![0x04u8, 0x00u8]);
        self.add_ie(PFCP_IE_UP_FUNCTION_FEATURES, &v);
    }

    pub fn add_created_pdr(&mut self, pdr_id: u16, teid: u32, addr: Ipv4Addr)
        ensures
            final(self)@ == old(self)@ + tlv(PFCP_IE_CREATED_PDR, created_pdr_value(pdr_id, teid, addr)),
    {
        let mut inner: Vec<u8> = Vec::new();
        let mut id: Vec<u8> = Vec::new();
        push_u16_be(&mut id, pdr_id);
        assert(id@ =~= be16(pdr_id));
        Self::append_ie(&mut inner, PFCP_IE_PDR_ID, id.as_slice());
        let mut fteid: Vec<u8> = Vec::new();
        fteid.push(0x02u8);
        push_u32_be(&mut fteid, teid);
        let o = addr.octets();
        push_all(&mut fteid, &o);
        assert(fteid@ =~= fteid_v4_value(teid, addr));
        Self::append_ie(&mut inner, PFCP_IE_FTEID, fteid.as_slice());
        assert(inner@ =~= created_pdr_value(pdr_id, teid, addr));
        self.add_ie(PFCP_IE_CREATED_PDR, inner.as_slice());
    }

    // ── Grouped IEs (requests of the SMF) ──────────────────

    pub fn add_create_pdr(&mut self, p: &PdrParams)
        ensures
            final(self)@ == old(self)@ + tlv(PFCP_IE_CREATE_PDR, create_pdr_value(*p)),
    {
        let mut inner: Vec<u8> = Vec::new();
        let mut id: Vec<u8> = Vec::new();
        push_u16_be(&mut id, p.pdr_id);
        Self::append_ie(&mut inner, PFCP_IE_PDR_ID, id.as_slice());
        let mut prec: Vec<u8> = Vec::new();
        push_u32_be(&mut prec, p.precedence);
        Self::append_ie(&mut inner, PFCP_IE_PRECEDENCE, prec.as_slice());

        // PDI (grouped)
        let mut pdi: Vec<u8> = Vec::new();
        let si = [p.source_interface];
        Self::append_ie(&mut pdi, PFCP_IE_SOURCE_INTERFACE, &si);
        let ghost pdi0 = pdi@;
        if p.fteid_choose {
            let ch = [0x04u8, 0x00, 0x00, 0x00, 0x00];
            assert(ch@ =~= fteid_choose_value());
            Self::append_ie(&mut pdi, PFCP_IE_FTEID, &ch);
        }
        let ghost pdi1 = pdi@;
        if let Some(ue_ip) = p.ue_ip {
            let mut val: Vec<u8> = Vec::new();
            val.push(0x02u8);
            let o = ue_ip.octets();
            push_all(&mut val, &o);
            assert(val@ =~= ue_ip_value(ue_ip));
            Self::append_ie(&mut pdi, PFCP_IE_UE_IP_ADDRESS, val.as_slice());
        }
        let ghost pdi2 = pdi@;
        if let Some(sdf) = p.sdf_filter {
            let mut val: Vec<u8> = Vec::new();
            val.push(sdf.proto);
            let s = sdf.src_ip.octets();
            push_all(&mut val, &s);
            let d = sdf.dst_ip.octets();
            push_all(&mut val, &d);
            push_u16_be(&mut val, sdf.src_port);
            push_u16_be(&mut val, sdf.dst_port);
            assert(val@ =~= sdf_value(sdf));
            Self::append_ie(&mut pdi, PFCP_IE_SDF_FILTER, val.as_slice());
        }
        assert(pdi@ =~= pdi_value(*p)) by {
            assert(pdi0 == tlv(PFCP_IE_SOURCE_INTERFACE, seq![p.source_interface]));
            assert(pdi1 =~= pdi0 + opt_bytes(p.fteid_choose, tlv(PFCP_IE_FTEID, fteid_choose_value())));
        }
        Self::append_ie(&mut inner, PFCP_IE_PDI, pdi.as_slice());
        let mut far: Vec<u8> = Vec::new();
        push_u32_be(&mut far, p.far_id);
        Self::append_ie(&mut inner, PFCP_IE_FAR_ID, far.as_slice());
        let ghost inner0 = inner@;
        if let Some(urr_id) = p.urr_id {
            let mut u: Vec<u8> = Vec::new();
            push_u32_be(&mut u, urr_id);
            Self::append_ie(&mut inner, PFCP_IE_URR_ID, u.as_slice());
        }
        let ghost inner1 = inner@;
        if p.outer_header_removal {
            let z = [0x00u8];
            assert(z@ =~= seq![0u8]);
            Self::append_ie(&mut inner, PFCP_IE_OUTER_HEADER_REMOVAL, &z);
        }
        assert(inner@ =~= create_pdr_value(*p)) by {
            assert(id@ =~= be16(p.pdr_id));
            assert(prec@ =~= be32(p.precedence));
            assert(far@ =~= be32(p.far_id));
            assert(si@ =~= seq![p.source_interface]);
        }
        self.add_ie(PFCP_IE_CREATE_PDR, inner.as_slice());
    }

    pub fn add_create_urr(&mut self, u: &UrrParams)
        ensures
            final(self)@ == old(self)@ + tlv(PFCP_IE_CREATE_URR, create_urr_value(*u)),
    {
        let mut inner: Vec<u8> = Vec::new();
        let mut id: Vec<u8> = Vec::new();
        push_u32_be(&mut id, u.urr_id);
        Self::append_ie(&mut inner, PFCP_IE_URR_ID, id.as_slice());
        let mm = [u.measurement_method];
        Self::append_ie(&mut inner, PFCP_IE_MEASUREMENT_METHOD, &mm);
        let rt = [u.reporting_triggers, 0x00u8];
        Self::append_ie(&mut inner, PFCP_IE_REPORTING_TRIGGERS, &rt);
        let ghost inner0 = inner@;
        if let Some(total) = u.volume_threshold_total {
            let mut val: Vec<u8> = Vec::new();
            val.push(VOLUME_THRESHOLD_TOVOL);
            push_u64_be(&mut val, total);
            assert(val@ =~= seq![VOLUME_THRESHOLD_TOVOL] + be64(total));
            Self::append_ie(&mut inner, PFCP_IE_VOLUME_THRESHOLD, val.as_slice());
        }
        let ghost inner1 = inner@;
        if let Some(period) = u.measurement_period {
            let mut val: Vec<u8> = Vec::new();
            push_u32_be(&mut val, period);
            assert(val@ =~= be32(period));
            Self::append_ie(&mut inner, PFCP_IE_MEASUREMENT_PERIOD, val.as_slice());
        }
        assert(inner@ =~= create_urr_value(*u)) by {
            assert(id@ =~= be32(u.urr_id));
            assert(mm@ =~= seq![u.measurement_method]);
            assert(rt@ =~= seq![u.reporting_triggers, 0u8]);
        }
        self.add_ie(PFCP_IE_CREATE_URR, inner.as_slice());
    }

    pub fn add_create_far(&mut self, f: &FarParams)
        ensures
            final(self)@ == old(self)@ + tlv(PFCP_IE_CREATE_FAR, far_value(*f, PFCP_IE_FORWARDING_PARAMETERS)),
    {
        let inner = Self::far_bytes(f, PFCP_IE_FORWARDING_PARAMETERS);
        self.add_ie(PFCP_IE_CREATE_FAR, inner.as_slice());
    }

    pub fn add_update_far(&mut self, f: &FarParams)
        ensures
            final(self)@ == old(self)@ + tlv(
                PFCP_IE_UPDATE_FAR,
                far_value(*f, PFCP_IE_UPDATE_FORWARDING_PARAMETERS),
            ),
    {
        let inner = Self::far_bytes(f, PFCP_IE_UPDATE_FORWARDING_PARAMETERS);
        self.add_ie(PFCP_IE_UPDATE_FAR, inner.as_slice());
    }

    fn far_bytes(f: &FarParams, fwd_type: u16) -> (r: Vec<u8>)
        ensures
            r@ == far_value(*f, fwd_type),
    {
        let mut inner: Vec<u8> = Vec::new();
        let mut id: Vec<u8> = Vec::new();
        push_u32_be(&mut id, f.far_id);
        Self::append_ie(&mut inner, PFCP_IE_FAR_ID, id.as_slice());
        let aa = [f.apply_action];
        Self::append_ie(&mut inner, PFCP_IE_APPLY_ACTION, &aa);
        let mut fwd: Vec<u8> = Vec::new();
        let di = [f.dest_interface];
        Self::append_ie(&mut fwd, PFCP_IE_DESTINATION_INTERFACE, &di);
        let ghost fwd0 = fwd@;
        if let Some(ohc) = f.outer_header_creation {
            let mut val: Vec<u8> = Vec::new();
            val.push(0x01u8);
            val.push(0x00u8);
            push_u32_be(&mut val, ohc.teid);
            let o = ohc.peer_addr.octets();
            push_all(&mut val, &o);
            assert(val@ =~= ohc_value(ohc));
            Self::append_ie(&mut fwd, PFCP_IE_OUTER_HEADER_CREATION, val.as_slice());
        }
        assert(fwd@ =~= forwarding_value(*f)) by {
            assert(di@ =~= seq![f.dest_interface]);
        }
        Self::append_ie(&mut inner, fwd_type, fwd.as_slice());
        assert(inner@ =~= far_value(*f, fwd_type)) by {
            assert(id@ =~= be32(f.far_id));
            assert(aa@ =~= seq![f.apply_action]);
        }
        inner
    }

    /// Appends one IE in TLV form to `buf`.
    pub fn append_ie(buf: &mut Vec<u8>, ie_type: u16, value: &[u8])
        ensures
            final(buf)@ == old(buf)@ + tlv(ie_type, value@),
    {
        push_u16_be(buf, ie_type);
        #[verifier::truncate]
        let len = value.len() as u16;
        push_u16_be(buf, len);
        push_all(buf, value);
        assert(buf@ =~= old(buf)@ + tlv(ie_type, value@));
    }
}


// ── Messages ────────────────────────────────────────────

/// The IE bytes of the Created PDR IEs for `(pdr_id, teid, addr)` triples.
pub open spec fn created_pdrs_bytes(c: Seq<(u16, u32, Ipv4Addr)>) -> Seq<u8>
    decreases c.len(),
{
    if c.len() == 0 {
        Seq::empty()
    } else {
        created_pdrs_bytes(c.drop_last()) + tlv(
            PFCP_IE_CREATED_PDR,
            created_pdr_value(c.last().0, c.last().1, c.last().2),
        )
    }
}

/// A node message whose only IE is a Recovery Time Stamp.
pub open spec fn spec_build_recovery_msg(msg_type: u8, seq_num: u32, recovery_ts: u32) -> Seq<u8> {
    spec_finish(
        spec_encode(spec_node_header(msg_type, seq_num)) + tlv(
            PFCP_IE_RECOVERY_TIME_STAMP,
            be32(recovery_ts),
        ),
    )
}

pub open spec fn spec_build_heartbeat_request(seq_num: u32, recovery_ts: u32) -> Seq<u8> {
    spec_build_recovery_msg(PFCP_HEARTBEAT_REQ, seq_num, recovery_ts)
}

pub open spec fn spec_build_association_setup_request(
    seq_num: u32,
    node_id: Ipv4Addr,
    recovery_ts: u32,
) -> Seq<u8> {
    spec_finish(
        spec_encode(spec_node_header(PFCP_ASSOCIATION_SETUP_REQ, seq_num)) + tlv(
            PFCP_IE_NODE_ID,
            node_id_value(node_id),
        ) + tlv(PFCP_IE_RECOVERY_TIME_STAMP, be32(recovery_ts)),
    )
}

pub open spec fn spec_build_heartbeat_response(seq_num: u32, recovery_ts: u32) -> Seq<u8> {
    spec_finish(
        spec_encode(spec_node_header(PFCP_HEARTBEAT_RSP, seq_num)) + tlv(
            PFCP_IE_RECOVERY_TIME_STAMP,
            be32(recovery_ts),
        ),
    )
}

pub open spec fn association_setup_response_ies(our_addr: Ipv4Addr, recovery_ts: u32) -> Seq<u8> {
    tlv(PFCP_IE_NODE_ID, node_id_value(our_addr)) + tlv(PFCP_IE_CAUSE, seq![CAUSE_REQUEST_ACCEPTED])
        + tlv(PFCP_IE_RECOVERY_TIME_STAMP, be32(recovery_ts)) + tlv(
        PFCP_IE_UP_FUNCTION_FEATURES,
        seq![0x04u8, 0x00u8],
    )
}

pub open spec fn spec_build_association_setup_response(
    seq_num: u32,
    our_addr: Ipv4Addr,
    recovery_ts: u32,
) -> Seq<u8> {
    spec_finish(
        spec_encode(spec_node_header(PFCP_ASSOCIATION_SETUP_RSP, seq_num))
            + association_setup_response_ies(our_addr, recovery_ts),
    )
}

/// An Association Setup Response that refuses the request: Node ID,
/// Cause = Request rejected, Recovery Time Stamp.
pub open spec fn spec_build_association_setup_rejection(
    seq_num: u32,
    our_addr: Ipv4Addr,
    recovery_ts: u32,
) -> Seq<u8> {
    spec_finish(
        spec_encode(spec_node_header(PFCP_ASSOCIATION_SETUP_RSP, seq_num)) + tlv(
            PFCP_IE_NODE_ID,
            node_id_value(our_addr),
        ) + tlv(PFCP_IE_CAUSE, seq![CAUSE_REQUEST_REJECTED]) + tlv(PFCP_IE_RECOVERY_TIME_STAMP, be32(recovery_ts)),
    )
}

/// The uplink PDR of a Session Establishment Request: gNB → UPF → core.
pub open spec fn uplink_pdr(ue_ip: Ipv4Addr) -> PdrParams {
    PdrParams {
        pdr_id: 1,
        precedence: 100,
        source_interface: crate::types::INTERFACE_ACCESS,
        fteid_choose: true,
        ue_ip: Some(ue_ip),
        far_id: 1,
        urr_id: None,
        outer_header_removal: true,
        sdf_filter: None,
    }
}

/// The downlink PDR of a Session Establishment Request: core → UPF → gNB.
pub open spec fn downlink_pdr(ue_ip: Ipv4Addr) -> PdrParams {
    PdrParams {
        pdr_id: 2,
        precedence: 100,
        source_interface: crate::types::INTERFACE_CORE,
        fteid_choose: false,
        ue_ip: Some(ue_ip),
        far_id: 2,
        urr_id: None,
        outer_header_removal: false,
        sdf_filter: None,
    }
}

/// The uplink FAR: forward to the core.
pub open spec fn uplink_far() -> FarParams {
    FarParams {
        far_id: 1,
        apply_action: crate::types::ACTION_FORW,
        dest_interface: crate::types::INTERFACE_CORE,
        outer_header_creation: None,
    }
}

/// The downlink FAR: forward to the gNB with GTP-U encapsulation.
pub open spec fn downlink_far(gnb_addr: Ipv4Addr, gnb_teid: u32) -> FarParams {
    FarParams {
        far_id: 2,
        apply_action: crate::types::ACTION_FORW,
        dest_interface: crate::types::INTERFACE_ACCESS,
        outer_header_creation: Some(
            OuterHeaderCreation { teid: gnb_teid, peer_addr: gnb_addr, port: crate::types::GTPU_PORT },
        ),
    }
}

pub open spec fn session_establishment_request_ies(
    smf_addr: Ipv4Addr,
    cp_seid: u64,
    ue_ip: Ipv4Addr,
    gnb_addr: Ipv4Addr,
    gnb_teid: u32,
) -> Seq<u8> {
    tlv(PFCP_IE_NODE_ID, node_id_value(smf_addr)) + tlv(PFCP_IE_FSEID, fseid_value(cp_seid, smf_addr))
        + tlv(PFCP_IE_CREATE_PDR, create_pdr_value(uplink_pdr(ue_ip))) + tlv(
        PFCP_IE_CREATE_PDR,
        create_pdr_value(downlink_pdr(ue_ip)),
    ) + tlv(PFCP_IE_CREATE_FAR, far_value(uplink_far(), PFCP_IE_FORWARDING_PARAMETERS)) + tlv(
        PFCP_IE_CREATE_FAR,
        far_value(downlink_far(gnb_addr, gnb_teid), PFCP_IE_FORWARDING_PARAMETERS),
    )
}

pub open spec fn spec_build_session_establishment_request(
    seq: u32,
    smf_addr: Ipv4Addr,
    cp_seid: u64,
    ue_ip: Ipv4Addr,
    gnb_addr: Ipv4Addr,
    gnb_teid: u32,
) -> Seq<u8> {
    spec_finish(
        spec_encode(spec_session_header(crate::types::PFCP_SESSION_ESTABLISHMENT_REQ, 0, seq))
            + session_establishment_request_ies(smf_addr, cp_seid, ue_ip, gnb_addr, gnb_teid),
    )
}

pub open spec fn session_establishment_response_ies(
    our_seid: u64,
    our_addr: Ipv4Addr,
    created_pdrs: Seq<(u16, u32, Ipv4Addr)>,
) -> Seq<u8> {
    tlv(PFCP_IE_NODE_ID, node_id_value(our_addr)) + tlv(PFCP_IE_CAUSE, seq![CAUSE_REQUEST_ACCEPTED])
        + tlv(PFCP_IE_FSEID, fseid_value(our_seid, our_addr)) + created_pdrs_bytes(created_pdrs)
}

pub open spec fn spec_build_session_establishment_response(
    seq_num: u32,
    cp_seid: u64,
    our_seid: u64,
    our_addr: Ipv4Addr,
    created_pdrs: Seq<(u16, u32, Ipv4Addr)>,
) -> Seq<u8> {
    spec_finish(
        spec_encode(spec_session_header(PFCP_SESSION_ESTABLISHMENT_RSP, cp_seid, seq_num))
            + session_establishment_response_ies(our_seid, our_addr, created_pdrs),
    )
}

/// A session message whose only IE is Cause = Request accepted.
pub open spec fn spec_build_accepted(msg_type: u8, seq_num: u32, seid: u64) -> Seq<u8> {
    spec_finish(
        spec_encode(spec_session_header(msg_type, seid, seq_num)) + tlv(
            PFCP_IE_CAUSE,
            seq![CAUSE_REQUEST_ACCEPTED],
        ),
    )
}

pub open spec fn volume_measurement_value(total: u64, ul: u64, dl: u64) -> Seq<u8> {
    seq![VOLUME_MEASUREMENT_TOVOL | VOLUME_MEASUREMENT_ULVOL | VOLUME_MEASUREMENT_DLVOL] + be64(
        total,
    ) + be64(ul) + be64(dl)
}

pub open spec fn usage_report_value(
    urr_id: u32,
    ur_seqn: u32,
    trigger: u8,
    total_volume: u64,
    ul_volume: u64,
    dl_volume: u64,
) -> Seq<u8> {
    tlv(PFCP_IE_URR_ID, be32(urr_id)) + tlv(PFCP_IE_UR_SEQN, be32(ur_seqn)) + tlv(
        PFCP_IE_USAGE_REPORT_TRIGGER,
        seq![trigger, 0u8],
    ) + tlv(PFCP_IE_VOLUME_MEASUREMENT, volume_measurement_value(total_volume, ul_volume, dl_volume))
}

pub open spec fn spec_build_session_report_request(
    seq_num: u32,
    cp_seid: u64,
    urr_id: u32,
    ur_seqn: u32,
    trigger: u8,
    total_volume: u64,
    ul_volume: u64,
    dl_volume: u64,
) -> Seq<u8> {
    spec_finish(
        spec_encode(spec_session_header(PFCP_SESSION_REPORT_REQ, cp_seid, seq_num)) + tlv(
            PFCP_IE_REPORT_TYPE,
            seq![REPORT_TYPE_USAR],
        ) + tlv(
            PFCP_IE_USAGE_REPORT_IN_SESS_RPT_REQ,
            usage_report_value(urr_id, ur_seqn, trigger, total_volume, ul_volume, dl_volume),
        ),
    )
}

/// Heartbeat Response
pub fn build_heartbeat_response(seq_num: u32, recovery_ts: u32) -> (r: Vec<u8>)
    ensures
        r@ == spec_build_heartbeat_response(seq_num, recovery_ts),
{
    let hdr = PfcpHeader::new_node_msg(PFCP_HEARTBEAT_RSP, seq_num);
    let mut msg = MsgBuilder::new(hdr);
    msg.add_recovery_timestamp(recovery_ts);
    msg.finish()
}

/// Heartbeat Request, as the UPF's keepalive and the SMF send it.
pub fn build_heartbeat_request(seq_num: u32, recovery_ts: u32) -> (r: Vec<u8>)
    ensures
        r@ == spec_build_heartbeat_request(seq_num, recovery_ts),
{
    let hdr = PfcpHeader::new_node_msg(PFCP_HEARTBEAT_REQ, seq_num);
    let mut msg = MsgBuilder::new(hdr);
    msg.add_recovery_timestamp(recovery_ts);
    msg.finish()
}

/// Association Setup Request of a CP function with Node ID `node_id`.
pub fn build_association_setup_request(seq_num: u32, node_id: Ipv4Addr, recovery_ts: u32) -> (r: Vec<u8>)
    ensures
        r@ == spec_build_association_setup_request(seq_num, node_id, recovery_ts),
{
    let hdr = PfcpHeader::new_node_msg(PFCP_ASSOCIATION_SETUP_REQ, seq_num);
    let mut msg = MsgBuilder::new(hdr);
    msg.add_node_id_v4(node_id);
    msg.add_recovery_timestamp(recovery_ts);
    let ghost b = msg@;
    assert(b =~= spec_encode(spec_node_header(PFCP_ASSOCIATION_SETUP_REQ, seq_num)) + tlv(
        PFCP_IE_NODE_ID,
        node_id_value(node_id),
    ) + tlv(PFCP_IE_RECOVERY_TIME_STAMP, be32(recovery_ts)));
    msg.finish()
}

/// Association Setup Response
pub fn build_association_setup_response(seq_num: u32, our_addr: Ipv4Addr, recovery_ts: u32) -> (r:
    Vec<u8>)
    ensures
        r@ == spec_build_association_setup_response(seq_num, our_addr, recovery_ts),
{
    let hdr = PfcpHeader::new_node_msg(PFCP_ASSOCIATION_SETUP_RSP, seq_num);
    let mut msg = MsgBuilder::new(hdr);
    msg.add_node_id_v4(our_addr);
    msg.add_cause(CAUSE_REQUEST_ACCEPTED);
    msg.add_recovery_timestamp(recovery_ts);
    msg.add_up_function_features();
    let ghost b = msg@;
    assert(b =~= spec_encode(spec_node_header(PFCP_ASSOCIATION_SETUP_RSP, seq_num))
        + association_setup_response_ies(our_addr, recovery_ts));
    msg.finish()
}

/// Association Setup Response refusing the request
pub fn build_association_setup_rejection(seq_num: u32, our_addr: Ipv4Addr, recovery_ts: u32) -> (r: Vec<u8>)
    ensures
        r@ == spec_build_association_setup_rejection(seq_num, our_addr, recovery_ts),
{
    let hdr = PfcpHeader::new_node_msg(PFCP_ASSOCIATION_SETUP_RSP, seq_num);
    let mut msg = MsgBuilder::new(hdr);
    msg.add_node_id_v4(our_addr);
    msg.add_cause(CAUSE_REQUEST_REJECTED);
    msg.add_recovery_timestamp(recovery_ts);
    msg.finish()
}

/// Session Establishment Request
pub fn build_session_establishment_request(
    seq: u32,
    smf_addr: Ipv4Addr,
    cp_seid: u64,
    ue_ip: Ipv4Addr,
    gnb_addr: Ipv4Addr,
    gnb_teid: u32,
) -> (r: Vec<u8>)
    ensures
        r@ == spec_build_session_establishment_request(
            seq,
            smf_addr,
            cp_seid,
            ue_ip,
            gnb_addr,
            gnb_teid,
        ),
{
    let hdr = PfcpHeader::new_session_msg(crate::types::PFCP_SESSION_ESTABLISHMENT_REQ, 0, seq);
    let mut msg = MsgBuilder::new(hdr);
    msg.add_node_id_v4(smf_addr);
    msg.add_fseid(cp_seid, smf_addr);
    // Uplink PDR: gNB → UPF → Core
    msg.add_create_pdr(
        &PdrParams {
            pdr_id: 1,
            precedence: 100,
            source_interface: crate::types::INTERFACE_ACCESS,
            fteid_choose: true,
            ue_ip: Some(ue_ip),
            far_id: 1,
            urr_id: None,
            outer_header_removal: true,
            sdf_filter: None,
        },
    );
    // Downlink PDR: Core → UPF → gNB
    msg.add_create_pdr(
        &PdrParams {
            pdr_id: 2,
            precedence: 100,
            source_interface: crate::types::INTERFACE_CORE,
            fteid_choose: false,
            ue_ip: Some(ue_ip),
            far_id: 2,
            urr_id: None,
            outer_header_removal: false,
            sdf_filter: None,
        },
    );
    // Uplink FAR: forward to the core
    msg.add_create_far(
        &FarParams {
            far_id: 1,
            apply_action: crate::types::ACTION_FORW,
            dest_interface: crate::types::INTERFACE_CORE,
            outer_header_creation: None,
        },
    );
    // Downlink FAR: GTP-U encapsulation towards the gNB
    msg.add_create_far(
        &FarParams {
            far_id: 2,
            apply_action: crate::types::ACTION_FORW,
            dest_interface: crate::types::INTERFACE_ACCESS,
            outer_header_creation: Some(
                OuterHeaderCreation { teid: gnb_teid, peer_addr: gnb_addr, port: crate::types::GTPU_PORT },
            ),
        },
    );
    let ghost b = msg@;
    assert(b =~= spec_encode(spec_session_header(crate::types::PFCP_SESSION_ESTABLISHMENT_REQ, 0, seq))
        + session_establishment_request_ies(smf_addr, cp_seid, ue_ip, gnb_addr, gnb_teid));
    msg.finish()
}

/// Session Establishment Response
pub fn build_session_establishment_response(
    seq_num: u32,
    cp_seid: u64,
    our_seid: u64,
    our_addr: Ipv4Addr,
    created_pdrs: &[(u16, u32, Ipv4Addr)],
) -> (r: Vec<u8>)
    ensures
        r@ == spec_build_session_establishment_response(
            seq_num,
            cp_seid,
            our_seid,
            our_addr,
            created_pdrs@,
        ),
{
    let hdr = PfcpHeader::new_session_msg(PFCP_SESSION_ESTABLISHMENT_RSP, cp_seid, seq_num);
    let mut msg = MsgBuilder::new(hdr);
    msg.add_node_id_v4(our_addr);
    msg.add_cause(CAUSE_REQUEST_ACCEPTED);
    msg.add_fseid(our_seid, our_addr);
    let ghost start = msg@;
    let mut i: usize = 0;
    while i < created_pdrs.len()
        invariant
            0 <= i <= created_pdrs@.len(),
            msg@ == start + created_pdrs_bytes(created_pdrs@.take(i as int)),
        decreases created_pdrs@.len() - i,
    {
        let (pdr_id, teid, addr) = created_pdrs[i];
        msg.add_created_pdr(pdr_id, teid, addr);
        proof {
            let t = created_pdrs@.take(i + 1);
            assert(t.drop_last() =~= created_pdrs@.take(i as int));
            assert(t.last() == created_pdrs@[i as int]);
        }
        i += 1;
    }
    assert(created_pdrs@.take(created_pdrs@.len() as int) =~= created_pdrs@);
    let ghost b = msg@;
    assert(b =~= spec_encode(spec_session_header(PFCP_SESSION_ESTABLISHMENT_RSP, cp_seid, seq_num))
        + session_establishment_response_ies(our_seid, our_addr, created_pdrs@));
    msg.finish()
}

fn build_accepted(msg_type: u8, seq_num: u32, seid: u64) -> (r: Vec<u8>)
    ensures
        r@ == spec_build_accepted(msg_type, seq_num, seid),
{
    let hdr = PfcpHeader::new_session_msg(msg_type, seid, seq_num);
    let mut msg = MsgBuilder::new(hdr);
    msg.add_cause(CAUSE_REQUEST_ACCEPTED);
    msg.finish()
}

/// Session Modification Response
pub fn build_session_modification_response(seq_num: u32, seid: u64) -> (r: Vec<u8>)
    ensures
        r@ == spec_build_accepted(PFCP_SESSION_MODIFICATION_RSP, seq_num, seid),
{
    build_accepted(PFCP_SESSION_MODIFICATION_RSP, seq_num, seid)
}

/// Session Deletion Request for the UPF's session `seid`: a header alone.
pub fn build_session_deletion_request(seq_num: u32, seid: u64) -> (r: Vec<u8>)
    ensures
        r@ == spec_finish(spec_encode(spec_session_header(PFCP_SESSION_DELETION_REQ, seid, seq_num))),
{
    let hdr = PfcpHeader::new_session_msg(PFCP_SESSION_DELETION_REQ, seid, seq_num);
    MsgBuilder::new(hdr).finish()
}

/// Session Deletion Response
pub fn build_session_deletion_response(seq_num: u32, seid: u64) -> (r: Vec<u8>)
    ensures
        r@ == spec_build_accepted(PFCP_SESSION_DELETION_RSP, seq_num, seid),
{
    build_accepted(PFCP_SESSION_DELETION_RSP, seq_num, seid)
}

/// Session Report Request carrying one usage report.
pub fn build_session_report_request(
    seq_num: u32,
    cp_seid: u64,
    urr_id: u32,
    ur_seqn: u32,
    trigger: u8,
    total_volume: u64,
    ul_volume: u64,
    dl_volume: u64,
) -> (r: Vec<u8>)
    ensures
        r@ == spec_build_session_report_request(
            seq_num,
            cp_seid,
            urr_id,
            ur_seqn,
            trigger,
            total_volume,
            ul_volume,
            dl_volume,
        ),
{
    let hdr = PfcpHeader::new_session_msg(PFCP_SESSION_REPORT_REQ, cp_seid, seq_num);
    let mut msg = MsgBuilder::new(hdr);
    let rt = [REPORT_TYPE_USAR];
    msg.add_ie(PFCP_IE_REPORT_TYPE, &rt);
    let mut ur: Vec<u8> = Vec::new();
    let mut a: Vec<u8> = Vec::new();
    push_u32_be(&mut a, urr_id);
    MsgBuilder::append_ie(&mut ur, PFCP_IE_URR_ID, a.as_slice());
    let mut b: Vec<u8> = Vec::new();
    push_u32_be(&mut b, ur_seqn);
    MsgBuilder::append_ie(&mut ur, PFCP_IE_UR_SEQN, b.as_slice());
    let tr = [trigger, 0x00u8];
    MsgBuilder::append_ie(&mut ur, PFCP_IE_USAGE_REPORT_TRIGGER, &tr);
    let mut vm: Vec<u8> = Vec::new();
    vm.push(VOLUME_MEASUREMENT_TOVOL | VOLUME_MEASUREMENT_ULVOL | VOLUME_MEASUREMENT_DLVOL);
    push_u64_be(&mut vm, total_volume);
    push_u64_be(&mut vm, ul_volume);
    push_u64_be(&mut vm, dl_volume);
    assert(vm@ =~= volume_measurement_value(total_volume, ul_volume, dl_volume));
    MsgBuilder::append_ie(&mut ur, PFCP_IE_VOLUME_MEASUREMENT, vm.as_slice());
    assert(ur@ =~= usage_report_value(urr_id, ur_seqn, trigger, total_volume, ul_volume, dl_volume))
        by {
        assert(a@ =~= be32(urr_id));
        assert(b@ =~= be32(ur_seqn));
        assert(tr@ =~= seq![trigger, 0u8]);
    }
    msg.add_ie(PFCP_IE_USAGE_REPORT_IN_SESS_RPT_REQ, ur.as_slice());
    let ghost m = msg@;
    assert(m =~= spec_encode(spec_session_header(PFCP_SESSION_REPORT_REQ, cp_seid, seq_num)) + tlv(
        PFCP_IE_REPORT_TYPE,
        seq![REPORT_TYPE_USAR],
    ) + tlv(
        PFCP_IE_USAGE_REPORT_IN_SESS_RPT_REQ,
        usage_report_value(urr_id, ur_seqn, trigger, total_volume, ul_volume, dl_volume),
    )) by {
        assert(rt@ =~= seq![REPORT_TYPE_USAR]);
    }
    msg.finish()
}

/// Session Report Response
pub fn build_session_report_response(seq_num: u32, seid: u64) -> (r: Vec<u8>)
    ensures
        r@ == spec_build_accepted(PFCP_SESSION_REPORT_RSP, seq_num, seid),
{
    build_accepted(PFCP_SESSION_REPORT_RSP, seq_num, seid)
}

} // verus!
