//! What the parsers read back from what the builders write.
use vstd::prelude::*;
use crate::builder::{
    create_pdr_value, create_urr_value, downlink_far, downlink_pdr, far_value, fseid_value,
    fteid_choose_value, forwarding_value, node_id_value, ohc_value, opt_bytes, pdi_value,
    sdf_value, session_establishment_request_ies, spec_build_heartbeat_response,
    spec_build_session_establishment_request, spec_finish, ue_ip_value, uplink_far, uplink_pdr,
    FarParams, PdrParams, UrrParams,
};
use crate::dict::{has_ie_type, spec_missing, spec_validate};
use crate::messages::{
    far_collector, first_ie, optional_node_id, pdr_collector, spec_decode_session_establishment,
    SessionEstablishmentReqView,
};
use crate::bytes::{be16, be32, be64, lemma_read_be16, lemma_read_be32, lemma_read_be64};
use crate::header::{
    header_wf, lemma_header_roundtrip, spec_decode, spec_encode, spec_header_len,
    spec_node_header, spec_session_header, PfcpError, PfcpHeader,
};
use crate::ie::{
    far_default, far_step, far_stepper, fold_ies, fwd_step, fwd_stepper, lemma_fold_push,
    lemma_iter_tlv, pdi_step, pdi_stepper, pdr_default, pdr_step, pdr_stepper,
    spec_iter_ies, spec_parse_create_far, spec_parse_create_pdr, spec_parse_create_urr,
    spec_parse_forwarding_params, spec_parse_pdi, spec_parse_recovery_timestamp,
    spec_parse_update_far, tlv, urr_default, urr_step, urr_stepper, IeView,
    OuterHeaderCreation, ParsedFAR, ParsedPDR, ParsedURR,
};
use crate::net::{lemma_new_octets, Ipv4Addr};
use crate::validator::spec_extract_recovery_ts;
use crate::types::{
    GTPU_PORT, PFCP_IE_CREATE_FAR, PFCP_IE_CREATE_PDR, PFCP_IE_FSEID, PFCP_IE_NODE_ID,
    PFCP_SESSION_ESTABLISHMENT_REQ, PFCP_HEARTBEAT_RSP, PFCP_IE_APPLY_ACTION, PFCP_IE_DESTINATION_INTERFACE,
    PFCP_IE_FAR_ID, PFCP_IE_FORWARDING_PARAMETERS, PFCP_IE_FTEID, PFCP_IE_MEASUREMENT_METHOD,
    PFCP_IE_MEASUREMENT_PERIOD, PFCP_IE_OUTER_HEADER_CREATION, PFCP_IE_OUTER_HEADER_REMOVAL,
    PFCP_IE_PDI, PFCP_IE_PDR_ID, PFCP_IE_PRECEDENCE, PFCP_IE_RECOVERY_TIME_STAMP,
    PFCP_IE_REPORTING_TRIGGERS, PFCP_IE_SDF_FILTER, PFCP_IE_SOURCE_INTERFACE,
    PFCP_IE_UE_IP_ADDRESS, PFCP_IE_UPDATE_FORWARDING_PARAMETERS, PFCP_IE_URR_ID,
    PFCP_IE_VOLUME_THRESHOLD, VOLUME_THRESHOLD_TOVOL,
};

verus! {

/// Finishing a message only fills the length field of its header.
pub proof fn lemma_finish_encode(h: PfcpHeader, body: Seq<u8>)
    ensures
        spec_finish(spec_encode(h) + body) == spec_encode(
            PfcpHeader {
                length: ((spec_header_len(h) + body.len() - 4) as int) as u16,
                ..h
            },
        ) + body,
{
    let h2 = PfcpHeader { length: ((spec_header_len(h) + body.len() - 4) as int) as u16, ..h };
    assert(spec_encode(h).len() == spec_header_len(h));
    assert(spec_finish(spec_encode(h) + body) =~= spec_encode(h2) + body);
}

/// A finished message decodes to its header, with the length field set to
/// the number of bytes after the first four, and to its body.
pub proof fn lemma_message_roundtrip(h: PfcpHeader, body: Seq<u8>)
    requires
        header_wf(h),
    ensures
        ({
            let m = spec_finish(spec_encode(h) + body);
            let hl = spec_header_len(h) as int;
            &&& spec_decode(m) == Ok::<(PfcpHeader, int), PfcpError>(
                (PfcpHeader { length: ((hl + body.len() - 4) as int) as u16, ..h }, hl),
            )
            &&& m.subrange(hl, m.len() as int) == body
        }),
{
    let h2 = PfcpHeader { length: ((spec_header_len(h) + body.len() - 4) as int) as u16, ..h };
    lemma_finish_encode(h, body);
    lemma_header_roundtrip(h2, body);
}

/// A Heartbeat Response decodes to its type and sequence number, and its
/// only IE is the Recovery Time Stamp, which reads back as the one written.
pub proof fn law_heartbeat_response_roundtrip(seq_num: u32, recovery_ts: u32)
    requires
        seq_num < 0x1000000,
    ensures
        ({
            let m = spec_build_heartbeat_response(seq_num, recovery_ts);
            &&& spec_decode(m) matches Ok((h, pos)) && h.msg_type == PFCP_HEARTBEAT_RSP
                && h.seq_num == seq_num && h.seid is None && h.length == 12 && pos == 8
                && spec_iter_ies(m.subrange(pos, m.len() as int)) == seq![
                IeView { ie_type: PFCP_IE_RECOVERY_TIME_STAMP, value: be32(recovery_ts) },
            ]
            &&& spec_parse_recovery_timestamp(be32(recovery_ts)) == Ok::<u32, PfcpError>(
                recovery_ts,
            )
        }),
{
    let h = spec_node_header(PFCP_HEARTBEAT_RSP, seq_num);
    let b = tlv(PFCP_IE_RECOVERY_TIME_STAMP, be32(recovery_ts));
    lemma_message_roundtrip(h, b);
    lemma_iter_tlv(PFCP_IE_RECOVERY_TIME_STAMP, be32(recovery_ts), Seq::empty());
    assert(b + Seq::<u8>::empty() =~= b);
    assert(seq![IeView { ie_type: PFCP_IE_RECOVERY_TIME_STAMP, value: be32(recovery_ts) }]
        + spec_iter_ies(Seq::empty()) =~= seq![
        IeView { ie_type: PFCP_IE_RECOVERY_TIME_STAMP, value: be32(recovery_ts) },
    ]);
    assert(be32(recovery_ts).subrange(0, 4) =~= be32(recovery_ts));
    lemma_read_be32(recovery_ts, be32(recovery_ts), 0);
}

/// A header's encoding keeps only the low 24 bits of its sequence number.
pub proof fn lemma_encode_seq_low_bits(h: PfcpHeader)
    ensures
        spec_encode(h) == spec_encode(PfcpHeader { seq_num: h.seq_num % 0x1000000, ..h }),
{
    let q = h.seq_num;
    assert((q >> 16) as u8 == ((q % 0x1000000) >> 16) as u8) by (bit_vector);
    assert((q >> 8) as u8 == ((q % 0x1000000) >> 8) as u8) by (bit_vector);
    assert(q as u8 == (q % 0x1000000) as u8) by (bit_vector);
    assert(spec_encode(h) =~= spec_encode(PfcpHeader { seq_num: h.seq_num % 0x1000000, ..h }));
}

/// Whatever its sequence number, a Heartbeat Response gives back the
/// Recovery Time Stamp written into it, and its header carries the low 24
/// bits of the sequence number.
pub proof fn law_heartbeat_stamp_roundtrip(seq_num: u32, recovery_ts: u32)
    ensures
        spec_extract_recovery_ts(spec_build_heartbeat_response(seq_num, recovery_ts)) == Some(recovery_ts),
        spec_decode(spec_build_heartbeat_response(seq_num, recovery_ts)) matches Ok((h, _)) && h.seq_num
            == seq_num % 0x1000000 && h.msg_type == PFCP_HEARTBEAT_RSP,
{
    let low = seq_num % 0x1000000;
    lemma_encode_seq_low_bits(spec_node_header(PFCP_HEARTBEAT_RSP, seq_num));
    assert(spec_node_header(PFCP_HEARTBEAT_RSP, low) == PfcpHeader {
        seq_num: low,
        ..spec_node_header(PFCP_HEARTBEAT_RSP, seq_num)
    });
    assert(spec_build_heartbeat_response(seq_num, recovery_ts) == spec_build_heartbeat_response(low, recovery_ts));
    law_heartbeat_response_roundtrip(low, recovery_ts);
}

/// Reading an optional TLV in front of `rest`.
pub proof fn lemma_iter_opt(present: bool, ie_type: u16, value: Seq<u8>, rest: Seq<u8>)
    requires
        value.len() < 0x10000,
    ensures
        spec_iter_ies(opt_bytes(present, tlv(ie_type, value)) + rest) == (if present {
            seq![IeView { ie_type, value }]
        } else {
            Seq::empty()
        }) + spec_iter_ies(rest),
{
    if present {
        lemma_iter_tlv(ie_type, value, rest);
    } else {
        assert(opt_bytes(present, tlv(ie_type, value)) + rest =~= rest);
        assert(Seq::<IeView>::empty() + spec_iter_ies(rest) =~= spec_iter_ies(rest));
    }
}

/// The PDR that a Create PDR built from `p` reads back as.
pub open spec fn expected_pdr(p: PdrParams) -> ParsedPDR {
    ParsedPDR {
        pdr_id: p.pdr_id,
        precedence: p.precedence,
        source_interface: p.source_interface & 0x0F,
        local_fteid: if p.fteid_choose {
            Some((0u32, Ipv4Addr { bits: 0 }))
        } else {
            None
        },
        ue_ip: p.ue_ip,
        far_id: Some(p.far_id),
        outer_header_removal: p.outer_header_removal,
    }
}

proof fn lemma_pdi_roundtrip(p: PdrParams, acc: ParsedPDR)
    ensures
        spec_parse_pdi(pdi_value(p), acc) == Ok::<ParsedPDR, PfcpError>(
            ParsedPDR {
                source_interface: p.source_interface & 0x0F,
                local_fteid: if p.fteid_choose {
                    Some((0u32, Ipv4Addr { bits: 0 }))
                } else {
                    acc.local_fteid
                },
                ue_ip: match p.ue_ip {
                    Some(a) => Some(a),
                    None => acc.ue_ip,
                },
                ..acc
            },
        ),
{
    let x_si = IeView { ie_type: PFCP_IE_SOURCE_INTERFACE, value: seq![p.source_interface] };
    let x_f = IeView { ie_type: PFCP_IE_FTEID, value: fteid_choose_value() };
    let ue_present = p.ue_ip is Some;
    let ue_v = match p.ue_ip {
        Some(a) => ue_ip_value(a),
        None => Seq::empty(),
    };
    let x_ue = IeView { ie_type: PFCP_IE_UE_IP_ADDRESS, value: ue_v };
    let sdf_present = p.sdf_filter is Some;
    let sdf_v = match p.sdf_filter {
        Some(f) => sdf_value(f),
        None => Seq::empty(),
    };
    let x_sdf = IeView { ie_type: PFCP_IE_SDF_FILTER, value: sdf_v };
    let t_si = tlv(PFCP_IE_SOURCE_INTERFACE, seq![p.source_interface]);
    let o_f = opt_bytes(p.fteid_choose, tlv(PFCP_IE_FTEID, fteid_choose_value()));
    let o_ue = opt_bytes(ue_present, tlv(PFCP_IE_UE_IP_ADDRESS, ue_v));
    let o_sdf = opt_bytes(sdf_present, tlv(PFCP_IE_SDF_FILTER, sdf_v));
    assert(pdi_value(p) =~= t_si + (o_f + (o_ue + (o_sdf + Seq::empty()))));
    let l_f: Seq<IeView> = if p.fteid_choose { seq![x_f] } else { Seq::empty() };
    let l_ue: Seq<IeView> = if ue_present { seq![x_ue] } else { Seq::empty() };
    let l_sdf: Seq<IeView> = if sdf_present { seq![x_sdf] } else { Seq::empty() };
    lemma_iter_opt(sdf_present, PFCP_IE_SDF_FILTER, sdf_v, Seq::empty());
    lemma_iter_opt(ue_present, PFCP_IE_UE_IP_ADDRESS, ue_v, o_sdf + Seq::empty());
    lemma_iter_opt(
        p.fteid_choose,
        PFCP_IE_FTEID,
        fteid_choose_value(),
        o_ue + (o_sdf + Seq::empty()),
    );
    lemma_iter_tlv(
        PFCP_IE_SOURCE_INTERFACE,
        seq![p.source_interface],
        o_f + (o_ue + (o_sdf + Seq::empty())),
    );
    let l = seq![x_si] + (l_f + (l_ue + (l_sdf + Seq::<IeView>::empty())));
    assert(spec_iter_ies(pdi_value(p)) == l);
    // Fold, one IE at a time.
    let st = pdi_stepper();
    let a0 = Seq::<IeView>::empty().push(x_si);
    lemma_fold_push(Seq::<IeView>::empty(), x_si, acc, st);
    let v1 = ParsedPDR { source_interface: p.source_interface & 0x0F, ..acc };
    assert(fold_ies(a0, acc, st) == Ok::<ParsedPDR, PfcpError>(v1));
    let a1 = a0 + l_f;
    let v2 = if p.fteid_choose {
        ParsedPDR { local_fteid: Some((0u32, Ipv4Addr { bits: 0 })), ..v1 }
    } else {
        v1
    };
    if p.fteid_choose {
        assert(0x04u8 & 0x04u8 != 0) by (bit_vector);
        assert(fteid_choose_value()[0] == 0x04u8);
        assert(a1 =~= a0.push(x_f));
        lemma_fold_push(a0, x_f, acc, st);
    } else {
        assert(a1 =~= a0);
    }
    assert(fold_ies(a1, acc, st) == Ok::<ParsedPDR, PfcpError>(v2));
    let a2 = a1 + l_ue;
    let v3 = match p.ue_ip {
        Some(a) => ParsedPDR { ue_ip: Some(a), ..v2 },
        None => v2,
    };
    if ue_present {
        let a = p.ue_ip.unwrap();
        lemma_new_octets_of(a);
        assert(a2 =~= a1.push(x_ue));
        lemma_fold_push(a1, x_ue, acc, st);
    } else {
        assert(a2 =~= a1);
    }
    assert(fold_ies(a2, acc, st) == Ok::<ParsedPDR, PfcpError>(v3));
    let a3 = a2 + l_sdf;
    if sdf_present {
        assert(a3 =~= a2.push(x_sdf));
        lemma_fold_push(a2, x_sdf, acc, st);
    } else {
        assert(a3 =~= a2);
    }
    assert(fold_ies(a3, acc, st) == Ok::<ParsedPDR, PfcpError>(v3));
    assert(l =~= a3);
}

/// The octets of `a`, read as an address, are `a`; and a UE IP Address value
/// built from `a` reads back as `a`.
proof fn lemma_new_octets_of(a: Ipv4Addr)
    ensures
        crate::ie::spec_parse_ue_ip_address(ue_ip_value(a)) == Ok::<Ipv4Addr, PfcpError>(a),
{
    lemma_new_octets(a);
    let v = ue_ip_value(a);
    assert(v[0] == 0x02u8);
    assert(0x02u8 & 0x02u8 != 0) by (bit_vector);
    assert(v[1] == a.spec_octets()[0]);
    assert(v[2] == a.spec_octets()[1]);
    assert(v[3] == a.spec_octets()[2]);
    assert(v[4] == a.spec_octets()[3]);
}

/// A Create PDR built from `p` reads back as `expected_pdr(p)`.
pub proof fn law_create_pdr_roundtrip(p: PdrParams)
    ensures
        spec_parse_create_pdr(create_pdr_value(p)) == Ok::<ParsedPDR, PfcpError>(expected_pdr(p)),
{
    let x_id = IeView { ie_type: PFCP_IE_PDR_ID, value: be16(p.pdr_id) };
    let x_prec = IeView { ie_type: PFCP_IE_PRECEDENCE, value: be32(p.precedence) };
    let x_pdi = IeView { ie_type: PFCP_IE_PDI, value: pdi_value(p) };
    let x_far = IeView { ie_type: PFCP_IE_FAR_ID, value: be32(p.far_id) };
    let urr_present = p.urr_id is Some;
    let urr_v = match p.urr_id {
        Some(u) => be32(u),
        None => Seq::empty(),
    };
    let x_urr = IeView { ie_type: PFCP_IE_URR_ID, value: urr_v };
    let x_ohr = IeView { ie_type: PFCP_IE_OUTER_HEADER_REMOVAL, value: seq![0u8] };
    let t_id = tlv(PFCP_IE_PDR_ID, be16(p.pdr_id));
    let t_prec = tlv(PFCP_IE_PRECEDENCE, be32(p.precedence));
    let t_pdi = tlv(PFCP_IE_PDI, pdi_value(p));
    let t_far = tlv(PFCP_IE_FAR_ID, be32(p.far_id));
    let o_urr = opt_bytes(urr_present, tlv(PFCP_IE_URR_ID, urr_v));
    let o_ohr = opt_bytes(p.outer_header_removal, tlv(PFCP_IE_OUTER_HEADER_REMOVAL, seq![0u8]));
    let e = Seq::<u8>::empty();
    assert(create_pdr_value(p) =~= t_id + (t_prec + (t_pdi + (t_far + (o_urr + (o_ohr + e))))));
    assert(pdi_value(p).len() < 0x10000);
    lemma_iter_opt(p.outer_header_removal, PFCP_IE_OUTER_HEADER_REMOVAL, seq![0u8], e);
    lemma_iter_opt(urr_present, PFCP_IE_URR_ID, urr_v, o_ohr + e);
    lemma_iter_tlv(PFCP_IE_FAR_ID, be32(p.far_id), o_urr + (o_ohr + e));
    lemma_iter_tlv(PFCP_IE_PDI, pdi_value(p), t_far + (o_urr + (o_ohr + e)));
    lemma_iter_tlv(PFCP_IE_PRECEDENCE, be32(p.precedence), t_pdi + (t_far + (o_urr + (o_ohr + e))));
    lemma_iter_tlv(
        PFCP_IE_PDR_ID,
        be16(p.pdr_id),
        t_prec + (t_pdi + (t_far + (o_urr + (o_ohr + e)))),
    );
    let l_urr: Seq<IeView> = if urr_present { seq![x_urr] } else { Seq::empty() };
    let l_ohr: Seq<IeView> = if p.outer_header_removal { seq![x_ohr] } else { Seq::empty() };
    let l = seq![x_id] + (seq![x_prec] + (seq![x_pdi] + (seq![x_far] + (l_urr + (l_ohr
        + Seq::<IeView>::empty())))));
    assert(spec_iter_ies(create_pdr_value(p)) == l);
    // Fold.
    let st = pdr_stepper();
    let init = pdr_default();
    assert(be16(p.pdr_id).subrange(0, 2) =~= be16(p.pdr_id));
    lemma_read_be16(p.pdr_id, be16(p.pdr_id), 0);
    assert(be32(p.precedence).subrange(0, 4) =~= be32(p.precedence));
    lemma_read_be32(p.precedence, be32(p.precedence), 0);
    assert(be32(p.far_id).subrange(0, 4) =~= be32(p.far_id));
    lemma_read_be32(p.far_id, be32(p.far_id), 0);
    let a1 = Seq::<IeView>::empty().push(x_id);
    lemma_fold_push(Seq::<IeView>::empty(), x_id, init, st);
    let v1 = ParsedPDR { pdr_id: p.pdr_id, ..init };
    assert(fold_ies(a1, init, st) == Ok::<ParsedPDR, PfcpError>(v1));
    let a2 = a1.push(x_prec);
    lemma_fold_push(a1, x_prec, init, st);
    let v2 = ParsedPDR { precedence: p.precedence, ..v1 };
    assert(fold_ies(a2, init, st) == Ok::<ParsedPDR, PfcpError>(v2));
    let a3 = a2.push(x_pdi);
    lemma_fold_push(a2, x_pdi, init, st);
    lemma_pdi_roundtrip(p, v2);
    let v3 = ParsedPDR {
        source_interface: p.source_interface & 0x0F,
        local_fteid: if p.fteid_choose {
            Some((0u32, Ipv4Addr { bits: 0 }))
        } else {
            None
        },
        ue_ip: p.ue_ip,
        ..v2
    };
    assert(fold_ies(a3, init, st) == Ok::<ParsedPDR, PfcpError>(v3));
    let a4 = a3.push(x_far);
    lemma_fold_push(a3, x_far, init, st);
    let v4 = ParsedPDR { far_id: Some(p.far_id), ..v3 };
    assert(fold_ies(a4, init, st) == Ok::<ParsedPDR, PfcpError>(v4));
    let a5 = a4 + l_urr;
    if urr_present {
        assert(a5 =~= a4.push(x_urr));
        lemma_fold_push(a4, x_urr, init, st);
    } else {
        assert(a5 =~= a4);
    }
    assert(fold_ies(a5, init, st) == Ok::<ParsedPDR, PfcpError>(v4));
    let a6 = a5 + l_ohr;
    if p.outer_header_removal {
        assert(a6 =~= a5.push(x_ohr));
        lemma_fold_push(a5, x_ohr, init, st);
    } else {
        assert(a6 =~= a5);
    }
    assert(fold_ies(a6, init, st) == Ok::<ParsedPDR, PfcpError>(expected_pdr(p)));
    assert(l =~= a6);
}


/// The FAR that a FAR built from `f` reads back as. The port of the outer
/// header is the GTP-U port, whatever `f` holds.
pub open spec fn expected_far(f: FarParams) -> ParsedFAR {
    ParsedFAR {
        far_id: f.far_id,
        apply_action: f.apply_action,
        dest_interface: Some(f.dest_interface & 0x0F),
        outer_header_creation: match f.outer_header_creation {
            Some(o) => Some(OuterHeaderCreation { teid: o.teid, peer_addr: o.peer_addr, port: GTPU_PORT }),
            None => None,
        },
    }
}

proof fn lemma_forwarding_roundtrip(f: FarParams, acc: ParsedFAR)
    ensures
        spec_parse_forwarding_params(forwarding_value(f), acc) == Ok::<ParsedFAR, PfcpError>(
            ParsedFAR {
                dest_interface: Some(f.dest_interface & 0x0F),
                outer_header_creation: match f.outer_header_creation {
                    Some(o) => Some(
                        OuterHeaderCreation { teid: o.teid, peer_addr: o.peer_addr, port: GTPU_PORT },
                    ),
                    None => acc.outer_header_creation,
                },
                ..acc
            },
        ),
{
    let x_di = IeView { ie_type: PFCP_IE_DESTINATION_INTERFACE, value: seq![f.dest_interface] };
    let present = f.outer_header_creation is Some;
    let ov = match f.outer_header_creation {
        Some(o) => ohc_value(o),
        None => Seq::empty(),
    };
    let x_o = IeView { ie_type: PFCP_IE_OUTER_HEADER_CREATION, value: ov };
    let t_di = tlv(PFCP_IE_DESTINATION_INTERFACE, seq![f.dest_interface]);
    let o_o = opt_bytes(present, tlv(PFCP_IE_OUTER_HEADER_CREATION, ov));
    let e = Seq::<u8>::empty();
    assert(forwarding_value(f) =~= t_di + (o_o + e));
    lemma_iter_opt(present, PFCP_IE_OUTER_HEADER_CREATION, ov, e);
    lemma_iter_tlv(PFCP_IE_DESTINATION_INTERFACE, seq![f.dest_interface], o_o + e);
    let l_o: Seq<IeView> = if present { seq![x_o] } else { Seq::empty() };
    let l = seq![x_di] + (l_o + Seq::<IeView>::empty());
    assert(spec_iter_ies(forwarding_value(f)) == l);
    let st = fwd_stepper();
    let a1 = Seq::<IeView>::empty().push(x_di);
    lemma_fold_push(Seq::<IeView>::empty(), x_di, acc, st);
    let v1 = ParsedFAR { dest_interface: Some(f.dest_interface & 0x0F), ..acc };
    assert(fold_ies(a1, acc, st) == Ok::<ParsedFAR, PfcpError>(v1));
    let a2 = a1 + l_o;
    if present {
        let o = f.outer_header_creation.unwrap();
        lemma_new_octets(o.peer_addr);
        assert(ov.subrange(2, 6) =~= be32(o.teid));
        lemma_read_be32(o.teid, ov, 2);
        assert(ov[6] == o.peer_addr.spec_octets()[0]);
        assert(ov[7] == o.peer_addr.spec_octets()[1]);
        assert(ov[8] == o.peer_addr.spec_octets()[2]);
        assert(ov[9] == o.peer_addr.spec_octets()[3]);
        assert(a2 =~= a1.push(x_o));
        lemma_fold_push(a1, x_o, acc, st);
    } else {
        assert(a2 =~= a1);
    }
    assert(l =~= a2);
}

proof fn lemma_far_roundtrip(f: FarParams, fwd_type: u16)
    requires
        fwd_type != PFCP_IE_FAR_ID,
        fwd_type != PFCP_IE_APPLY_ACTION,
    ensures
        fold_ies(spec_iter_ies(far_value(f, fwd_type)), far_default(), far_stepper(fwd_type))
            == Ok::<ParsedFAR, PfcpError>(expected_far(f)),
{
    let x_id = IeView { ie_type: PFCP_IE_FAR_ID, value: be32(f.far_id) };
    let x_aa = IeView { ie_type: PFCP_IE_APPLY_ACTION, value: seq![f.apply_action] };
    let x_fw = IeView { ie_type: fwd_type, value: forwarding_value(f) };
    let t_id = tlv(PFCP_IE_FAR_ID, be32(f.far_id));
    let t_aa = tlv(PFCP_IE_APPLY_ACTION, seq![f.apply_action]);
    let t_fw = tlv(fwd_type, forwarding_value(f));
    let e = Seq::<u8>::empty();
    assert(far_value(f, fwd_type) =~= t_id + (t_aa + (t_fw + e)));
    assert(forwarding_value(f).len() < 0x10000);
    lemma_iter_tlv(fwd_type, forwarding_value(f), e);
    lemma_iter_tlv(PFCP_IE_APPLY_ACTION, seq![f.apply_action], t_fw + e);
    lemma_iter_tlv(PFCP_IE_FAR_ID, be32(f.far_id), t_aa + (t_fw + e));
    let l = seq![x_id] + (seq![x_aa] + (seq![x_fw] + Seq::<IeView>::empty()));
    assert(spec_iter_ies(far_value(f, fwd_type)) == l);
    let st = far_stepper(fwd_type);
    let init = far_default();
    assert(be32(f.far_id).subrange(0, 4) =~= be32(f.far_id));
    lemma_read_be32(f.far_id, be32(f.far_id), 0);
    let a1 = Seq::<IeView>::empty().push(x_id);
    lemma_fold_push(Seq::<IeView>::empty(), x_id, init, st);
    let v1 = ParsedFAR { far_id: f.far_id, ..init };
    assert(fold_ies(a1, init, st) == Ok::<ParsedFAR, PfcpError>(v1));
    let a2 = a1.push(x_aa);
    lemma_fold_push(a1, x_aa, init, st);
    let v2 = ParsedFAR { apply_action: f.apply_action, ..v1 };
    assert(fold_ies(a2, init, st) == Ok::<ParsedFAR, PfcpError>(v2));
    let a3 = a2.push(x_fw);
    lemma_fold_push(a2, x_fw, init, st);
    lemma_forwarding_roundtrip(f, v2);
    assert(fold_ies(a3, init, st) == Ok::<ParsedFAR, PfcpError>(expected_far(f)));
    assert(l =~= a3);
}

/// A Create FAR built from `f` reads back as `expected_far(f)`.
pub proof fn law_create_far_roundtrip(f: FarParams)
    ensures
        spec_parse_create_far(far_value(f, PFCP_IE_FORWARDING_PARAMETERS)) == Ok::<
            ParsedFAR,
            PfcpError,
        >(expected_far(f)),
{
    lemma_far_roundtrip(f, PFCP_IE_FORWARDING_PARAMETERS);
}

/// An Update FAR built from `f` reads back as `expected_far(f)`.
pub proof fn law_update_far_roundtrip(f: FarParams)
    ensures
        spec_parse_update_far(far_value(f, PFCP_IE_UPDATE_FORWARDING_PARAMETERS)) == Ok::<
            ParsedFAR,
            PfcpError,
        >(expected_far(f)),
{
    lemma_far_roundtrip(f, PFCP_IE_UPDATE_FORWARDING_PARAMETERS);
}

/// The URR that a Create URR built from `u` reads back as.
pub open spec fn expected_urr(u: UrrParams) -> ParsedURR {
    ParsedURR {
        urr_id: u.urr_id,
        measurement_method: u.measurement_method,
        reporting_triggers: u.reporting_triggers,
        volume_threshold_total: u.volume_threshold_total,
        measurement_period: u.measurement_period,
    }
}

/// A Create URR built from `u` reads back as `expected_urr(u)`.
pub proof fn law_create_urr_roundtrip(u: UrrParams)
    ensures
        spec_parse_create_urr(create_urr_value(u)) == Ok::<ParsedURR, PfcpError>(expected_urr(u)),
{
    let x_id = IeView { ie_type: PFCP_IE_URR_ID, value: be32(u.urr_id) };
    let x_mm = IeView { ie_type: PFCP_IE_MEASUREMENT_METHOD, value: seq![u.measurement_method] };
    let x_rt = IeView { ie_type: PFCP_IE_REPORTING_TRIGGERS, value: seq![u.reporting_triggers, 0u8] };
    let vt_present = u.volume_threshold_total is Some;
    let vt_v = match u.volume_threshold_total {
        Some(t) => seq![VOLUME_THRESHOLD_TOVOL] + be64(t),
        None => Seq::empty(),
    };
    let x_vt = IeView { ie_type: PFCP_IE_VOLUME_THRESHOLD, value: vt_v };
    let mp_present = u.measurement_period is Some;
    let mp_v = match u.measurement_period {
        Some(p) => be32(p),
        None => Seq::empty(),
    };
    let x_mp = IeView { ie_type: PFCP_IE_MEASUREMENT_PERIOD, value: mp_v };
    let t_id = tlv(PFCP_IE_URR_ID, be32(u.urr_id));
    let t_mm = tlv(PFCP_IE_MEASUREMENT_METHOD, seq![u.measurement_method]);
    let t_rt = tlv(PFCP_IE_REPORTING_TRIGGERS, seq![u.reporting_triggers, 0u8]);
    let o_vt = opt_bytes(vt_present, tlv(PFCP_IE_VOLUME_THRESHOLD, vt_v));
    let o_mp = opt_bytes(mp_present, tlv(PFCP_IE_MEASUREMENT_PERIOD, mp_v));
    let e = Seq::<u8>::empty();
    assert(create_urr_value(u) =~= t_id + (t_mm + (t_rt + (o_vt + (o_mp + e)))));
    lemma_iter_opt(mp_present, PFCP_IE_MEASUREMENT_PERIOD, mp_v, e);
    lemma_iter_opt(vt_present, PFCP_IE_VOLUME_THRESHOLD, vt_v, o_mp + e);
    lemma_iter_tlv(PFCP_IE_REPORTING_TRIGGERS, seq![u.reporting_triggers, 0u8], o_vt + (o_mp + e));
    lemma_iter_tlv(PFCP_IE_MEASUREMENT_METHOD, seq![u.measurement_method], t_rt + (o_vt + (o_mp + e)));
    lemma_iter_tlv(PFCP_IE_URR_ID, be32(u.urr_id), t_mm + (t_rt + (o_vt + (o_mp + e))));
    let l_vt: Seq<IeView> = if vt_present { seq![x_vt] } else { Seq::empty() };
    let l_mp: Seq<IeView> = if mp_present { seq![x_mp] } else { Seq::empty() };
    let l = seq![x_id] + (seq![x_mm] + (seq![x_rt] + (l_vt + (l_mp + Seq::<IeView>::empty()))));
    assert(spec_iter_ies(create_urr_value(u)) == l);
    let st = urr_stepper();
    let init = urr_default();
    assert(be32(u.urr_id).subrange(0, 4) =~= be32(u.urr_id));
    lemma_read_be32(u.urr_id, be32(u.urr_id), 0);
    let a1 = Seq::<IeView>::empty().push(x_id);
    lemma_fold_push(Seq::<IeView>::empty(), x_id, init, st);
    let a2 = a1.push(x_mm);
    lemma_fold_push(a1, x_mm, init, st);
    let a3 = a2.push(x_rt);
    lemma_fold_push(a2, x_rt, init, st);
    let v3 = ParsedURR {
        urr_id: u.urr_id,
        measurement_method: u.measurement_method,
        reporting_triggers: u.reporting_triggers,
        ..init
    };
    assert(fold_ies(a3, init, st) == Ok::<ParsedURR, PfcpError>(v3));
    let a4 = a3 + l_vt;
    let v4 = ParsedURR { volume_threshold_total: u.volume_threshold_total, ..v3 };
    if vt_present {
        let t = u.volume_threshold_total.unwrap();
        assert(VOLUME_THRESHOLD_TOVOL & VOLUME_THRESHOLD_TOVOL != 0) by (bit_vector);
        assert(vt_v[0] == VOLUME_THRESHOLD_TOVOL);
        assert(vt_v.subrange(1, 9) =~= be64(t));
        lemma_read_be64(t, vt_v, 1);
        assert(a4 =~= a3.push(x_vt));
        lemma_fold_push(a3, x_vt, init, st);
    } else {
        assert(a4 =~= a3);
    }
    assert(fold_ies(a4, init, st) == Ok::<ParsedURR, PfcpError>(v4));
    let a5 = a4 + l_mp;
    if mp_present {
        let p = u.measurement_period.unwrap();
        assert(mp_v.subrange(0, 4) =~= be32(p));
        lemma_read_be32(p, mp_v, 0);
        assert(a5 =~= a4.push(x_mp));
        lemma_fold_push(a4, x_mp, init, st);
    } else {
        assert(a5 =~= a4);
    }
    assert(fold_ies(a5, init, st) == Ok::<ParsedURR, PfcpError>(expected_urr(u)));
    assert(l =~= a5);
}

/// The IEs of a Session Establishment Request body, in the order written.
pub open spec fn establishment_ies(
    smf_addr: Ipv4Addr,
    cp_seid: u64,
    ue_ip: Ipv4Addr,
    gnb_addr: Ipv4Addr,
    gnb_teid: u32,
) -> Seq<IeView> {
    seq![
        IeView { ie_type: PFCP_IE_NODE_ID, value: node_id_value(smf_addr) },
        IeView { ie_type: PFCP_IE_FSEID, value: fseid_value(cp_seid, smf_addr) },
        IeView { ie_type: PFCP_IE_CREATE_PDR, value: create_pdr_value(uplink_pdr(ue_ip)) },
        IeView { ie_type: PFCP_IE_CREATE_PDR, value: create_pdr_value(downlink_pdr(ue_ip)) },
        IeView {
            ie_type: PFCP_IE_CREATE_FAR,
            value: far_value(uplink_far(), PFCP_IE_FORWARDING_PARAMETERS),
        },
        IeView {
            ie_type: PFCP_IE_CREATE_FAR,
            value: far_value(downlink_far(gnb_addr, gnb_teid), PFCP_IE_FORWARDING_PARAMETERS),
        },
    ]
}

/// Six consecutive TLVs read back as their six IEs.
proof fn lemma_iter_six(x0: IeView, x1: IeView, x2: IeView, x3: IeView, x4: IeView, x5: IeView)
    requires
        x0.value.len() < 0x10000,
        x1.value.len() < 0x10000,
        x2.value.len() < 0x10000,
        x3.value.len() < 0x10000,
        x4.value.len() < 0x10000,
        x5.value.len() < 0x10000,
    ensures
        spec_iter_ies(tlv(x0.ie_type, x0.value) + tlv(x1.ie_type, x1.value) + tlv(
            x2.ie_type,
            x2.value,
        ) + tlv(x3.ie_type, x3.value) + tlv(x4.ie_type, x4.value) + tlv(x5.ie_type, x5.value))
            == seq![x0, x1, x2, x3, x4, x5],
{
    let t0 = tlv(x0.ie_type, x0.value);
    let t1 = tlv(x1.ie_type, x1.value);
    let t2 = tlv(x2.ie_type, x2.value);
    let t3 = tlv(x3.ie_type, x3.value);
    let t4 = tlv(x4.ie_type, x4.value);
    let t5 = tlv(x5.ie_type, x5.value);
    let e = Seq::<u8>::empty();
    assert(t0 + t1 + t2 + t3 + t4 + t5 =~= t0 + (t1 + (t2 + (t3 + (t4 + (t5 + e))))));
    lemma_iter_tlv(x5.ie_type, x5.value, e);
    lemma_iter_tlv(x4.ie_type, x4.value, t5 + e);
    lemma_iter_tlv(x3.ie_type, x3.value, t4 + (t5 + e));
    lemma_iter_tlv(x2.ie_type, x2.value, t3 + (t4 + (t5 + e)));
    lemma_iter_tlv(x1.ie_type, x1.value, t2 + (t3 + (t4 + (t5 + e))));
    lemma_iter_tlv(x0.ie_type, x0.value, t1 + (t2 + (t3 + (t4 + (t5 + e)))));
    assert(spec_iter_ies(e) =~= Seq::<IeView>::empty());
    assert(seq![x0] + (seq![x1] + (seq![x2] + (seq![x3] + (seq![x4] + (seq![x5]
        + Seq::<IeView>::empty()))))) =~= seq![x0, x1, x2, x3, x4, x5]);
}

proof fn lemma_establishment_value_lens(
    smf_addr: Ipv4Addr,
    cp_seid: u64,
    ue_ip: Ipv4Addr,
    gnb_addr: Ipv4Addr,
    gnb_teid: u32,
)
    ensures
        forall|i: int|
            0 <= i < 6 ==> (#[trigger] establishment_ies(
                smf_addr,
                cp_seid,
                ue_ip,
                gnb_addr,
                gnb_teid,
            )[i]).value.len() < 0x10000,
{
    assert(node_id_value(smf_addr).len() == 5);
    assert(fseid_value(cp_seid, smf_addr).len() == 13);
    assert(pdi_value(uplink_pdr(ue_ip)).len() < 100);
    assert(create_pdr_value(uplink_pdr(ue_ip)).len() < 200);
    assert(pdi_value(downlink_pdr(ue_ip)).len() < 100);
    assert(create_pdr_value(downlink_pdr(ue_ip)).len() < 200);
    assert(forwarding_value(uplink_far()).len() < 100);
    assert(far_value(uplink_far(), PFCP_IE_FORWARDING_PARAMETERS).len() < 200);
    assert(forwarding_value(downlink_far(gnb_addr, gnb_teid)).len() < 100);
    assert(far_value(downlink_far(gnb_addr, gnb_teid), PFCP_IE_FORWARDING_PARAMETERS).len() < 200);
}

proof fn lemma_establishment_ies(
    smf_addr: Ipv4Addr,
    cp_seid: u64,
    ue_ip: Ipv4Addr,
    gnb_addr: Ipv4Addr,
    gnb_teid: u32,
)
    ensures
        spec_iter_ies(session_establishment_request_ies(smf_addr, cp_seid, ue_ip, gnb_addr, gnb_teid))
            == establishment_ies(smf_addr, cp_seid, ue_ip, gnb_addr, gnb_teid),
{
    let l = establishment_ies(smf_addr, cp_seid, ue_ip, gnb_addr, gnb_teid);
    lemma_establishment_value_lens(smf_addr, cp_seid, ue_ip, gnb_addr, gnb_teid);
    assert(l[0].value.len() < 0x10000);
    assert(l[1].value.len() < 0x10000);
    assert(l[2].value.len() < 0x10000);
    assert(l[3].value.len() < 0x10000);
    assert(l[4].value.len() < 0x10000);
    assert(l[5].value.len() < 0x10000);
    lemma_iter_six(l[0], l[1], l[2], l[3], l[4], l[5]);
    assert(seq![l[0], l[1], l[2], l[3], l[4], l[5]] =~= l);
}

/// Folding the collectors over six IEs of which the third and fourth are
/// Create PDRs and the fifth and sixth Create FARs.
proof fn lemma_collect_six(l: Seq<IeView>, p1: ParsedPDR, p2: ParsedPDR, f1: ParsedFAR, f2: ParsedFAR)
    requires
        l.len() == 6,
        l[0].ie_type != PFCP_IE_CREATE_PDR && l[0].ie_type != PFCP_IE_CREATE_FAR,
        l[1].ie_type != PFCP_IE_CREATE_PDR && l[1].ie_type != PFCP_IE_CREATE_FAR,
        l[2].ie_type == PFCP_IE_CREATE_PDR,
        l[3].ie_type == PFCP_IE_CREATE_PDR,
        l[4].ie_type == PFCP_IE_CREATE_FAR,
        l[5].ie_type == PFCP_IE_CREATE_FAR,
        spec_parse_create_pdr(l[2].value) == Ok::<ParsedPDR, PfcpError>(p1),
        spec_parse_create_pdr(l[3].value) == Ok::<ParsedPDR, PfcpError>(p2),
        spec_parse_create_far(l[4].value) == Ok::<ParsedFAR, PfcpError>(f1),
        spec_parse_create_far(l[5].value) == Ok::<ParsedFAR, PfcpError>(f2),
    ensures
        fold_ies(l, Seq::empty(), pdr_collector()) == Ok::<Seq<ParsedPDR>, PfcpError>(seq![p1, p2]),
        fold_ies(l, Seq::empty(), far_collector(PFCP_IE_CREATE_FAR)) == Ok::<
            Seq<ParsedFAR>,
            PfcpError,
        >(seq![f1, f2]),
{
    let pc = pdr_collector();
    let fc = far_collector(PFCP_IE_CREATE_FAR);
    let p0 = Seq::<ParsedPDR>::empty();
    let f0 = Seq::<ParsedFAR>::empty();
    let a0 = Seq::<IeView>::empty();
    let a1 = a0.push(l[0]);
    let a2 = a1.push(l[1]);
    let a3 = a2.push(l[2]);
    let a4 = a3.push(l[3]);
    let a5 = a4.push(l[4]);
    let a6 = a5.push(l[5]);
    lemma_fold_push(a0, l[0], p0, pc);
    lemma_fold_push(a1, l[1], p0, pc);
    lemma_fold_push(a2, l[2], p0, pc);
    lemma_fold_push(a3, l[3], p0, pc);
    lemma_fold_push(a4, l[4], p0, pc);
    lemma_fold_push(a5, l[5], p0, pc);
    lemma_fold_push(a0, l[0], f0, fc);
    lemma_fold_push(a1, l[1], f0, fc);
    lemma_fold_push(a2, l[2], f0, fc);
    lemma_fold_push(a3, l[3], f0, fc);
    lemma_fold_push(a4, l[4], f0, fc);
    lemma_fold_push(a5, l[5], f0, fc);
    assert(a6 =~= l);
    assert(p0.push(p1).push(p2) =~= seq![p1, p2]);
    assert(f0.push(f1).push(f2) =~= seq![f1, f2]);
}

/// The Session Establishment Request that `seq_num`, `smf_addr`, `cp_seid`,
/// `ue_ip`, `gnb_addr` and `gnb_teid` build, read back.
pub open spec fn expected_establishment(
    smf_addr: Ipv4Addr,
    cp_seid: u64,
    ue_ip: Ipv4Addr,
    gnb_addr: Ipv4Addr,
    gnb_teid: u32,
) -> SessionEstablishmentReqView {
    SessionEstablishmentReqView {
        node_id: Some(smf_addr),
        cp_seid,
        smf_addr,
        create_pdrs: seq![expected_pdr(uplink_pdr(ue_ip)), expected_pdr(downlink_pdr(ue_ip))],
        create_fars: seq![
            expected_far(uplink_far()),
            expected_far(downlink_far(gnb_addr, gnb_teid)),
        ],
    }
}

/// A Session Establishment Request, whatever its arguments, decodes to its
/// message type, SEID 0 and the low 24 bits of its sequence number; it lacks
/// no Mandatory IE; and its body reads back as the SMF's Node ID and F-SEID,
/// the uplink and downlink PDRs and the two FARs that were written.
#[verifier::rlimit(40)]
pub proof fn law_session_establishment_roundtrip(
    seq_num: u32,
    smf_addr: Ipv4Addr,
    cp_seid: u64,
    ue_ip: Ipv4Addr,
    gnb_addr: Ipv4Addr,
    gnb_teid: u32,
)
    ensures
        ({
            let m = spec_build_session_establishment_request(
                seq_num,
                smf_addr,
                cp_seid,
                ue_ip,
                gnb_addr,
                gnb_teid,
            );
            &&& spec_decode(m) matches Ok((h, pos)) && h.msg_type == PFCP_SESSION_ESTABLISHMENT_REQ
                && h.seid == Some(0u64) && h.seq_num == seq_num % 0x1000000
                && spec_validate(h.msg_type, m.subrange(pos, m.len() as int))
                == Seq::<&'static str>::empty() && spec_decode_session_establishment(
                m.subrange(pos, m.len() as int),
            ) == Ok::<SessionEstablishmentReqView, PfcpError>(
                expected_establishment(smf_addr, cp_seid, ue_ip, gnb_addr, gnb_teid),
            )
        }),
{
    let low = seq_num % 0x1000000;
    let h0 = spec_session_header(PFCP_SESSION_ESTABLISHMENT_REQ, 0, seq_num);
    let h = spec_session_header(PFCP_SESSION_ESTABLISHMENT_REQ, 0, low);
    lemma_encode_seq_low_bits(h0);
    assert(h == PfcpHeader { seq_num: low, ..h0 });
    let body = session_establishment_request_ies(smf_addr, cp_seid, ue_ip, gnb_addr, gnb_teid);
    let m = spec_build_session_establishment_request(seq_num, smf_addr, cp_seid, ue_ip, gnb_addr, gnb_teid);
    assert(m == spec_finish(spec_encode(h) + body));
    lemma_message_roundtrip(h, body);
    lemma_establishment_ies(smf_addr, cp_seid, ue_ip, gnb_addr, gnb_teid);
    let l = establishment_ies(smf_addr, cp_seid, ue_ip, gnb_addr, gnb_teid);
    assert(spec_iter_ies(body) == l);
    lemma_establishment_validates(l);
    lemma_establishment_decodes(smf_addr, cp_seid, ue_ip, gnb_addr, gnb_teid);
}

proof fn lemma_establishment_validates(l: Seq<IeView>)
    requires
        l.len() == 6,
        l[0].ie_type == PFCP_IE_NODE_ID,
        l[1].ie_type == PFCP_IE_FSEID,
        l[2].ie_type == PFCP_IE_CREATE_PDR,
        l[4].ie_type == PFCP_IE_CREATE_FAR,
    ensures
        match crate::dict::dict_ies(PFCP_SESSION_ESTABLISHMENT_REQ) {
            Some(rules) => spec_missing(rules, l) == Seq::<&'static str>::empty(),
            None => false,
        },
{
    assert(has_ie_type(l, PFCP_IE_NODE_ID));
    assert(has_ie_type(l, PFCP_IE_FSEID));
    assert(has_ie_type(l, PFCP_IE_CREATE_PDR));
    assert(has_ie_type(l, PFCP_IE_CREATE_FAR));
    let rules = crate::dict::dict_ies(PFCP_SESSION_ESTABLISHMENT_REQ).unwrap();
    assert forall|j: int|
        0 <= j < rules.len() && rules[j].presence == crate::dict::Presence::Mandatory implies has_ie_type(
            l,
            #[trigger] rules[j].ie_type,
        ) by {
        if j == 0 {
        } else if j == 1 {
        } else if j == 2 {
        } else if j == 3 {
        } else {
        }
    }
    lemma_missing_prefix(rules, l, 7);
    assert(rules.take(7) =~= rules);
}

proof fn lemma_missing_prefix(rules: Seq<crate::dict::IeSpec>, l: Seq<IeView>, i: int)
    requires
        0 <= i <= rules.len(),
        forall|j: int| 0 <= j < rules.len() ==> (rules[j].presence == crate::dict::Presence::Mandatory
            ==> has_ie_type(l, #[trigger] rules[j].ie_type)),
    ensures
        spec_missing(rules.take(i), l) == Seq::<&'static str>::empty(),
    decreases i,
{
    if i > 0 {
        lemma_missing_prefix(rules, l, i - 1);
        assert(rules.take(i).drop_last() =~= rules.take(i - 1));
        assert(rules.take(i).last() == rules[i - 1]);
    }
}

proof fn lemma_establishment_decodes(
    smf_addr: Ipv4Addr,
    cp_seid: u64,
    ue_ip: Ipv4Addr,
    gnb_addr: Ipv4Addr,
    gnb_teid: u32,
)
    ensures
        first_ie(establishment_ies(smf_addr, cp_seid, ue_ip, gnb_addr, gnb_teid), PFCP_IE_FSEID)
            == Some(establishment_ies(smf_addr, cp_seid, ue_ip, gnb_addr, gnb_teid)[1]),
        crate::ie::spec_parse_fseid(fseid_value(cp_seid, smf_addr)) == Ok::<
            (u64, Ipv4Addr),
            PfcpError,
        >((cp_seid, smf_addr)),
        optional_node_id(establishment_ies(smf_addr, cp_seid, ue_ip, gnb_addr, gnb_teid)) == Some(
            smf_addr,
        ),
        fold_ies(
            establishment_ies(smf_addr, cp_seid, ue_ip, gnb_addr, gnb_teid),
            Seq::empty(),
            pdr_collector(),
        ) == Ok::<Seq<ParsedPDR>, PfcpError>(
            expected_establishment(smf_addr, cp_seid, ue_ip, gnb_addr, gnb_teid).create_pdrs,
        ),
        fold_ies(
            establishment_ies(smf_addr, cp_seid, ue_ip, gnb_addr, gnb_teid),
            Seq::empty(),
            far_collector(PFCP_IE_CREATE_FAR),
        ) == Ok::<Seq<ParsedFAR>, PfcpError>(
            expected_establishment(smf_addr, cp_seid, ue_ip, gnb_addr, gnb_teid).create_fars,
        ),
{
    let l = establishment_ies(smf_addr, cp_seid, ue_ip, gnb_addr, gnb_teid);
    reveal_with_fuel(first_ie, 2);
    assert(l.drop_first()[0] == l[1]);
    lemma_new_octets(smf_addr);
    let fv = fseid_value(cp_seid, smf_addr);
    assert(fv.len() == 13);
    assert(fv.subrange(1, 9) =~= be64(cp_seid));
    lemma_read_be64(cp_seid, fv, 1);
    assert(fv[9] == smf_addr.spec_octets()[0]);
    assert(fv[10] == smf_addr.spec_octets()[1]);
    assert(fv[11] == smf_addr.spec_octets()[2]);
    assert(fv[12] == smf_addr.spec_octets()[3]);
    let nv = node_id_value(smf_addr);
    assert(nv.len() == 5);
    assert(nv[0] == 0u8);
    assert(0u8 & 0x0Fu8 == 0u8) by (bit_vector);
    assert(nv[1] == smf_addr.spec_octets()[0]);
    assert(nv[2] == smf_addr.spec_octets()[1]);
    assert(nv[3] == smf_addr.spec_octets()[2]);
    assert(nv[4] == smf_addr.spec_octets()[3]);
    law_create_pdr_roundtrip(uplink_pdr(ue_ip));
    law_create_pdr_roundtrip(downlink_pdr(ue_ip));
    law_create_far_roundtrip(uplink_far());
    law_create_far_roundtrip(downlink_far(gnb_addr, gnb_teid));
    lemma_collect_six(
        l,
        expected_pdr(uplink_pdr(ue_ip)),
        expected_pdr(downlink_pdr(ue_ip)),
        expected_far(uplink_far()),
        expected_far(downlink_far(gnb_addr, gnb_teid)),
    );
}

} // verus!
