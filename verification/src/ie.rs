//! PFCP information elements: the TLV walker and the IE parsers.
use vstd::prelude::*;
use crate::bytes::{be16, get_u16, get_u32, get_u64, lemma_read_be16, read_u16, read_u32, read_u64};
use crate::header::{IeErrorReason, PfcpError};
use crate::net::Ipv4Addr;
use crate::types::{
    GTPU_PORT, PFCP_IE_APPLY_ACTION, PFCP_IE_DESTINATION_INTERFACE, PFCP_IE_FAR_ID,
    PFCP_IE_FORWARDING_PARAMETERS, PFCP_IE_FSEID, PFCP_IE_FTEID, PFCP_IE_MEASUREMENT_METHOD,
    PFCP_IE_MEASUREMENT_PERIOD, PFCP_IE_NODE_ID, PFCP_IE_OUTER_HEADER_CREATION,
    PFCP_IE_OUTER_HEADER_REMOVAL, PFCP_IE_PDI, PFCP_IE_PDR_ID, PFCP_IE_PRECEDENCE,
    PFCP_IE_RECOVERY_TIME_STAMP, PFCP_IE_REPORTING_TRIGGERS, PFCP_IE_SOURCE_INTERFACE,
    PFCP_IE_UE_IP_ADDRESS, PFCP_IE_UPDATE_FORWARDING_PARAMETERS, PFCP_IE_URR_ID,
    PFCP_IE_VOLUME_THRESHOLD, VOLUME_THRESHOLD_TOVOL,
};

verus! {

// ═══════════════════════════════════════════════════════════════
// The TLV walker
// ═══════════════════════════════════════════════════════════════

/// One information element as a value: its type and its value bytes.
pub struct IeView {
    pub ie_type: u16,
    pub value: Seq<u8>,
}

/// One parsed IE: type(u16) + length(u16) + value slice.
#[derive(Debug)]
pub struct RawIE<'a> {
    pub ie_type: u16,
    pub length: u16,
    pub value: &'a [u8],
}

impl<'a> View for RawIE<'a> {
    type V = IeView;

    open spec fn view(&self) -> IeView {
        IeView { ie_type: self.ie_type, value: self.value@ }
    }
}

/// The TLV encoding of one IE. The length field holds the value's length
/// modulo 2^16.
pub open spec fn tlv(ie_type: u16, value: Seq<u8>) -> Seq<u8> {
    be16(ie_type) + be16(value.len() as u16) + value
}

/// The IEs of a buffer, read front to back; a truncated IE and everything
/// after it is dropped, as are fewer than four trailing bytes.
pub open spec fn spec_iter_ies(buf: Seq<u8>) -> Seq<IeView>
    decreases buf.len(),
{
    if buf.len() < 4 {
        Seq::empty()
    } else {
        let ie_type = read_u16(buf, 0);
        let length = read_u16(buf, 2) as int;
        if buf.len() < 4 + length {
            Seq::empty()
        } else {
            seq![IeView { ie_type, value: buf.subrange(4, 4 + length) }] + spec_iter_ies(
                buf.subrange(4 + length, buf.len() as int),
            )
        }
    }
}

/// The raw IEs `ies` are exactly the IE values `s`, with length fields that
/// match their values.
pub open spec fn ies_match<'a>(ies: Seq<RawIE<'a>>, s: Seq<IeView>) -> bool {
    &&& ies.len() == s.len()
    &&& forall|i: int|
        0 <= i < ies.len() ==> (#[trigger] ies[i])@ == s[i] && ies[i].length as int
            == s[i].value.len()
}

/// Walks the TLV IEs of a buffer.
pub fn iter_ies(buf: &[u8]) -> (ies: Vec<RawIE<'_>>)
    ensures
        ies_match(ies@, spec_iter_ies(buf@)),
{
    let mut ies: Vec<RawIE> = Vec::new();
    let mut rest: &[u8] = buf;
    let mut go = true;
    let ghost mut done: Seq<IeView> = Seq::empty();
    while go && rest.len() >= 4
        invariant
            ies_match(ies@, done),
            spec_iter_ies(buf@) == done + spec_iter_ies(rest@),
            !go ==> spec_iter_ies(rest@) == Seq::<IeView>::empty(),
        decreases rest@.len(), (if go { 1int } else { 0int }),
    {
        let ie_type = get_u16(rest, 0);
        let length = get_u16(rest, 2) as usize;
        if rest.len() < 4 + length {
            go = false;
        } else {
            let value = &rest[4..4 + length];
            let ghost v = IeView { ie_type, value: value@ };
            ies.push(RawIE { ie_type, length: length as u16, value });
            proof {
                let s = spec_iter_ies(rest@);
                assert(s == seq![v] + spec_iter_ies(rest@.subrange(4 + length, rest@.len() as int)));
                assert(done + s =~= (done + seq![v]) + spec_iter_ies(
                    rest@.subrange(4 + length, rest@.len() as int),
                ));
                done = done + seq![v];
            }
            rest = &rest[4 + length..rest.len()];
        }
    }
    assert(spec_iter_ies(rest@) == Seq::<IeView>::empty());
    assert(done + Seq::<IeView>::empty() =~= done);
    ies
}

/// Reading one TLV-encoded IE in front of `rest` yields that IE, then the
/// IEs of `rest`.
pub proof fn lemma_iter_tlv(ie_type: u16, value: Seq<u8>, rest: Seq<u8>)
    requires
        value.len() < 0x10000,
    ensures
        spec_iter_ies(tlv(ie_type, value) + rest) == seq![IeView { ie_type, value }]
            + spec_iter_ies(rest),
{
    let buf = tlv(ie_type, value) + rest;
    assert(buf.subrange(0, 2) =~= be16(ie_type));
    lemma_read_be16(ie_type, buf, 0);
    assert(buf.subrange(2, 4) =~= be16(value.len() as u16));
    lemma_read_be16(value.len() as u16, buf, 2);
    assert((value.len() as u16) as int == value.len());
    assert(buf.subrange(4, 4 + value.len() as int) =~= value);
    assert(buf.subrange(4 + value.len() as int, buf.len() as int) =~= rest);
}

/// The bytes of the IEs `items`, one TLV after the other.
pub open spec fn tlvs(items: Seq<IeView>) -> Seq<u8>
    decreases items.len(),
{
    if items.len() == 0 {
        Seq::empty()
    } else {
        tlv(items[0].ie_type, items[0].value) + tlvs(items.drop_first())
    }
}

/// A tail that holds no complete IE: fewer than four bytes, or a length
/// field that asks for more bytes than follow.
pub open spec fn no_complete_ie(tail: Seq<u8>) -> bool {
    tail.len() < 4 || tail.len() < 4 + read_u16(tail, 2)
}

/// Consecutive TLVs, each with a value shorter than 65 536 bytes, followed
/// by a tail that holds no complete IE, read back as those IEs, one per
/// TLV, in order; the tail yields nothing.
pub proof fn law_iter_ies_reads_tlvs(items: Seq<IeView>, tail: Seq<u8>)
    requires
        forall|i: int| 0 <= i < items.len() ==> (#[trigger] items[i]).value.len() < 0x10000,
        no_complete_ie(tail),
    ensures
        spec_iter_ies(tlvs(items) + tail) == items,
    decreases items.len(),
{
    if items.len() == 0 {
        assert(tlvs(items) + tail =~= tail);
    } else {
        let rest = items.drop_first();
        assert forall|i: int| 0 <= i < rest.len() implies (#[trigger] rest[i]).value.len() < 0x10000 by {
            assert(rest[i] == items[i + 1]);
        }
        law_iter_ies_reads_tlvs(rest, tail);
        assert(items[0].value.len() < 0x10000);
        assert(tlvs(items) + tail =~= tlv(items[0].ie_type, items[0].value) + (tlvs(rest) + tail));
        lemma_iter_tlv(items[0].ie_type, items[0].value, tlvs(rest) + tail);
        assert(seq![IeView { ie_type: items[0].ie_type, value: items[0].value }] + rest =~= items);
    }
}

// ═══════════════════════════════════════════════════════════════
// Folding over IEs
// ═══════════════════════════════════════════════════════════════

/// Applies `step` to each IE in order, stopping at the first error.
pub open spec fn fold_ies<A>(
    ies: Seq<IeView>,
    init: A,
    step: spec_fn(A, IeView) -> Result<A, PfcpError>,
) -> Result<A, PfcpError>
    decreases ies.len(),
{
    if ies.len() == 0 {
        Ok(init)
    } else {
        match fold_ies(ies.drop_last(), init, step) {
            Ok(a) => step(a, ies.last()),
            Err(e) => Err(e),
        }
    }
}

pub proof fn lemma_fold_take_step<A>(
    ies: Seq<IeView>,
    init: A,
    step: spec_fn(A, IeView) -> Result<A, PfcpError>,
    i: int,
)
    requires
        0 <= i < ies.len(),
    ensures
        fold_ies(ies.take(i + 1), init, step) == (match fold_ies(ies.take(i), init, step) {
            Ok(a) => step(a, ies[i]),
            Err(e) => Err(e),
        }),
{
    assert(ies.take(i + 1).drop_last() =~= ies.take(i));
}

pub proof fn lemma_fold_take_all<A>(
    ies: Seq<IeView>,
    init: A,
    step: spec_fn(A, IeView) -> Result<A, PfcpError>,
)
    ensures
        fold_ies(ies.take(ies.len() as int), init, step) == fold_ies(ies, init, step),
{
    assert(ies.take(ies.len() as int) =~= ies);
}

/// Once the fold has failed on a prefix, it fails with the same error.
pub proof fn lemma_fold_err<A>(
    ies: Seq<IeView>,
    init: A,
    step: spec_fn(A, IeView) -> Result<A, PfcpError>,
    i: int,
)
    requires
        0 <= i <= ies.len(),
        fold_ies(ies.take(i), init, step) is Err,
    ensures
        fold_ies(ies, init, step) == fold_ies(ies.take(i), init, step),
    decreases ies.len() - i,
{
    if i < ies.len() {
        lemma_fold_take_step(ies, init, step, i);
        lemma_fold_err(ies, init, step, i + 1);
    } else {
        assert(ies.take(i) =~= ies);
    }
}

/// The fold over `a + seq![x]` is one step after the fold over `a`.
pub proof fn lemma_fold_push<A>(
    a: Seq<IeView>,
    x: IeView,
    init: A,
    step: spec_fn(A, IeView) -> Result<A, PfcpError>,
)
    ensures
        fold_ies(a.push(x), init, step) == (match fold_ies(a, init, step) {
            Ok(v) => step(v, x),
            Err(e) => Err(e),
        }),
{
    assert(a.push(x).drop_last() =~= a);
}

// ═══════════════════════════════════════════════════════════════
// Parsed structures
// ═══════════════════════════════════════════════════════════════

/// Outer Header Creation (GTP-U encapsulation).
#[derive(Debug, Clone, Copy, PartialEq, Eq, Structural)]
pub struct OuterHeaderCreation {
    pub teid: u32,
    pub peer_addr: Ipv4Addr,
    pub port: u16,
}

/// A 5-tuple Service Data Flow filter.
#[derive(Debug, Clone, Copy, PartialEq, Eq, Structural)]
pub struct SdfFilter {
    pub proto: u8,
    pub src_ip: Ipv4Addr,
    pub dst_ip: Ipv4Addr,
    pub src_port: u16,
    pub dst_port: u16,
}

/// Packet detection rule read from a Create PDR IE.
#[derive(Debug, Clone, Copy, PartialEq, Eq)]
pub struct ParsedPDR {
    pub pdr_id: u16,
    pub precedence: u32,
    pub source_interface: u8,
    pub local_fteid: Option<(u32, Ipv4Addr)>,
    pub ue_ip: Option<Ipv4Addr>,
    pub far_id: Option<u32>,
    pub outer_header_removal: bool,
}

/// Forwarding action rule read from a Create FAR or Update FAR IE.
#[derive(Debug, Clone, Copy, PartialEq, Eq, Structural)]
pub struct ParsedFAR {
    pub far_id: u32,
    pub apply_action: u8,
    pub dest_interface: Option<u8>,
    pub outer_header_creation: Option<OuterHeaderCreation>,
}

/// Usage reporting rule read from a Create URR IE.
#[derive(Debug, Clone, Copy, PartialEq, Eq, Structural)]
pub struct ParsedURR {
    pub urr_id: u32,
    pub measurement_method: u8,
    pub reporting_triggers: u8,
    pub volume_threshold_total: Option<u64>,
    pub measurement_period: Option<u32>,
}

// ═══════════════════════════════════════════════════════════════
// Leaf IE parsers
// ═══════════════════════════════════════════════════════════════

pub open spec fn ie_err(ie_type: u16, reason: IeErrorReason) -> PfcpError {
    PfcpError::IeParseError { ie_type, reason }
}

pub open spec fn spec_parse_node_id(v: Seq<u8>) -> Result<Ipv4Addr, PfcpError> {
    if v.len() < 5 {
        Err(ie_err(PFCP_IE_NODE_ID, IeErrorReason::TooShort))
    } else if v[0] & 0x0F != 0 {
        Err(ie_err(PFCP_IE_NODE_ID, IeErrorReason::UnsupportedNodeType(v[0] & 0x0F)))
    } else {
        Ok(Ipv4Addr::spec_new(v[1], v[2], v[3], v[4]))
    }
}

pub open spec fn spec_parse_recovery_timestamp(v: Seq<u8>) -> Result<u32, PfcpError> {
    if v.len() < 4 {
        Err(ie_err(PFCP_IE_RECOVERY_TIME_STAMP, IeErrorReason::TooShort))
    } else {
        Ok(read_u32(v, 0))
    }
}

pub open spec fn spec_parse_fseid(v: Seq<u8>) -> Result<(u64, Ipv4Addr), PfcpError> {
    if v.len() < 13 {
        Err(ie_err(PFCP_IE_FSEID, IeErrorReason::TooShort))
    } else {
        Ok((read_u64(v, 1), Ipv4Addr::spec_new(v[9], v[10], v[11], v[12])))
    }
}

pub open spec fn spec_parse_fteid(v: Seq<u8>) -> Result<(u32, Ipv4Addr), PfcpError> {
    if v.len() < 5 {
        Err(ie_err(PFCP_IE_FTEID, IeErrorReason::TooShort))
    } else if v[0] & 0x04 != 0 {
        Ok((0, Ipv4Addr { bits: 0 }))
    } else if v.len() >= 9 {
        Ok((read_u32(v, 1), Ipv4Addr::spec_new(v[5], v[6], v[7], v[8])))
    } else {
        Err(ie_err(PFCP_IE_FTEID, IeErrorReason::NoIpv4Address))
    }
}

pub open spec fn spec_parse_ue_ip_address(v: Seq<u8>) -> Result<Ipv4Addr, PfcpError> {
    if v.len() < 5 {
        Err(ie_err(PFCP_IE_UE_IP_ADDRESS, IeErrorReason::TooShort))
    } else if v[0] & 0x02 != 0 {
        Ok(Ipv4Addr::spec_new(v[1], v[2], v[3], v[4]))
    } else {
        Err(ie_err(PFCP_IE_UE_IP_ADDRESS, IeErrorReason::NoIpv4))
    }
}

/// A UE IP Address value of at least five bytes names the IPv4 address in
/// its next four bytes exactly when its V4 flag is set, whatever its other
/// flags (S/D, V6 and the rest) say; without the V4 flag there is no
/// address to read.
pub proof fn law_ue_ip_v4_flag_decides(v: Seq<u8>)
    requires
        v.len() >= 5,
    ensures
        v[0] & 0x02 != 0 ==> spec_parse_ue_ip_address(v) == Ok::<Ipv4Addr, PfcpError>(
            Ipv4Addr::spec_new(v[1], v[2], v[3], v[4]),
        ),
        v[0] & 0x02 == 0 ==> spec_parse_ue_ip_address(v) is Err,
        forall|b: u8|
            #![trigger v.update(0, b)]
            b & 0x02 == v[0] & 0x02 ==> spec_parse_ue_ip_address(v.update(0, b))
                == spec_parse_ue_ip_address(v),
{
}

pub open spec fn spec_parse_outer_header_creation(v: Seq<u8>) -> Result<
    OuterHeaderCreation,
    PfcpError,
> {
    if v.len() < 10 {
        Err(ie_err(PFCP_IE_OUTER_HEADER_CREATION, IeErrorReason::TooShort))
    } else {
        Ok(
            OuterHeaderCreation {
                teid: read_u32(v, 2),
                peer_addr: Ipv4Addr::spec_new(v[6], v[7], v[8], v[9]),
                port: GTPU_PORT,
            },
        )
    }
}

pub open spec fn spec_parse_apply_action(v: Seq<u8>) -> Result<u8, PfcpError> {
    if v.len() == 0 {
        Err(ie_err(PFCP_IE_APPLY_ACTION, IeErrorReason::Empty))
    } else {
        Ok(v[0])
    }
}

/// Node ID (type 60); IPv4 only.
pub fn parse_node_id(value: &[u8]) -> (r: Result<Ipv4Addr, PfcpError>)
    ensures
        r == spec_parse_node_id(value@),
{
    if value.len() < 5 {
        return Err(PfcpError::IeParseError { ie_type: PFCP_IE_NODE_ID, reason: IeErrorReason::TooShort });
    }
    let node_type = value[0] & 0x0F;
    if node_type != 0 {
        return Err(
            PfcpError::IeParseError {
                ie_type: PFCP_IE_NODE_ID,
                reason: IeErrorReason::UnsupportedNodeType(node_type),
            },
        );
    }
    Ok(Ipv4Addr::new(value[1], value[2], value[3], value[4]))
}

/// Recovery Time Stamp (type 96).
pub fn parse_recovery_timestamp(value: &[u8]) -> (r: Result<u32, PfcpError>)
    ensures
        r == spec_parse_recovery_timestamp(value@),
{
    if value.len() < 4 {
        return Err(
            PfcpError::IeParseError {
                ie_type: PFCP_IE_RECOVERY_TIME_STAMP,
                reason: IeErrorReason::TooShort,
            },
        );
    }
    Ok(get_u32(value, 0))
}

/// F-SEID (type 57) → (SEID, IPv4).
pub fn parse_fseid(value: &[u8]) -> (r: Result<(u64, Ipv4Addr), PfcpError>)
    ensures
        r == spec_parse_fseid(value@),
{
    if value.len() < 13 {
        return Err(PfcpError::IeParseError { ie_type: PFCP_IE_FSEID, reason: IeErrorReason::TooShort });
    }
    let seid = get_u64(value, 1);
    let addr = Ipv4Addr::new(value[9], value[10], value[11], value[12]);
    Ok((seid, addr))
}

/// F-TEID (type 21) → (TEID, IPv4). With the CHOOSE flag set the UPF is to
/// allocate the TEID, and the result is `(0, 0.0.0.0)`.
pub fn parse_fteid(value: &[u8]) -> (r: Result<(u32, Ipv4Addr), PfcpError>)
    ensures
        r == spec_parse_fteid(value@),
{
    if value.len() < 5 {
        return Err(PfcpError::IeParseError { ie_type: PFCP_IE_FTEID, reason: IeErrorReason::TooShort });
    }
    let flags = value[0];
    let ch = (flags & 0x04) != 0;
    let teid = get_u32(value, 1);
    if ch {
        return Ok((0, Ipv4Addr::unspecified()));
    }
    if value.len() >= 9 {
        let addr = Ipv4Addr::new(value[5], value[6], value[7], value[8]);
        Ok((teid, addr))
    } else {
        Err(PfcpError::IeParseError { ie_type: PFCP_IE_FTEID, reason: IeErrorReason::NoIpv4Address })
    }
}

/// UE IP Address (type 93).
pub fn parse_ue_ip_address(value: &[u8]) -> (r: Result<Ipv4Addr, PfcpError>)
    ensures
        r == spec_parse_ue_ip_address(value@),
{
    if value.len() < 5 {
        return Err(
            PfcpError::IeParseError { ie_type: PFCP_IE_UE_IP_ADDRESS, reason: IeErrorReason::TooShort },
        );
    }
    let v4 = (value[0] & 0x02) != 0;
    if v4 {
        Ok(Ipv4Addr::new(value[1], value[2], value[3], value[4]))
    } else {
        Err(PfcpError::IeParseError { ie_type: PFCP_IE_UE_IP_ADDRESS, reason: IeErrorReason::NoIpv4 })
    }
}

/// Outer Header Creation (type 84) → (TEID, gNB IP).
pub fn parse_outer_header_creation(value: &[u8]) -> (r: Result<OuterHeaderCreation, PfcpError>)
    ensures
        r == spec_parse_outer_header_creation(value@),
{
    if value.len() < 10 {
        return Err(
            PfcpError::IeParseError {
                ie_type: PFCP_IE_OUTER_HEADER_CREATION,
                reason: IeErrorReason::TooShort,
            },
        );
    }
    let teid = get_u32(value, 2);
    let addr = Ipv4Addr::new(value[6], value[7], value[8], value[9]);
    Ok(OuterHeaderCreation { teid, peer_addr: addr, port: GTPU_PORT })
}

/// Apply Action (type 44).
pub fn parse_apply_action(value: &[u8]) -> (r: Result<u8, PfcpError>)
    ensures
        r == spec_parse_apply_action(value@),
{
    if value.len() == 0 {
        return Err(PfcpError::IeParseError { ie_type: PFCP_IE_APPLY_ACTION, reason: IeErrorReason::Empty });
    }
    Ok(value[0])
}


// ═══════════════════════════════════════════════════════════════
// Grouped IE parsers
// ═══════════════════════════════════════════════════════════════

/// The PDR that parsing starts from.
pub open spec fn pdr_default() -> ParsedPDR {
    ParsedPDR {
        pdr_id: 0,
        precedence: 0,
        source_interface: 0,
        local_fteid: None,
        ue_ip: None,
        far_id: None,
        outer_header_removal: false,
    }
}

/// What one IE inside a PDI does to the PDR being read.
pub open spec fn pdi_step(p: ParsedPDR, ie: IeView) -> Result<ParsedPDR, PfcpError> {
    if ie.ie_type == PFCP_IE_SOURCE_INTERFACE {
        if ie.value.len() != 0 {
            Ok(ParsedPDR { source_interface: ie.value[0] & 0x0F, ..p })
        } else {
            Ok(p)
        }
    } else if ie.ie_type == PFCP_IE_FTEID {
        match spec_parse_fteid(ie.value) {
            Ok(f) => Ok(ParsedPDR { local_fteid: Some(f), ..p }),
            Err(e) => Err(e),
        }
    } else if ie.ie_type == PFCP_IE_UE_IP_ADDRESS {
        match spec_parse_ue_ip_address(ie.value) {
            Ok(a) => Ok(ParsedPDR { ue_ip: Some(a), ..p }),
            Err(e) => Err(e),
        }
    } else {
        Ok(p)
    }
}

pub open spec fn pdi_stepper() -> spec_fn(ParsedPDR, IeView) -> Result<ParsedPDR, PfcpError> {
    |a: ParsedPDR, ie: IeView| pdi_step(a, ie)
}

/// Reading a PDI into the PDR `p`.
pub open spec fn spec_parse_pdi(value: Seq<u8>, p: ParsedPDR) -> Result<ParsedPDR, PfcpError> {
    fold_ies(spec_iter_ies(value), p, pdi_stepper())
}

/// What one IE inside a Create PDR does to the PDR being read.
pub open spec fn pdr_step(p: ParsedPDR, ie: IeView) -> Result<ParsedPDR, PfcpError> {
    if ie.ie_type == PFCP_IE_PDR_ID {
        if ie.value.len() >= 2 {
            Ok(ParsedPDR { pdr_id: read_u16(ie.value, 0), ..p })
        } else {
            Ok(p)
        }
    } else if ie.ie_type == PFCP_IE_PRECEDENCE {
        if ie.value.len() >= 4 {
            Ok(ParsedPDR { precedence: read_u32(ie.value, 0), ..p })
        } else {
            Ok(p)
        }
    } else if ie.ie_type == PFCP_IE_PDI {
        spec_parse_pdi(ie.value, p)
    } else if ie.ie_type == PFCP_IE_FAR_ID {
        if ie.value.len() >= 4 {
            Ok(ParsedPDR { far_id: Some(read_u32(ie.value, 0)), ..p })
        } else {
            Ok(p)
        }
    } else if ie.ie_type == PFCP_IE_OUTER_HEADER_REMOVAL {
        Ok(ParsedPDR { outer_header_removal: true, ..p })
    } else {
        Ok(p)
    }
}

pub open spec fn pdr_stepper() -> spec_fn(ParsedPDR, IeView) -> Result<ParsedPDR, PfcpError> {
    |a: ParsedPDR, ie: IeView| pdr_step(a, ie)
}

/// Reading a Create PDR (type 1).
pub open spec fn spec_parse_create_pdr(value: Seq<u8>) -> Result<ParsedPDR, PfcpError> {
    fold_ies(spec_iter_ies(value), pdr_default(), pdr_stepper())
}

/// The FAR that parsing starts from.
pub open spec fn far_default() -> ParsedFAR {
    ParsedFAR { far_id: 0, apply_action: 0, dest_interface: None, outer_header_creation: None }
}

/// What one IE inside (Update) Forwarding Parameters does to the FAR being read.
pub open spec fn fwd_step(f: ParsedFAR, ie: IeView) -> Result<ParsedFAR, PfcpError> {
    if ie.ie_type == PFCP_IE_DESTINATION_INTERFACE {
        if ie.value.len() != 0 {
            Ok(ParsedFAR { dest_interface: Some(ie.value[0] & 0x0F), ..f })
        } else {
            Ok(f)
        }
    } else if ie.ie_type == PFCP_IE_OUTER_HEADER_CREATION {
        match spec_parse_outer_header_creation(ie.value) {
            Ok(o) => Ok(ParsedFAR { outer_header_creation: Some(o), ..f }),
            Err(e) => Err(e),
        }
    } else {
        Ok(f)
    }
}

pub open spec fn fwd_stepper() -> spec_fn(ParsedFAR, IeView) -> Result<ParsedFAR, PfcpError> {
    |a: ParsedFAR, ie: IeView| fwd_step(a, ie)
}

/// Reading (Update) Forwarding Parameters into the FAR `f`.
pub open spec fn spec_parse_forwarding_params(value: Seq<u8>, f: ParsedFAR) -> Result<
    ParsedFAR,
    PfcpError,
> {
    fold_ies(spec_iter_ies(value), f, fwd_stepper())
}

/// What one IE inside a Create FAR (with `fwd_type` = Forwarding Parameters)
/// or an Update FAR (with `fwd_type` = Update Forwarding Parameters) does to
/// the FAR being read.
pub open spec fn far_step(fwd_type: u16, f: ParsedFAR, ie: IeView) -> Result<ParsedFAR, PfcpError> {
    if ie.ie_type == PFCP_IE_FAR_ID {
        if ie.value.len() >= 4 {
            Ok(ParsedFAR { far_id: read_u32(ie.value, 0), ..f })
        } else {
            Ok(f)
        }
    } else if ie.ie_type == PFCP_IE_APPLY_ACTION {
        match spec_parse_apply_action(ie.value) {
            Ok(a) => Ok(ParsedFAR { apply_action: a, ..f }),
            Err(e) => Err(e),
        }
    } else if ie.ie_type == fwd_type {
        spec_parse_forwarding_params(ie.value, f)
    } else {
        Ok(f)
    }
}

pub open spec fn far_stepper(fwd_type: u16) -> spec_fn(ParsedFAR, IeView) -> Result<
    ParsedFAR,
    PfcpError,
> {
    |a: ParsedFAR, ie: IeView| far_step(fwd_type, a, ie)
}

/// Reading a Create FAR (type 3).
pub open spec fn spec_parse_create_far(value: Seq<u8>) -> Result<ParsedFAR, PfcpError> {
    fold_ies(spec_iter_ies(value), far_default(), far_stepper(PFCP_IE_FORWARDING_PARAMETERS))
}

/// Reading an Update FAR (type 10).
pub open spec fn spec_parse_update_far(value: Seq<u8>) -> Result<ParsedFAR, PfcpError> {
    fold_ies(
        spec_iter_ies(value),
        far_default(),
        far_stepper(PFCP_IE_UPDATE_FORWARDING_PARAMETERS),
    )
}

/// The URR that parsing starts from.
pub open spec fn urr_default() -> ParsedURR {
    ParsedURR {
        urr_id: 0,
        measurement_method: 0,
        reporting_triggers: 0,
        volume_threshold_total: None,
        measurement_period: None,
    }
}

/// What one IE inside a Create URR does to the URR being read.
pub open spec fn urr_step(u: ParsedURR, ie: IeView) -> Result<ParsedURR, PfcpError> {
    if ie.ie_type == PFCP_IE_URR_ID {
        if ie.value.len() >= 4 {
            Ok(ParsedURR { urr_id: read_u32(ie.value, 0), ..u })
        } else {
            Ok(u)
        }
    } else if ie.ie_type == PFCP_IE_MEASUREMENT_METHOD {
        if ie.value.len() != 0 {
            Ok(ParsedURR { measurement_method: ie.value[0], ..u })
        } else {
            Ok(u)
        }
    } else if ie.ie_type == PFCP_IE_REPORTING_TRIGGERS {
        if ie.value.len() != 0 {
            Ok(ParsedURR { reporting_triggers: ie.value[0], ..u })
        } else {
            Ok(u)
        }
    } else if ie.ie_type == PFCP_IE_VOLUME_THRESHOLD {
        if ie.value.len() >= 9 && ie.value[0] & VOLUME_THRESHOLD_TOVOL != 0 {
            Ok(ParsedURR { volume_threshold_total: Some(read_u64(ie.value, 1)), ..u })
        } else {
            Ok(u)
        }
    } else if ie.ie_type == PFCP_IE_MEASUREMENT_PERIOD {
        if ie.value.len() >= 4 {
            Ok(ParsedURR { measurement_period: Some(read_u32(ie.value, 0)), ..u })
        } else {
            Ok(u)
        }
    } else {
        Ok(u)
    }
}

pub open spec fn urr_stepper() -> spec_fn(ParsedURR, IeView) -> Result<ParsedURR, PfcpError> {
    |a: ParsedURR, ie: IeView| urr_step(a, ie)
}

/// Reading a Create URR (type 6).
pub open spec fn spec_parse_create_urr(value: Seq<u8>) -> Result<ParsedURR, PfcpError> {
    fold_ies(spec_iter_ies(value), urr_default(), urr_stepper())
}

/// Create PDR (type 1).
pub fn parse_create_pdr(value: &[u8]) -> (r: Result<ParsedPDR, PfcpError>)
    ensures
        r == spec_parse_create_pdr(value@),
{
    let ies = iter_ies(value);
    let ghost s = spec_iter_ies(value@);
    let mut pdr = ParsedPDR {
        pdr_id: 0,
        precedence: 0,
        source_interface: 0,
        local_fteid: None,
        ue_ip: None,
        far_id: None,
        outer_header_removal: false,
    };
    let mut i: usize = 0;
    while i < ies.len()
        invariant
            ies_match(ies@, s),
            s == spec_iter_ies(value@),
            0 <= i <= ies@.len(),
            fold_ies(s.take(i as int), pdr_default(), pdr_stepper()) == Ok::<ParsedPDR, PfcpError>(pdr),
        decreases ies@.len() - i,
    {
        let ie = &ies[i];
        proof {
            lemma_fold_take_step(s, pdr_default(), pdr_stepper(), i as int);
            assert(ies@[i as int]@ == s[i as int]);
        }
        if ie.ie_type == PFCP_IE_PDR_ID {
            if ie.value.len() >= 2 {
                pdr.pdr_id = get_u16(ie.value, 0);
            }
        } else if ie.ie_type == PFCP_IE_PRECEDENCE {
            if ie.value.len() >= 4 {
                pdr.precedence = get_u32(ie.value, 0);
            }
        } else if ie.ie_type == PFCP_IE_PDI {
            match parse_pdi(ie.value, &mut pdr) {
                Ok(()) => {},
                Err(e) => {
                    proof {
                        lemma_fold_err(s, pdr_default(), pdr_stepper(), i + 1);
                    }
                    return Err(e);
                },
            }
        } else if ie.ie_type == PFCP_IE_FAR_ID {
            if ie.value.len() >= 4 {
                pdr.far_id = Some(get_u32(ie.value, 0));
            }
        } else if ie.ie_type == PFCP_IE_OUTER_HEADER_REMOVAL {
            pdr.outer_header_removal = true;
        }
        i += 1;
    }
    proof {
        lemma_fold_take_all(s, pdr_default(), pdr_stepper());
    }
    Ok(pdr)
}

/// PDI (type 2), inside a Create PDR.
fn parse_pdi(value: &[u8], pdr: &mut ParsedPDR) -> (r: Result<(), PfcpError>)
    ensures
        match spec_parse_pdi(value@, *old(pdr)) {
            Ok(p) => r is Ok && *final(pdr) == p,
            Err(e) => r == Err::<(), PfcpError>(e),
        },
{
    let ies = iter_ies(value);
    let ghost s = spec_iter_ies(value@);
    let ghost init = *pdr;
    let mut i: usize = 0;
    while i < ies.len()
        invariant
            ies_match(ies@, s),
            s == spec_iter_ies(value@),
            init == *old(pdr),
            0 <= i <= ies@.len(),
            fold_ies(s.take(i as int), init, pdi_stepper()) == Ok::<ParsedPDR, PfcpError>(*pdr),
        decreases ies@.len() - i,
    {
        let ie = &ies[i];
        proof {
            lemma_fold_take_step(s, init, pdi_stepper(), i as int);
            assert(ies@[i as int]@ == s[i as int]);
        }
        if ie.ie_type == PFCP_IE_SOURCE_INTERFACE {
            if ie.value.len() != 0 {
                pdr.source_interface = ie.value[0] & 0x0F;
            }
        } else if ie.ie_type == PFCP_IE_FTEID {
            match parse_fteid(ie.value) {
                Ok(f) => {
                    pdr.local_fteid = Some(f);
                },
                Err(e) => {
                    proof {
                        lemma_fold_err(s, init, pdi_stepper(), i + 1);
                    }
                    return Err(e);
                },
            }
        } else if ie.ie_type == PFCP_IE_UE_IP_ADDRESS {
            match parse_ue_ip_address(ie.value) {
                Ok(a) => {
                    pdr.ue_ip = Some(a);
                },
                Err(e) => {
                    proof {
                        lemma_fold_err(s, init, pdi_stepper(), i + 1);
                    }
                    return Err(e);
                },
            }
        }
        i += 1;
    }
    proof {
        lemma_fold_take_all(s, init, pdi_stepper());
    }
    Ok(())
}

/// Create FAR (type 3).
pub fn parse_create_far(value: &[u8]) -> (r: Result<ParsedFAR, PfcpError>)
    ensures
        r == spec_parse_create_far(value@),
{
    parse_far_with(value, PFCP_IE_FORWARDING_PARAMETERS)
}

/// Update FAR (type 10). Its Update Forwarding Parameters have the
/// structure of Forwarding Parameters.
pub fn parse_update_far(value: &[u8]) -> (r: Result<ParsedFAR, PfcpError>)
    ensures
        r == spec_parse_update_far(value@),
{
    parse_far_with(value, PFCP_IE_UPDATE_FORWARDING_PARAMETERS)
}

fn parse_far_with(value: &[u8], fwd_type: u16) -> (r: Result<ParsedFAR, PfcpError>)
    ensures
        r == fold_ies(spec_iter_ies(value@), far_default(), far_stepper(fwd_type)),
{
    let ies = iter_ies(value);
    let ghost s = spec_iter_ies(value@);
    let mut far = ParsedFAR {
        far_id: 0,
        apply_action: 0,
        dest_interface: None,
        outer_header_creation: None,
    };
    let mut i: usize = 0;
    while i < ies.len()
        invariant
            ies_match(ies@, s),
            s == spec_iter_ies(value@),
            0 <= i <= ies@.len(),
            fold_ies(s.take(i as int), far_default(), far_stepper(fwd_type)) == Ok::<
                ParsedFAR,
                PfcpError,
            >(far),
        decreases ies@.len() - i,
    {
        let ie = &ies[i];
        proof {
            lemma_fold_take_step(s, far_default(), far_stepper(fwd_type), i as int);
            assert(ies@[i as int]@ == s[i as int]);
        }
        if ie.ie_type == PFCP_IE_FAR_ID {
            if ie.value.len() >= 4 {
                far.far_id = get_u32(ie.value, 0);
            }
        } else if ie.ie_type == PFCP_IE_APPLY_ACTION {
            match parse_apply_action(ie.value) {
                Ok(a) => {
                    far.apply_action = a;
                },
                Err(e) => {
                    proof {
                        lemma_fold_err(s, far_default(), far_stepper(fwd_type), i + 1);
                    }
                    return Err(e);
                },
            }
        } else if ie.ie_type == fwd_type {
            match parse_forwarding_params(ie.value, &mut far) {
                Ok(()) => {},
                Err(e) => {
                    proof {
                        lemma_fold_err(s, far_default(), far_stepper(fwd_type), i + 1);
                    }
                    return Err(e);
                },
            }
        }
        i += 1;
    }
    proof {
        lemma_fold_take_all(s, far_default(), far_stepper(fwd_type));
    }
    Ok(far)
}

/// (Update) Forwarding Parameters (type 4 / 11), inside a FAR.
fn parse_forwarding_params(value: &[u8], far: &mut ParsedFAR) -> (r: Result<(), PfcpError>)
    ensures
        match spec_parse_forwarding_params(value@, *old(far)) {
            Ok(f) => r is Ok && *final(far) == f,
            Err(e) => r == Err::<(), PfcpError>(e),
        },
{
    let ies = iter_ies(value);
    let ghost s = spec_iter_ies(value@);
    let ghost init = *far;
    let mut i: usize = 0;
    while i < ies.len()
        invariant
            ies_match(ies@, s),
            s == spec_iter_ies(value@),
            init == *old(far),
            0 <= i <= ies@.len(),
            fold_ies(s.take(i as int), init, fwd_stepper()) == Ok::<ParsedFAR, PfcpError>(*far),
        decreases ies@.len() - i,
    {
        let ie = &ies[i];
        proof {
            lemma_fold_take_step(s, init, fwd_stepper(), i as int);
            assert(ies@[i as int]@ == s[i as int]);
        }
        if ie.ie_type == PFCP_IE_DESTINATION_INTERFACE {
            if ie.value.len() != 0 {
                far.dest_interface = Some(ie.value[0] & 0x0F);
            }
        } else if ie.ie_type == PFCP_IE_OUTER_HEADER_CREATION {
            match parse_outer_header_creation(ie.value) {
                Ok(o) => {
                    far.outer_header_creation = Some(o);
                },
                Err(e) => {
                    proof {
                        lemma_fold_err(s, init, fwd_stepper(), i + 1);
                    }
                    return Err(e);
                },
            }
        }
        i += 1;
    }
    proof {
        lemma_fold_take_all(s, init, fwd_stepper());
    }
    Ok(())
}

/// Create URR (type 6).
pub fn parse_create_urr(value: &[u8]) -> (r: Result<ParsedURR, PfcpError>)
    ensures
        r == spec_parse_create_urr(value@),
        r is Ok,
{
    let ies = iter_ies(value);
    let ghost s = spec_iter_ies(value@);
    let mut urr = ParsedURR {
        urr_id: 0,
        measurement_method: 0,
        reporting_triggers: 0,
        volume_threshold_total: None,
        measurement_period: None,
    };
    let mut i: usize = 0;
    while i < ies.len()
        invariant
            ies_match(ies@, s),
            s == spec_iter_ies(value@),
            0 <= i <= ies@.len(),
            fold_ies(s.take(i as int), urr_default(), urr_stepper()) == Ok::<ParsedURR, PfcpError>(urr),
        decreases ies@.len() - i,
    {
        let ie = &ies[i];
        proof {
            lemma_fold_take_step(s, urr_default(), urr_stepper(), i as int);
            assert(ies@[i as int]@ == s[i as int]);
        }
        if ie.ie_type == PFCP_IE_URR_ID {
            if ie.value.len() >= 4 {
                urr.urr_id = get_u32(ie.value, 0);
            }
        } else if ie.ie_type == PFCP_IE_MEASUREMENT_METHOD {
            if ie.value.len() != 0 {
                urr.measurement_method = ie.value[0];
            }
        } else if ie.ie_type == PFCP_IE_REPORTING_TRIGGERS {
            if ie.value.len() != 0 {
                urr.reporting_triggers = ie.value[0];
            }
        } else if ie.ie_type == PFCP_IE_VOLUME_THRESHOLD {
            if ie.value.len() >= 9 && ie.value[0] & VOLUME_THRESHOLD_TOVOL != 0 {
                urr.volume_threshold_total = Some(get_u64(ie.value, 1));
            }
        } else if ie.ie_type == PFCP_IE_MEASUREMENT_PERIOD {
            if ie.value.len() >= 4 {
                urr.measurement_period = Some(get_u32(ie.value, 0));
            }
        }
        i += 1;
    }
    proof {
        lemma_fold_take_all(s, urr_default(), urr_stepper());
    }
    Ok(urr)
}

} // verus!
