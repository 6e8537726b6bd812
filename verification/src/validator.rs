//! Checks that the SMF simulator makes on the UPF's responses, and what it
//! reads out of them.
use vstd::prelude::*;
use crate::dict::{dict_name, lookup, spec_validate, validate};
use crate::header::{spec_decode, PfcpError, PfcpHeader};
use crate::ie::{iter_ies, parse_fseid, parse_fteid, spec_iter_ies, spec_parse_fseid, spec_parse_fteid, IeView};
use crate::messages::{find_ie, first_ie, spec_optional_recovery_ts, HeartbeatReq};
use crate::net::Ipv4Addr;
use crate::types::{
    CAUSE_REQUEST_ACCEPTED, PFCP_IE_CAUSE, PFCP_IE_CREATED_PDR, PFCP_IE_FSEID, PFCP_IE_FTEID,
    PFCP_IE_RECOVERY_TIME_STAMP,
};

verus! {

/// Why a response is not the accepted answer to a request.
#[derive(Debug)]
pub enum ResponseError {
    Pfcp(PfcpError),
    /// The response's type is not that of the request's response.
    TypeMismatch { expected: u8, got: u8 },
    SeqMismatch { expected: u32, got: u32 },
    /// Mandatory IEs are missing, by name.
    MissingMandatory { msg_name: &'static str, missing: Vec<&'static str> },
    /// The Cause is not "Request accepted": its value (0 when empty).
    NotAccepted(u8),
    /// A needed IE is absent.
    MissingIe(u16),
    /// The UPF gave SEID 0.
    ZeroSeid,
    /// The UPF gave TEID 0.
    ZeroTeid,
}

/// The value of a Cause IE, 0 when it is empty.
pub open spec fn cause_value(v: Seq<u8>) -> u8 {
    if v.len() == 0 {
        0
    } else {
        v[0]
    }
}

/// What `validate_response` returns for a response `rsp` to a request of
/// type `req_type` with sequence number `req_seq`: the header must decode,
/// the type must be the request's plus one and the sequence number the
/// request's, every Mandatory IE must be there, and a Cause, where there is
/// one, must say "Request accepted".
pub open spec fn response_checked(req_type: u8, req_seq: u32, rsp: Seq<u8>, r: Result<(), ResponseError>) -> bool {
    match spec_decode(rsp) {
        Err(e) => r == Err::<(), ResponseError>(ResponseError::Pfcp(e)),
        Ok((h, pos)) => {
            let body = rsp.subrange(pos, rsp.len() as int);
            if h.msg_type != req_type + 1 {
                r == Err::<(), ResponseError>(
                    ResponseError::TypeMismatch { expected: (req_type + 1) as u8, got: h.msg_type },
                )
            } else if h.seq_num != req_seq {
                r == Err::<(), ResponseError>(
                    ResponseError::SeqMismatch { expected: req_seq, got: h.seq_num },
                )
            } else if spec_validate(h.msg_type, body).len() > 0 {
                r matches Err(ResponseError::MissingMandatory { msg_name, missing }) && msg_name
                    == dict_name(h.msg_type) && missing@ == spec_validate(h.msg_type, body)
            } else {
                match first_ie(spec_iter_ies(body), PFCP_IE_CAUSE) {
                    Some(c) => if c.value.len() == 0 || c.value[0] != CAUSE_REQUEST_ACCEPTED {
                        r == Err::<(), ResponseError>(ResponseError::NotAccepted(cause_value(c.value)))
                    } else {
                        r is Ok
                    },
                    None => r is Ok,
                }
            }
        },
    }
}

/// Checks a response to a request of type `req_type` (a request type is
/// odd, below 255) with sequence number `req_seq`.
pub fn validate_response(req_type: u8, req_seq: u32, rsp: &[u8]) -> (r: Result<(), ResponseError>)
    requires
        req_type < 255,
    ensures
        response_checked(req_type, req_seq, rsp@, r),
{
    let (hdr, body) = match PfcpHeader::decode(rsp) {
        Ok(x) => x,
        Err(e) => {
            return Err(ResponseError::Pfcp(e));
        },
    };
    let expected_type = req_type + 1;
    if hdr.msg_type != expected_type {
        return Err(ResponseError::TypeMismatch { expected: expected_type, got: hdr.msg_type });
    }
    if hdr.seq_num != req_seq {
        return Err(ResponseError::SeqMismatch { expected: req_seq, got: hdr.seq_num });
    }
    let result = validate(hdr.msg_type, body);
    if !result.is_ok() {
        let msg_name = match lookup(hdr.msg_type) {
            Some(s) => s.name,
            None => "unknown",
        };
        return Err(ResponseError::MissingMandatory { msg_name, missing: result.missing });
    }
    let ies = iter_ies(body);
    let ghost s = spec_iter_ies(body@);
    match find_ie(&ies, PFCP_IE_CAUSE, Ghost(s)) {
        Some(i) => {
            assert(ies@[i as int]@ == s[i as int]);
            let v = ies[i].value;
            if v.len() == 0 {
                return Err(ResponseError::NotAccepted(0));
            }
            if v[0] != CAUSE_REQUEST_ACCEPTED {
                return Err(ResponseError::NotAccepted(v[0]));
            }
        },
        None => {},
    }
    Ok(())
}

/// What `extract_session_info` reads from a Session Establishment
/// Response: the UPF's SEID from the F-SEID, and the TEID and address of
/// the F-TEID inside the first Created PDR; none of the three IEs may be
/// missing or malformed, and neither SEID nor TEID may be zero.
pub open spec fn spec_session_info(rsp: Seq<u8>) -> Result<(u64, u32, Ipv4Addr), ResponseError> {
    match spec_decode(rsp) {
        Err(e) => Err(ResponseError::Pfcp(e)),
        Ok((_h, pos)) => {
            let ies = spec_iter_ies(rsp.subrange(pos, rsp.len() as int));
            match first_ie(ies, PFCP_IE_FSEID) {
                None => Err(ResponseError::MissingIe(PFCP_IE_FSEID)),
                Some(f) => match spec_parse_fseid(f.value) {
                    Err(e) => Err(ResponseError::Pfcp(e)),
                    Ok((seid, _)) => if seid == 0 {
                        Err(ResponseError::ZeroSeid)
                    } else {
                        match first_ie(ies, PFCP_IE_CREATED_PDR) {
                            None => Err(ResponseError::MissingIe(PFCP_IE_CREATED_PDR)),
                            Some(c) => match first_ie(spec_iter_ies(c.value), PFCP_IE_FTEID) {
                                None => Err(ResponseError::MissingIe(PFCP_IE_FTEID)),
                                Some(t) => match spec_parse_fteid(t.value) {
                                    Err(e) => Err(ResponseError::Pfcp(e)),
                                    Ok((teid, addr)) => if teid == 0 {
                                        Err(ResponseError::ZeroTeid)
                                    } else {
                                        Ok((seid, teid, addr))
                                    },
                                },
                            },
                        }
                    },
                },
            }
        },
    }
}

/// Reads the UPF's SEID, TEID and N3 address from a Session Establishment
/// Response.
pub fn extract_session_info(rsp: &[u8]) -> (r: Result<(u64, u32, Ipv4Addr), ResponseError>)
    ensures
        r == spec_session_info(rsp@),
{
    let (_hdr, body) = match PfcpHeader::decode(rsp) {
        Ok(x) => x,
        Err(e) => {
            return Err(ResponseError::Pfcp(e));
        },
    };
    let ies = iter_ies(body);
    let ghost s = spec_iter_ies(body@);
    let fseid = match find_ie(&ies, PFCP_IE_FSEID, Ghost(s)) {
        Some(i) => {
            assert(ies@[i as int]@ == s[i as int]);
            ies[i].value
        },
        None => {
            return Err(ResponseError::MissingIe(PFCP_IE_FSEID));
        },
    };
    let upf_seid = match parse_fseid(fseid) {
        Ok((seid, _)) => seid,
        Err(e) => {
            return Err(ResponseError::Pfcp(e));
        },
    };
    if upf_seid == 0 {
        return Err(ResponseError::ZeroSeid);
    }
    let created = match find_ie(&ies, PFCP_IE_CREATED_PDR, Ghost(s)) {
        Some(i) => {
            assert(ies@[i as int]@ == s[i as int]);
            ies[i].value
        },
        None => {
            return Err(ResponseError::MissingIe(PFCP_IE_CREATED_PDR));
        },
    };
    let inner = iter_ies(created);
    let ghost si = spec_iter_ies(created@);
    let fteid = match find_ie(&inner, PFCP_IE_FTEID, Ghost(si)) {
        Some(i) => {
            assert(inner@[i as int]@ == si[i as int]);
            inner[i].value
        },
        None => {
            return Err(ResponseError::MissingIe(PFCP_IE_FTEID));
        },
    };
    let (upf_teid, upf_n3_addr) = match parse_fteid(fteid) {
        Ok(x) => x,
        Err(e) => {
            return Err(ResponseError::Pfcp(e));
        },
    };
    if upf_teid == 0 {
        return Err(ResponseError::ZeroTeid);
    }
    Ok((upf_seid, upf_teid, upf_n3_addr))
}

/// The Recovery Time Stamp of a message, where its header decodes and it
/// holds a readable one.
pub open spec fn spec_extract_recovery_ts(rsp: Seq<u8>) -> Option<u32> {
    match spec_decode(rsp) {
        Err(_) => None,
        Ok((_h, pos)) => spec_optional_recovery_ts(rsp.subrange(pos, rsp.len() as int)),
    }
}

pub fn extract_recovery_ts(rsp: &[u8]) -> (r: Option<u32>)
    ensures
        r == spec_extract_recovery_ts(rsp@),
{
    match PfcpHeader::decode(rsp) {
        Ok((_hdr, body)) => HeartbeatReq::decode(body).recovery_ts,
        Err(_) => None,
    }
}

/// A response gives no Recovery Time Stamp exactly when its header does not
/// decode, when its body holds no Recovery Time Stamp IE, or when the first
/// such IE is shorter than four bytes; otherwise it gives the first four
/// bytes of that IE, big-endian.
pub proof fn law_recovery_ts_absent(rsp: Seq<u8>)
    ensures
        spec_extract_recovery_ts(rsp) is None <==> (match spec_decode(rsp) {
            Err(_) => true,
            Ok((_h, pos)) => match first_ie(
                spec_iter_ies(rsp.subrange(pos, rsp.len() as int)),
                PFCP_IE_RECOVERY_TIME_STAMP,
            ) {
                None => true,
                Some(t) => t.value.len() < 4,
            },
        }),
        spec_extract_recovery_ts(rsp) matches Some(ts) ==> (spec_decode(rsp) matches Ok((_h, pos))
            && first_ie(spec_iter_ies(rsp.subrange(pos, rsp.len() as int)), PFCP_IE_RECOVERY_TIME_STAMP)
            matches Some(t) && t.value.len() >= 4 && ts == crate::bytes::read_u32(t.value, 0)),
{
}

} // verus!
