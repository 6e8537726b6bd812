//! Decoding of the PFCP request messages that the UPF handles.
use vstd::prelude::*;
use crate::header::PfcpError;
use crate::ie::{
    fold_ies, ies_match, iter_ies, lemma_fold_err, lemma_fold_take_all, lemma_fold_take_step,
    parse_create_far, parse_create_pdr, parse_fseid, parse_node_id, parse_recovery_timestamp,
    parse_update_far, spec_iter_ies, spec_parse_create_far, spec_parse_create_pdr,
    spec_parse_fseid, spec_parse_node_id, spec_parse_recovery_timestamp, spec_parse_update_far,
    IeView, ParsedFAR, ParsedPDR, RawIE,
};
use crate::net::Ipv4Addr;
use crate::types::{
    PFCP_IE_CREATE_FAR, PFCP_IE_CREATE_PDR, PFCP_IE_FSEID, PFCP_IE_NODE_ID,
    PFCP_IE_RECOVERY_TIME_STAMP, PFCP_IE_UPDATE_FAR,
};

verus! {

/// The first IE of type `t`.
pub open spec fn first_ie(ies: Seq<IeView>, t: u16) -> Option<IeView>
    decreases ies.len(),
{
    if ies.len() == 0 {
        None
    } else if ies[0].ie_type == t {
        Some(ies[0])
    } else {
        first_ie(ies.drop_first(), t)
    }
}

/// The index of the first IE of type `t` in `ies`.
pub(crate) fn find_ie(ies: &Vec<RawIE>, t: u16, Ghost(s): Ghost<Seq<IeView>>) -> (r: Option<usize>)
    requires
        ies_match(ies@, s),
    ensures
        match first_ie(s, t) {
            Some(x) => r matches Some(i) && i < ies@.len() && s[i as int] == x,
            None => r is None,
        },
{
    let mut i: usize = 0;
    assert(s.subrange(0, s.len() as int) =~= s);
    while i < ies.len()
        invariant
            ies_match(ies@, s),
            0 <= i <= ies@.len(),
            first_ie(s, t) == first_ie(s.subrange(i as int, s.len() as int), t),
        decreases ies@.len() - i,
    {
        assert(ies@[i as int]@ == s[i as int]);
        if ies[i].ie_type == t {
            return Some(i);
        }
        assert(s.subrange(i as int, s.len() as int).drop_first() =~= s.subrange(
            i + 1,
            s.len() as int,
        ));
        i += 1;
    }
    None
}

/// Association Setup Request
pub struct AssociationSetupReq {
    pub node_id: Ipv4Addr,
    pub recovery_ts: u32,
}

pub open spec fn spec_decode_association_setup(body: Seq<u8>) -> Result<
    AssociationSetupReq,
    PfcpError,
> {
    let ies = spec_iter_ies(body);
    match first_ie(ies, PFCP_IE_NODE_ID) {
        None => Err(PfcpError::MissingIe(PFCP_IE_NODE_ID)),
        Some(n) => match spec_parse_node_id(n.value) {
            Err(e) => Err(e),
            Ok(node_id) => match first_ie(ies, PFCP_IE_RECOVERY_TIME_STAMP) {
                None => Err(PfcpError::MissingIe(PFCP_IE_RECOVERY_TIME_STAMP)),
                Some(t) => match spec_parse_recovery_timestamp(t.value) {
                    Err(e) => Err(e),
                    Ok(recovery_ts) => Ok(AssociationSetupReq { node_id, recovery_ts }),
                },
            },
        },
    }
}

impl AssociationSetupReq {
    pub fn decode(body: &[u8]) -> (r: Result<Self, PfcpError>)
        ensures
            r == spec_decode_association_setup(body@),
    {
        let ies = iter_ies(body);
        let ghost s = spec_iter_ies(body@);
        let node_id = match find_ie(&ies, PFCP_IE_NODE_ID, Ghost(s)) {
            None => {
                return Err(PfcpError::MissingIe(PFCP_IE_NODE_ID));
            },
            Some(i) => {
                assert(ies@[i as int]@ == s[i as int]);
                parse_node_id(ies[i].value)?
            },
        };
        let recovery_ts = match find_ie(&ies, PFCP_IE_RECOVERY_TIME_STAMP, Ghost(s)) {
            None => {
                return Err(PfcpError::MissingIe(PFCP_IE_RECOVERY_TIME_STAMP));
            },
            Some(i) => {
                assert(ies@[i as int]@ == s[i as int]);
                parse_recovery_timestamp(ies[i].value)?
            },
        };
        Ok(Self { node_id, recovery_ts })
    }
}

/// What one IE does to the list of Create PDRs being collected.
pub open spec fn pdr_collect_step(acc: Seq<ParsedPDR>, ie: IeView) -> Result<Seq<ParsedPDR>, PfcpError> {
    if ie.ie_type == PFCP_IE_CREATE_PDR {
        match spec_parse_create_pdr(ie.value) {
            Ok(p) => Ok(acc.push(p)),
            Err(e) => Err(e),
        }
    } else {
        Ok(acc)
    }
}

pub open spec fn pdr_collector() -> spec_fn(Seq<ParsedPDR>, IeView) -> Result<Seq<ParsedPDR>, PfcpError> {
    |a: Seq<ParsedPDR>, ie: IeView| pdr_collect_step(a, ie)
}

/// What one IE of type `far_type` (Create FAR or Update FAR) does to the list
/// of FARs being collected.
pub open spec fn far_collect_step(far_type: u16, acc: Seq<ParsedFAR>, ie: IeView) -> Result<
    Seq<ParsedFAR>,
    PfcpError,
> {
    if ie.ie_type == far_type {
        match (if far_type == PFCP_IE_CREATE_FAR {
            spec_parse_create_far(ie.value)
        } else {
            spec_parse_update_far(ie.value)
        }) {
            Ok(f) => Ok(acc.push(f)),
            Err(e) => Err(e),
        }
    } else {
        Ok(acc)
    }
}

pub open spec fn far_collector(far_type: u16) -> spec_fn(Seq<ParsedFAR>, IeView) -> Result<
    Seq<ParsedFAR>,
    PfcpError,
> {
    |a: Seq<ParsedFAR>, ie: IeView| far_collect_step(far_type, a, ie)
}

/// All Create PDR IEs, parsed in order; the first that fails is the error.
fn collect_pdrs(ies: &Vec<RawIE>, Ghost(s): Ghost<Seq<IeView>>) -> (r: Result<Vec<ParsedPDR>, PfcpError>)
    requires
        ies_match(ies@, s),
    ensures
        match fold_ies(s, Seq::empty(), pdr_collector()) {
            Ok(v) => r matches Ok(w) && w@ == v,
            Err(e) => r == Err::<Vec<ParsedPDR>, PfcpError>(e),
        },
{
    let mut out: Vec<ParsedPDR> = Vec::new();
    let mut i: usize = 0;
    while i < ies.len()
        invariant
            ies_match(ies@, s),
            0 <= i <= ies@.len(),
            fold_ies(s.take(i as int), Seq::empty(), pdr_collector()) == Ok::<
                Seq<ParsedPDR>,
                PfcpError,
            >(out@),
        decreases ies@.len() - i,
    {
        proof {
            lemma_fold_take_step(s, Seq::empty(), pdr_collector(), i as int);
            assert(ies@[i as int]@ == s[i as int]);
        }
        if ies[i].ie_type == PFCP_IE_CREATE_PDR {
            match parse_create_pdr(ies[i].value) {
                Ok(p) => out.push(p),
                Err(e) => {
                    proof {
                        lemma_fold_err(s, Seq::empty(), pdr_collector(), i + 1);
                    }
                    return Err(e);
                },
            }
        }
        i += 1;
    }
    proof {
        lemma_fold_take_all(s, Seq::empty(), pdr_collector());
    }
    Ok(out)
}

/// All FAR IEs of type `far_type`, parsed in order; the first that fails is
/// the error.
fn collect_fars(ies: &Vec<RawIE>, far_type: u16, Ghost(s): Ghost<Seq<IeView>>) -> (r: Result<
    Vec<ParsedFAR>,
    PfcpError,
>)
    requires
        ies_match(ies@, s),
    ensures
        match fold_ies(s, Seq::empty(), far_collector(far_type)) {
            Ok(v) => r matches Ok(w) && w@ == v,
            Err(e) => r == Err::<Vec<ParsedFAR>, PfcpError>(e),
        },
{
    let mut out: Vec<ParsedFAR> = Vec::new();
    let mut i: usize = 0;
    while i < ies.len()
        invariant
            ies_match(ies@, s),
            0 <= i <= ies@.len(),
            fold_ies(s.take(i as int), Seq::empty(), far_collector(far_type)) == Ok::<
                Seq<ParsedFAR>,
                PfcpError,
            >(out@),
        decreases ies@.len() - i,
    {
        proof {
            lemma_fold_take_step(s, Seq::empty(), far_collector(far_type), i as int);
            assert(ies@[i as int]@ == s[i as int]);
        }
        if ies[i].ie_type == far_type {
            let parsed = if far_type == PFCP_IE_CREATE_FAR {
                parse_create_far(ies[i].value)
            } else {
                parse_update_far(ies[i].value)
            };
            match parsed {
                Ok(f) => out.push(f),
                Err(e) => {
                    proof {
                        lemma_fold_err(s, Seq::empty(), far_collector(far_type), i + 1);
                    }
                    return Err(e);
                },
            }
        }
        i += 1;
    }
    proof {
        lemma_fold_take_all(s, Seq::empty(), far_collector(far_type));
    }
    Ok(out)
}

/// Session Establishment Request
pub struct SessionEstablishmentReq {
    pub node_id: Option<Ipv4Addr>,
    pub cp_seid: u64,
    pub smf_addr: Ipv4Addr,
    pub create_pdrs: Vec<ParsedPDR>,
    pub create_fars: Vec<ParsedFAR>,
}

pub struct SessionEstablishmentReqView {
    pub node_id: Option<Ipv4Addr>,
    pub cp_seid: u64,
    pub smf_addr: Ipv4Addr,
    pub create_pdrs: Seq<ParsedPDR>,
    pub create_fars: Seq<ParsedFAR>,
}

impl View for SessionEstablishmentReq {
    type V = SessionEstablishmentReqView;

    open spec fn view(&self) -> SessionEstablishmentReqView {
        SessionEstablishmentReqView {
            node_id: self.node_id,
            cp_seid: self.cp_seid,
            smf_addr: self.smf_addr,
            create_pdrs: self.create_pdrs@,
            create_fars: self.create_fars@,
        }
    }
}

/// The Node ID of a message, where one is present and readable.
pub open spec fn optional_node_id(ies: Seq<IeView>) -> Option<Ipv4Addr> {
    match first_ie(ies, PFCP_IE_NODE_ID) {
        Some(n) => match spec_parse_node_id(n.value) {
            Ok(a) => Some(a),
            Err(_) => None,
        },
        None => None,
    }
}

pub open spec fn spec_decode_session_establishment(body: Seq<u8>) -> Result<
    SessionEstablishmentReqView,
    PfcpError,
> {
    let ies = spec_iter_ies(body);
    match first_ie(ies, PFCP_IE_FSEID) {
        None => Err(PfcpError::MissingIe(PFCP_IE_FSEID)),
        Some(f) => match spec_parse_fseid(f.value) {
            Err(e) => Err(e),
            Ok((cp_seid, smf_addr)) => match fold_ies(ies, Seq::empty(), pdr_collector()) {
                Err(e) => Err(e),
                Ok(create_pdrs) => match fold_ies(
                    ies,
                    Seq::empty(),
                    far_collector(PFCP_IE_CREATE_FAR),
                ) {
                    Err(e) => Err(e),
                    Ok(create_fars) => Ok(
                        SessionEstablishmentReqView {
                            node_id: optional_node_id(ies),
                            cp_seid,
                            smf_addr,
                            create_pdrs,
                            create_fars,
                        },
                    ),
                },
            },
        },
    }
}

impl SessionEstablishmentReq {
    pub fn decode(body: &[u8]) -> (r: Result<Self, PfcpError>)
        ensures
            match spec_decode_session_establishment(body@) {
                Ok(v) => r matches Ok(req) && req@ == v,
                Err(e) => r matches Err(e2) && e2 == e,
            },
    {
        let ies = iter_ies(body);
        let ghost s = spec_iter_ies(body@);
        let (cp_seid, smf_addr) = match find_ie(&ies, PFCP_IE_FSEID, Ghost(s)) {
            None => {
                return Err(PfcpError::MissingIe(PFCP_IE_FSEID));
            },
            Some(i) => {
                assert(ies@[i as int]@ == s[i as int]);
                parse_fseid(ies[i].value)?
            },
        };
        let node_id = match find_ie(&ies, PFCP_IE_NODE_ID, Ghost(s)) {
            Some(i) => {
                assert(ies@[i as int]@ == s[i as int]);
                match parse_node_id(ies[i].value) {
                    Ok(a) => Some(a),
                    Err(_) => None,
                }
            },
            None => None,
        };
        let create_pdrs = collect_pdrs(&ies, Ghost(s))?;
        let create_fars = collect_fars(&ies, PFCP_IE_CREATE_FAR, Ghost(s))?;
        Ok(Self { node_id, cp_seid, smf_addr, create_pdrs, create_fars })
    }
}

/// Session Modification Request: the SEID of the header names the session;
/// the Update FARs carry the new forwarding parameters.
pub struct SessionModificationReq {
    pub update_fars: Vec<ParsedFAR>,
}

pub open spec fn spec_decode_session_modification(body: Seq<u8>) -> Result<Seq<ParsedFAR>, PfcpError> {
    fold_ies(spec_iter_ies(body), Seq::empty(), far_collector(PFCP_IE_UPDATE_FAR))
}

impl SessionModificationReq {
    pub fn decode(body: &[u8]) -> (r: Result<Self, PfcpError>)
        ensures
            match spec_decode_session_modification(body@) {
                Ok(v) => r matches Ok(req) && req.update_fars@ == v,
                Err(e) => r matches Err(e2) && e2 == e,
            },
    {
        let ies = iter_ies(body);
        let ghost s = spec_iter_ies(body@);
        let update_fars = collect_fars(&ies, PFCP_IE_UPDATE_FAR, Ghost(s))?;
        Ok(Self { update_fars })
    }
}

/// Heartbeat Request
pub struct HeartbeatReq {
    pub recovery_ts: Option<u32>,
}

/// The Recovery Time Stamp of a message, where one is present and readable.
pub open spec fn spec_optional_recovery_ts(body: Seq<u8>) -> Option<u32> {
    match first_ie(spec_iter_ies(body), PFCP_IE_RECOVERY_TIME_STAMP) {
        Some(t) => match spec_parse_recovery_timestamp(t.value) {
            Ok(ts) => Some(ts),
            Err(_) => None,
        },
        None => None,
    }
}

impl HeartbeatReq {
    pub fn decode(body: &[u8]) -> (r: Self)
        ensures
            r.recovery_ts == spec_optional_recovery_ts(body@),
    {
        let ies = iter_ies(body);
        let ghost s = spec_iter_ies(body@);
        let recovery_ts = match find_ie(&ies, PFCP_IE_RECOVERY_TIME_STAMP, Ghost(s)) {
            Some(i) => {
                assert(ies@[i as int]@ == s[i as int]);
                match parse_recovery_timestamp(ies[i].value) {
                    Ok(ts) => Some(ts),
                    Err(_) => None,
                }
            },
            None => None,
        };
        Self { recovery_ts }
    }
}

} // verus!
