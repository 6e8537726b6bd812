//! The PFCP message header (3GPP TS 29.244 §7.2.2).
use vstd::prelude::*;
use crate::bytes::{
    be16, be64, get_u16, get_u64, lemma_read_be16, lemma_read_be64, push_u16_be, push_u64_be,
    read_u16, read_u64,
};

verus! {

pub const PFCP_S_FLAG: u8 = 0b00000001;
pub const PFCP_MP_FLAG: u8 = 0b00000010;
pub const PFCP_FO_FLAG: u8 = 0b00000100;
pub const PFCP_VERSION: u8 = 1;

#[derive(Clone, Debug)]
pub struct PfcpHeader {
    /// Version (3 bits)
    pub version: u8,
    pub s_flag: bool,
    pub mp_flag: bool,
    pub fo_flag: bool,
    /// Message type (8 bits)
    pub msg_type: u8,
    /// Message length (16 bits)
    pub length: u16,
    /// SEID (64 bits), present when the S flag is set
    pub seid: Option<u64>,
    /// Sequence number (24 bits)
    pub seq_num: u32,
    /// Message priority (4 bits)
    pub priority: u8,
}

/// Why an information element could not be read.
#[derive(Clone, Copy, Debug, PartialEq, Eq, Structural)]
pub enum IeErrorReason {
    TooShort,
    Empty,
    UnsupportedNodeType(u8),
    NoIpv4Address,
    NoIpv4,
}

#[derive(Clone, Copy, Debug, PartialEq, Eq, Structural)]
pub enum PfcpError {
    BufferTooShort { need: usize, have: usize },
    UnsupportedVersion(u8),
    IeParseError { ie_type: u16, reason: IeErrorReason },
    SessionNotFound(u64),
    /// A mandatory information element is absent from the message.
    MissingIe(u16),
}

/// The flags octet: version in the top three bits, then FO, MP and S.
pub open spec fn spec_flags(h: PfcpHeader) -> u8 {
    ((h.version & 0x07) << 5) | (if h.fo_flag { PFCP_FO_FLAG } else { 0 }) | (if h.mp_flag {
        PFCP_MP_FLAG
    } else {
        0
    }) | (if h.s_flag { PFCP_S_FLAG } else { 0 })
}

/// The SEID written on the wire: the header's SEID, or zero when it has none.
pub open spec fn spec_seid_or_zero(h: PfcpHeader) -> u64 {
    match h.seid {
        Some(s) => s,
        None => 0,
    }
}

/// The wire encoding of a header.
pub open spec fn spec_encode(h: PfcpHeader) -> Seq<u8> {
    seq![spec_flags(h), h.msg_type] + be16(h.length) + (if h.s_flag {
        be64(spec_seid_or_zero(h))
    } else {
        Seq::empty()
    }) + seq![
        (h.seq_num >> 16) as u8,
        (h.seq_num >> 8) as u8,
        h.seq_num as u8,
        if h.mp_flag { h.priority << 4 } else { 0 },
    ]
}

/// The length of a header on the wire.
pub open spec fn spec_header_len(h: PfcpHeader) -> nat {
    if h.s_flag { 16 } else { 8 }
}

/// Decoding of a header: the header and the offset at which the body starts.
pub open spec fn spec_decode(buf: Seq<u8>) -> Result<(PfcpHeader, int), PfcpError> {
    if buf.len() < 8 {
        Err(PfcpError::BufferTooShort { need: 8, have: buf.len() as usize })
    } else if buf[0] >> 5 != PFCP_VERSION {
        Err(PfcpError::UnsupportedVersion(buf[0] >> 5))
    } else {
        let flags = buf[0];
        let s_flag = (flags & PFCP_S_FLAG) != 0;
        let mp_flag = (flags & PFCP_MP_FLAG) != 0;
        let fo_flag = (flags & PFCP_FO_FLAG) != 0;
        if s_flag && buf.len() < 16 {
            Err(PfcpError::BufferTooShort { need: 16, have: buf.len() as usize })
        } else {
            let pos: int = if s_flag { 12 } else { 4 };
            let seid = if s_flag { Some(read_u64(buf, 4)) } else { None };
            let seq_num = ((buf[pos] as u32) << 16) | ((buf[pos + 1] as u32) << 8) | (buf[pos
                + 2] as u32);
            let priority = if mp_flag { buf[pos + 3] >> 4 } else { 0 };
            Ok((
                PfcpHeader {
                    version: flags >> 5,
                    s_flag,
                    mp_flag,
                    fo_flag,
                    msg_type: buf[1],
                    length: read_u16(buf, 2),
                    seid,
                    seq_num,
                    priority,
                },
                pos + 4,
            ))
        }
    }
}

/// The header that `new_node_msg` builds.
pub open spec fn spec_node_header(msg_type: u8, seq_num: u32) -> PfcpHeader {
    PfcpHeader {
        version: PFCP_VERSION,
        s_flag: false,
        mp_flag: false,
        fo_flag: false,
        msg_type,
        length: 0,
        seid: None,
        seq_num,
        priority: 0,
    }
}

/// The header that `new_session_msg` builds.
pub open spec fn spec_session_header(msg_type: u8, seid: u64, seq_num: u32) -> PfcpHeader {
    PfcpHeader {
        version: PFCP_VERSION,
        s_flag: true,
        mp_flag: false,
        fo_flag: false,
        msg_type,
        length: 0,
        seid: Some(seid),
        seq_num,
        priority: 0,
    }
}

/// A header that survives encoding and decoding unchanged.
pub open spec fn header_wf(h: PfcpHeader) -> bool {
    &&& h.version == PFCP_VERSION
    &&& h.seq_num < 0x1000000
    &&& (h.mp_flag ==> h.priority < 16)
    &&& (!h.mp_flag ==> h.priority == 0)
    &&& (h.s_flag <==> h.seid is Some)
}

impl PfcpHeader {
    /// A blank header of this PFCP version.
    pub fn new(&self) -> (r: Self)
        ensures
            r == (PfcpHeader {
                version: PFCP_VERSION,
                s_flag: false,
                mp_flag: false,
                fo_flag: false,
                msg_type: 0,
                length: 0,
                seid: None,
                seq_num: 0,
                priority: 0,
            }),
    {
        PfcpHeader {
            version: PFCP_VERSION,
            s_flag: false,
            mp_flag: false,
            fo_flag: false,
            msg_type: 0,
            length: 0,
            seid: None,
            seq_num: 0,
            priority: 0,
        }
    }

    /// Header of a node-related message (no SEID).
    pub fn new_node_msg(msg_type: u8, seq_num: u32) -> (r: Self)
        ensures
            r == spec_node_header(msg_type, seq_num),
    {
        PfcpHeader {
            version: PFCP_VERSION,
            s_flag: false,
            mp_flag: false,
            fo_flag: false,
            msg_type,
            length: 0,
            seid: None,
            seq_num,
            priority: 0,
        }
    }

    /// Header of a session-related message (with SEID).
    pub fn new_session_msg(msg_type: u8, seid: u64, seq_num: u32) -> (r: Self)
        ensures
            r == spec_session_header(msg_type, seid, seq_num),
    {
        PfcpHeader {
            version: PFCP_VERSION,
            s_flag: true,
            mp_flag: false,
            fo_flag: false,
            msg_type,
            length: 0,
            seid: Some(seid),
            seq_num,
            priority: 0,
        }
    }

    pub fn header_len(&self) -> (r: usize)
        ensures
            r == spec_header_len(*self),
    {
        if self.s_flag {
            16
        } else {
            8
        }
    }

    pub fn encode(&self) -> (r: Vec<u8>)
        ensures
            r@ == spec_encode(*self),
            r@.len() == spec_header_len(*self),
    {
        let mut buf: Vec<u8> = Vec::with_capacity(16);
        let flags: u8 = ((self.version & 0x07) << 5) | (if self.fo_flag {
            PFCP_FO_FLAG
        } else {
            0
        }) | (if self.mp_flag {
            PFCP_MP_FLAG
        } else {
            0
        }) | (if self.s_flag {
            PFCP_S_FLAG
        } else {
            0
        });
        buf.push(flags);
        buf.push(self.msg_type);
        push_u16_be(&mut buf, self.length);
        if self.s_flag {
            let seid = match self.seid {
                Some(s) => s,
                None => 0,
            };
            push_u64_be(&mut buf, seid);
        }
        buf.push((self.seq_num >> 16) as u8);
        buf.push((self.seq_num >> 8) as u8);
        buf.push(self.seq_num as u8);
        buf.push(
            if self.mp_flag {
                self.priority << 4
            } else {
                0
            },
        );
        assert(buf@ =~= spec_encode(*self));
        buf
    }

    pub fn decode(buf: &[u8]) -> (r: Result<(Self, &[u8]), PfcpError>)
        ensures
            match spec_decode(buf@) {
                Ok((h, pos)) => r matches Ok((h2, body)) && h2 == h && body@ == buf@.subrange(
                    pos,
                    buf@.len() as int,
                ),
                Err(e) => r == Err::<(Self, &[u8]), PfcpError>(e),
            },
    {
        if buf.len() < 8 {
            return Err(PfcpError::BufferTooShort { need: 8, have: buf.len() });
        }
        let mut pos: usize = 0;
        let flags = buf[pos];
        let version = flags >> 5;
        if version != PFCP_VERSION {
            return Err(PfcpError::UnsupportedVersion(version));
        }
        let s_flag: bool = (flags & PFCP_S_FLAG) != 0;
        let mp_flag: bool = (flags & PFCP_MP_FLAG) != 0;
        let fo_flag: bool = (flags & PFCP_FO_FLAG) != 0;
        pos += 1;
        let msg_type = buf[pos];
        pos += 1;
        let length = get_u16(buf, pos);
        pos += 2;
        let seid = if s_flag {
            if buf.len() < 16 {
                return Err(PfcpError::BufferTooShort { need: 16, have: buf.len() });
            }
            let seid = get_u64(buf, pos);
            pos += 8;
            Some(seid)
        } else {
            None
        };
        let seq_num = ((buf[pos] as u32) << 16) | ((buf[pos + 1] as u32) << 8) | (buf[pos
            + 2] as u32);
        pos += 3;
        let priority = if mp_flag {
            buf[pos] >> 4
        } else {
            0
        };
        pos += 1;
        let header = PfcpHeader {
            version,
            s_flag,
            mp_flag,
            fo_flag,
            msg_type,
            length,
            seid,
            seq_num,
            priority,
        };
        Ok((header, &buf[pos..buf.len()]))
    }
}

/// Decoding an encoded well-formed header gives the header back, and the
/// bytes that follow it are the body.
pub proof fn lemma_header_roundtrip(h: PfcpHeader, body: Seq<u8>)
    requires
        header_wf(h),
    ensures
        spec_decode(spec_encode(h) + body) == Ok::<(PfcpHeader, int), PfcpError>(
            (h, spec_header_len(h) as int),
        ),
        (spec_encode(h) + body).subrange(spec_header_len(h) as int, (spec_encode(h) + body).len() as int)
            == body,
{
    let e = spec_encode(h);
    let buf = e + body;
    let hl = spec_header_len(h) as int;
    assert(e.len() == hl);
    let flags = spec_flags(h);
    let v = h.version;
    let fo = h.fo_flag;
    let mp = h.mp_flag;
    let s = h.s_flag;
    assert(buf[0] == flags);
    assert(flags >> 5 == v && ((flags & 1) != 0) == s && ((flags & 2) != 0) == mp && ((flags & 4)
        != 0) == fo) by (bit_vector)
        requires
            v == 1u8,
            flags == ((v & 0x07) << 5) | (if fo { 4u8 } else { 0u8 }) | (if mp { 2u8 } else { 0u8 })
                | (if s { 1u8 } else { 0u8 }),
    ;
    assert(buf.subrange(2, 4) =~= be16(h.length));
    lemma_read_be16(h.length, buf, 2);
    if s {
        assert(buf.subrange(4, 12) =~= be64(spec_seid_or_zero(h)));
        lemma_read_be64(spec_seid_or_zero(h), buf, 4);
    }
    let pos: int = if s { 12 } else { 4 };
    let q = h.seq_num;
    let p = h.priority;
    assert(buf[pos] == (q >> 16) as u8);
    assert(buf[pos + 1] == (q >> 8) as u8);
    assert(buf[pos + 2] == q as u8);
    assert(((((q >> 16) as u8) as u32) << 16) | ((((q >> 8) as u8) as u32) << 8) | ((q as u8) as u32)
        == q) by (bit_vector)
        requires
            q < 0x1000000u32,
    ;
    if mp {
        assert(buf[pos + 3] == p << 4);
        assert((p << 4) >> 4 == p) by (bit_vector)
            requires
                p < 16u8,
        ;
    }
    assert(buf.subrange(hl, buf.len() as int) =~= body);
}

} // verus!
