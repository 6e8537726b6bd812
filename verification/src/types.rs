//! PFCP message types, IE types and field values (3GPP TS 29.244).
use vstd::prelude::*;

verus! {

// ── Message types ───────────────────────────────────────────
pub const PFCP_HEARTBEAT_REQ: u8 = 1;
pub const PFCP_HEARTBEAT_RSP: u8 = 2;
pub const PFCP_ASSOCIATION_SETUP_REQ: u8 = 5;
pub const PFCP_ASSOCIATION_SETUP_RSP: u8 = 6;
pub const PFCP_SESSION_ESTABLISHMENT_REQ: u8 = 50;
pub const PFCP_SESSION_ESTABLISHMENT_RSP: u8 = 51;
pub const PFCP_SESSION_MODIFICATION_REQ: u8 = 52;
pub const PFCP_SESSION_MODIFICATION_RSP: u8 = 53;
pub const PFCP_SESSION_DELETION_REQ: u8 = 54;
pub const PFCP_SESSION_DELETION_RSP: u8 = 55;
pub const PFCP_SESSION_REPORT_REQ: u8 = 56;
pub const PFCP_SESSION_REPORT_RSP: u8 = 57;

// ── Information Element types ───────────────────────────────
pub const PFCP_IE_CREATE_PDR: u16 = 1;
pub const PFCP_IE_PDI: u16 = 2;
pub const PFCP_IE_CREATE_FAR: u16 = 3;
pub const PFCP_IE_FORWARDING_PARAMETERS: u16 = 4;
pub const PFCP_IE_CREATE_URR: u16 = 6;
pub const PFCP_IE_CREATE_QER: u16 = 7;
pub const PFCP_IE_CREATED_PDR: u16 = 8;
pub const PFCP_IE_UPDATE_PDR: u16 = 9;
pub const PFCP_IE_UPDATE_FAR: u16 = 10;
pub const PFCP_IE_UPDATE_FORWARDING_PARAMETERS: u16 = 11;
pub const PFCP_IE_REMOVE_PDR: u16 = 15;
pub const PFCP_IE_REMOVE_FAR: u16 = 16;
pub const PFCP_IE_CAUSE: u16 = 19;
pub const PFCP_IE_SOURCE_INTERFACE: u16 = 20;
pub const PFCP_IE_FTEID: u16 = 21;
pub const PFCP_IE_SDF_FILTER: u16 = 23;
pub const PFCP_IE_PRECEDENCE: u16 = 29;
pub const PFCP_IE_VOLUME_THRESHOLD: u16 = 31;
pub const PFCP_IE_REPORTING_TRIGGERS: u16 = 37;
pub const PFCP_IE_REPORT_TYPE: u16 = 39;
pub const PFCP_IE_DESTINATION_INTERFACE: u16 = 42;
pub const PFCP_IE_UP_FUNCTION_FEATURES: u16 = 43;
pub const PFCP_IE_APPLY_ACTION: u16 = 44;
pub const PFCP_IE_PDR_ID: u16 = 56;
pub const PFCP_IE_FSEID: u16 = 57;
pub const PFCP_IE_NODE_ID: u16 = 60;
pub const PFCP_IE_MEASUREMENT_METHOD: u16 = 62;
pub const PFCP_IE_USAGE_REPORT_TRIGGER: u16 = 63;
pub const PFCP_IE_MEASUREMENT_PERIOD: u16 = 64;
pub const PFCP_IE_VOLUME_MEASUREMENT: u16 = 66;
pub const PFCP_IE_USAGE_REPORT_IN_SESS_MOD_RSP: u16 = 78;
pub const PFCP_IE_USAGE_REPORT_IN_SESS_MEL_RSP: u16 = 79;
pub const PFCP_IE_USAGE_REPORT_IN_SESS_RPT_REQ: u16 = 80;
pub const PFCP_IE_URR_ID: u16 = 81;
pub const PFCP_IE_OUTER_HEADER_CREATION: u16 = 84;
pub const PFCP_IE_CREATE_BAR: u16 = 85;
pub const PFCP_IE_CP_FUNCTION_FEATURES: u16 = 89;
pub const PFCP_IE_UE_IP_ADDRESS: u16 = 93;
pub const PFCP_IE_OUTER_HEADER_REMOVAL: u16 = 95;
pub const PFCP_IE_RECOVERY_TIME_STAMP: u16 = 96;
pub const PFCP_IE_UR_SEQN: u16 = 104;
pub const PFCP_IE_FAR_ID: u16 = 108;

// ── Cause values ────────────────────────────────────────────
pub const CAUSE_REQUEST_ACCEPTED: u8 = 1;
pub const CAUSE_REQUEST_REJECTED: u8 = 64;
pub const CAUSE_NO_ESTABLISHED_PFCP_ASSOCIATION: u8 = 72;

// ── Interface values (Source / Destination Interface IE) ────
pub const INTERFACE_ACCESS: u8 = 0;
pub const INTERFACE_CORE: u8 = 1;

// ── Apply Action flags ──────────────────────────────────────
pub const ACTION_DROP: u8 = 0x01;
pub const ACTION_FORW: u8 = 0x02;
pub const ACTION_BUFF: u8 = 0x04;

// ── Usage reporting ─────────────────────────────────────────
pub const MEASUREMENT_METHOD_DURAT: u8 = 0x01;
pub const MEASUREMENT_METHOD_VOLUM: u8 = 0x02;
pub const MEASUREMENT_METHOD_EVENT: u8 = 0x04;

pub const REPORTING_TRIGGER_PERIO: u8 = 0x01;
pub const REPORTING_TRIGGER_VOLTH: u8 = 0x02;

pub const USAGE_REPORT_TRIGGER_PERIO: u8 = 0x01;
pub const USAGE_REPORT_TRIGGER_VOLTH: u8 = 0x02;

pub const VOLUME_THRESHOLD_TOVOL: u8 = 0x01;

pub const VOLUME_MEASUREMENT_TOVOL: u8 = 0x01;
pub const VOLUME_MEASUREMENT_ULVOL: u8 = 0x02;
pub const VOLUME_MEASUREMENT_DLVOL: u8 = 0x04;

pub const REPORT_TYPE_USAR: u8 = 0x02;

/// UDP port of the N4 (PFCP) interface.
pub const PFCP_PORT: u16 = 8805;

/// UDP port of the GTP-U tunnel endpoint.
pub const GTPU_PORT: u16 = 2152;

} // verus!
