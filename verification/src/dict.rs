//! The PFCP message / IE dictionary (3GPP TS 29.244 message tables): for each
//! message type, which IEs are Mandatory, Conditional or Optional.
use vstd::prelude::*;
use crate::ie::{ies_match, iter_ies, spec_iter_ies, IeView};
use crate::types::{
    PFCP_ASSOCIATION_SETUP_REQ, PFCP_ASSOCIATION_SETUP_RSP, PFCP_HEARTBEAT_REQ,
    PFCP_HEARTBEAT_RSP, PFCP_IE_CAUSE, PFCP_IE_CP_FUNCTION_FEATURES, PFCP_IE_CREATED_PDR,
    PFCP_IE_CREATE_BAR, PFCP_IE_CREATE_FAR, PFCP_IE_CREATE_PDR, PFCP_IE_CREATE_QER,
    PFCP_IE_CREATE_URR, PFCP_IE_FSEID, PFCP_IE_NODE_ID, PFCP_IE_RECOVERY_TIME_STAMP,
    PFCP_IE_REMOVE_FAR, PFCP_IE_REMOVE_PDR, PFCP_IE_UPDATE_FAR, PFCP_IE_UPDATE_PDR,
    PFCP_IE_UP_FUNCTION_FEATURES, PFCP_IE_USAGE_REPORT_IN_SESS_MEL_RSP,
    PFCP_SESSION_DELETION_REQ, PFCP_SESSION_DELETION_RSP, PFCP_SESSION_ESTABLISHMENT_REQ,
    PFCP_SESSION_ESTABLISHMENT_RSP, PFCP_SESSION_MODIFICATION_REQ, PFCP_SESSION_MODIFICATION_RSP,
};

verus! {

#[derive(Debug, Clone, Copy, PartialEq, Eq, Structural)]
pub enum Presence {
    /// Mandatory
    Mandatory,
    /// Conditional
    Conditional,
    /// Optional
    Optional,
}

#[derive(Debug, Copy, Clone)]
pub struct IeSpec {
    /// IE type number
    pub ie_type: u16,
    /// Presence rule
    pub presence: Presence,
    /// Readable name
    pub name: &'static str,
}

#[derive(Debug, Clone)]
pub struct MessageSpec {
    pub msg_type: u8,
    pub name: &'static str,
    pub ies: Vec<IeSpec>,
}

pub open spec fn ie_spec(ie_type: u16, presence: Presence, name: &'static str) -> IeSpec {
    IeSpec { ie_type, presence, name }
}

/// The name of a message type in the dictionary.
pub open spec fn dict_name(msg_type: u8) -> &'static str {
    if msg_type == PFCP_HEARTBEAT_REQ {
        "Heartbeat Request"
    } else if msg_type == PFCP_HEARTBEAT_RSP {
        "Heartbeat Response"
    } else if msg_type == PFCP_ASSOCIATION_SETUP_REQ {
        "Association Setup Request"
    } else if msg_type == PFCP_ASSOCIATION_SETUP_RSP {
        "Association Setup Response"
    } else if msg_type == PFCP_SESSION_ESTABLISHMENT_REQ {
        "Session Establishment Request"
    } else if msg_type == PFCP_SESSION_ESTABLISHMENT_RSP {
        "Session Establishment Response"
    } else if msg_type == PFCP_SESSION_MODIFICATION_REQ {
        "Session Modification Request"
    } else if msg_type == PFCP_SESSION_MODIFICATION_RSP {
        "Session Modification Response"
    } else if msg_type == PFCP_SESSION_DELETION_REQ {
        "Session Deletion Request"
    } else {
        "Session Deletion Response"
    }
}

/// The IE rules of a message type, for the types the dictionary holds.
pub open spec fn dict_ies(msg_type: u8) -> Option<Seq<IeSpec>> {
    if msg_type == PFCP_HEARTBEAT_REQ {
        Some(seq![ie_spec(PFCP_IE_RECOVERY_TIME_STAMP, Presence::Optional, "Recovery Time Stamp")])
    } else if msg_type == PFCP_HEARTBEAT_RSP {
        Some(seq![ie_spec(PFCP_IE_RECOVERY_TIME_STAMP, Presence::Optional, "Recovery Time Stamp")])
    } else if msg_type == PFCP_ASSOCIATION_SETUP_REQ {
        Some(
            seq![
                ie_spec(PFCP_IE_NODE_ID, Presence::Mandatory, "Node ID"),
                ie_spec(PFCP_IE_RECOVERY_TIME_STAMP, Presence::Mandatory, "Recovery Time Stamp"),
                ie_spec(PFCP_IE_CP_FUNCTION_FEATURES, Presence::Conditional, "CP Function Feature"),
                ie_spec(PFCP_IE_UP_FUNCTION_FEATURES, Presence::Conditional, "UP Function Feature"),
            ],
        )
    } else if msg_type == PFCP_ASSOCIATION_SETUP_RSP {
        Some(
            seq![
                ie_spec(PFCP_IE_NODE_ID, Presence::Mandatory, "Node ID"),
                ie_spec(PFCP_IE_CAUSE, Presence::Mandatory, "Cause"),
                ie_spec(PFCP_IE_RECOVERY_TIME_STAMP, Presence::Mandatory, "Recovery Time Stamp"),
                ie_spec(PFCP_IE_UP_FUNCTION_FEATURES, Presence::Conditional, "UP Function Feature"),
            ],
        )
    } else if msg_type == PFCP_SESSION_ESTABLISHMENT_REQ {
        Some(
            seq![
                ie_spec(PFCP_IE_NODE_ID, Presence::Mandatory, "Node ID"),
                ie_spec(PFCP_IE_FSEID, Presence::Mandatory, "FSEID"),
                ie_spec(PFCP_IE_CREATE_PDR, Presence::Mandatory, "Create PDR"),
                ie_spec(PFCP_IE_CREATE_FAR, Presence::Mandatory, "Create FAR"),
                ie_spec(PFCP_IE_CREATE_URR, Presence::Conditional, "Create URR"),
                ie_spec(PFCP_IE_CREATE_QER, Presence::Conditional, "Create QER"),
                ie_spec(PFCP_IE_CREATE_BAR, Presence::Optional, "Create BAR"),
            ],
        )
    } else if msg_type == PFCP_SESSION_ESTABLISHMENT_RSP {
        Some(
            seq![
                ie_spec(PFCP_IE_NODE_ID, Presence::Mandatory, "Node ID"),
                ie_spec(PFCP_IE_CAUSE, Presence::Mandatory, "Cause"),
                ie_spec(PFCP_IE_FSEID, Presence::Conditional, "FSEID"),
                ie_spec(PFCP_IE_CREATE_PDR, Presence::Conditional, "Create PDR"),
            ],
        )
    } else if msg_type == PFCP_SESSION_MODIFICATION_REQ {
        Some(
            seq![
                ie_spec(PFCP_IE_FSEID, Presence::Conditional, "F-SEID"),
                ie_spec(PFCP_IE_UPDATE_PDR, Presence::Conditional, "Update PDR"),
                ie_spec(PFCP_IE_UPDATE_FAR, Presence::Conditional, "Update FAR"),
                ie_spec(PFCP_IE_REMOVE_PDR, Presence::Optional, "Remove PDR"),
                ie_spec(PFCP_IE_REMOVE_FAR, Presence::Optional, "Remove FAR"),
            ],
        )
    } else if msg_type == PFCP_SESSION_MODIFICATION_RSP {
        Some(
            seq![
                ie_spec(PFCP_IE_CAUSE, Presence::Mandatory, "Cause"),
                ie_spec(PFCP_IE_CREATED_PDR, Presence::Optional, "Created PDR"),
            ],
        )
    } else if msg_type == PFCP_SESSION_DELETION_REQ {
        Some(Seq::empty())
    } else if msg_type == PFCP_SESSION_DELETION_RSP {
        Some(
            seq![
                ie_spec(PFCP_IE_CAUSE, Presence::Mandatory, "Cause"),
                ie_spec(PFCP_IE_USAGE_REPORT_IN_SESS_MEL_RSP, Presence::Optional, "Usage Report"),
            ],
        )
    } else {
        None
    }
}

/// The rules among `ies` that are Mandatory, in order.
pub open spec fn mandatory_of(ies: Seq<IeSpec>) -> Seq<IeSpec>
    decreases ies.len(),
{
    if ies.len() == 0 {
        Seq::empty()
    } else if ies.last().presence == Presence::Mandatory {
        mandatory_of(ies.drop_last()).push(ies.last())
    } else {
        mandatory_of(ies.drop_last())
    }
}

impl MessageSpec {
    /// The Mandatory IE rules of the message.
    pub fn madatory_ies(&self) -> (r: Vec<IeSpec>)
        ensures
            r@ == mandatory_of(self.ies@),
    {
        let mut out: Vec<IeSpec> = Vec::new();
        let mut i: usize = 0;
        while i < self.ies.len()
            invariant
                0 <= i <= self.ies@.len(),
                out@ == mandatory_of(self.ies@.take(i as int)),
            decreases self.ies@.len() - i,
        {
            let s = self.ies[i];
            assert(self.ies@.take(i + 1).drop_last() =~= self.ies@.take(i as int));
            if s.presence == Presence::Mandatory {
                out.push(s);
            }
            i += 1;
        }
        assert(self.ies@.take(self.ies@.len() as int) =~= self.ies@);
        out
    }

    /// The rule for an IE type: the first one the message lists.
    pub fn find_ie(&self, ie_type: u16) -> (r: Option<&IeSpec>)
        ensures
            match r {
                Some(s) => exists|i: int|
                    0 <= i < self.ies@.len() && self.ies@[i] == *s && s.ie_type == ie_type
                        && forall|j: int| 0 <= j < i ==> self.ies@[j].ie_type != ie_type,
                None => forall|i: int| 0 <= i < self.ies@.len() ==> self.ies@[i].ie_type != ie_type,
            },
    {
        let mut i: usize = 0;
        while i < self.ies.len()
            invariant
                0 <= i <= self.ies@.len(),
                forall|j: int| 0 <= j < i ==> self.ies@[j].ie_type != ie_type,
            decreases self.ies@.len() - i,
        {
            if self.ies[i].ie_type == ie_type {
                return Some(&self.ies[i]);
            }
            i += 1;
        }
        None
    }
}

fn spec_entry(ie_type: u16, presence: Presence, name: &'static str) -> (r: IeSpec)
    ensures
        r == ie_spec(ie_type, presence, name),
{
    IeSpec { ie_type, presence, name }
}

/// Looks up a message type in the dictionary.
pub fn lookup(msg_type: u8) -> (r: Option<MessageSpec>)
    ensures
        match dict_ies(msg_type) {
            Some(ies) => r matches Some(m) && m.msg_type == msg_type && m.name == dict_name(msg_type)
                && m.ies@ == ies,
            None => r is None,
        },
{
    let mut ies: Vec<IeSpec> = Vec::new();
    let name: &'static str;
    if msg_type == PFCP_HEARTBEAT_REQ {
        name = "Heartbeat Request";
        ies.push(spec_entry(PFCP_IE_RECOVERY_TIME_STAMP, Presence::Optional, "Recovery Time Stamp"));
    } else if msg_type == PFCP_HEARTBEAT_RSP {
        name = "Heartbeat Response";
        ies.push(spec_entry(PFCP_IE_RECOVERY_TIME_STAMP, Presence::Optional, "Recovery Time Stamp"));
    } else if msg_type == PFCP_ASSOCIATION_SETUP_REQ {
        name = "Association Setup Request";
        ies.push(spec_entry(PFCP_IE_NODE_ID, Presence::Mandatory, "Node ID"));
        ies.push(spec_entry(PFCP_IE_RECOVERY_TIME_STAMP, Presence::Mandatory, "Recovery Time Stamp"));
        ies.push(spec_entry(PFCP_IE_CP_FUNCTION_FEATURES, Presence::Conditional, "CP Function Feature"));
        ies.push(spec_entry(PFCP_IE_UP_FUNCTION_FEATURES, Presence::Conditional, "UP Function Feature"));
    } else if msg_type == PFCP_ASSOCIATION_SETUP_RSP {
        name = "Association Setup Response";
        ies.push(spec_entry(PFCP_IE_NODE_ID, Presence::Mandatory, "Node ID"));
        ies.push(spec_entry(PFCP_IE_CAUSE, Presence::Mandatory, "Cause"));
        ies.push(spec_entry(PFCP_IE_RECOVERY_TIME_STAMP, Presence::Mandatory, "Recovery Time Stamp"));
        ies.push(spec_entry(PFCP_IE_UP_FUNCTION_FEATURES, Presence::Conditional, "UP Function Feature"));
    } else if msg_type == PFCP_SESSION_ESTABLISHMENT_REQ {
        name = "Session Establishment Request";
        ies.push(spec_entry(PFCP_IE_NODE_ID, Presence::Mandatory, "Node ID"));
        ies.push(spec_entry(PFCP_IE_FSEID, Presence::Mandatory, "FSEID"));
        ies.push(spec_entry(PFCP_IE_CREATE_PDR, Presence::Mandatory, "Create PDR"));
        ies.push(spec_entry(PFCP_IE_CREATE_FAR, Presence::Mandatory, "Create FAR"));
        ies.push(spec_entry(PFCP_IE_CREATE_URR, Presence::Conditional, "Create URR"));
        ies.push(spec_entry(PFCP_IE_CREATE_QER, Presence::Conditional, "Create QER"));
        ies.push(spec_entry(PFCP_IE_CREATE_BAR, Presence::Optional, "Create BAR"));
    } else if msg_type == PFCP_SESSION_ESTABLISHMENT_RSP {
        name = "Session Establishment Response";
        ies.push(spec_entry(PFCP_IE_NODE_ID, Presence::Mandatory, "Node ID"));
        ies.push(spec_entry(PFCP_IE_CAUSE, Presence::Mandatory, "Cause"));
        ies.push(spec_entry(PFCP_IE_FSEID, Presence::Conditional, "FSEID"));
        ies.push(spec_entry(PFCP_IE_CREATE_PDR, Presence::Conditional, "Create PDR"));
    } else if msg_type == PFCP_SESSION_MODIFICATION_REQ {
        name = "Session Modification Request";
        ies.push(spec_entry(PFCP_IE_FSEID, Presence::Conditional, "F-SEID"));
        ies.push(spec_entry(PFCP_IE_UPDATE_PDR, Presence::Conditional, "Update PDR"));
        ies.push(spec_entry(PFCP_IE_UPDATE_FAR, Presence::Conditional, "Update FAR"));
        ies.push(spec_entry(PFCP_IE_REMOVE_PDR, Presence::Optional, "Remove PDR"));
        ies.push(spec_entry(PFCP_IE_REMOVE_FAR, Presence::Optional, "Remove FAR"));
    } else if msg_type == PFCP_SESSION_MODIFICATION_RSP {
        name = "Session Modification Response";
        ies.push(spec_entry(PFCP_IE_CAUSE, Presence::Mandatory, "Cause"));
        ies.push(spec_entry(PFCP_IE_CREATED_PDR, Presence::Optional, "Created PDR"));
    } else if msg_type == PFCP_SESSION_DELETION_REQ {
        name = "Session Deletion Request";
    } else if msg_type == PFCP_SESSION_DELETION_RSP {
        name = "Session Deletion Response";
        ies.push(spec_entry(PFCP_IE_CAUSE, Presence::Mandatory, "Cause"));
        ies.push(
            spec_entry(PFCP_IE_USAGE_REPORT_IN_SESS_MEL_RSP, Presence::Optional, "Usage Report"),
        );
    } else {
        return None;
    }
    assert(ies@ =~= dict_ies(msg_type)->0);
    Some(MessageSpec { msg_type, name, ies })
}

/// Validation result.
#[derive(Debug)]
pub struct ValidationResult {
    /// Names of the Mandatory IEs that should be present and are not.
    pub missing: Vec<&'static str>,
}

impl ValidationResult {
    pub fn is_ok(&self) -> (r: bool)
        ensures
            r == (self.missing@.len() == 0),
    {
        self.missing.len() == 0
    }
}

/// Some IE in `ies` has type `t`.
pub open spec fn has_ie_type(ies: Seq<IeView>, t: u16) -> bool {
    exists|i: int| 0 <= i < ies.len() && ies[i].ie_type == t
}

/// The names of the Mandatory rules in `rules` that no IE in `received` meets.
pub open spec fn spec_missing(rules: Seq<IeSpec>, received: Seq<IeView>) -> Seq<&'static str>
    decreases rules.len(),
{
    if rules.len() == 0 {
        Seq::empty()
    } else {
        let rest = spec_missing(rules.drop_last(), received);
        let s = rules.last();
        if s.presence == Presence::Mandatory && !has_ie_type(received, s.ie_type) {
            rest.push(s.name)
        } else {
            rest
        }
    }
}

/// The missing Mandatory IEs of a received message body; a message type the
/// dictionary does not hold passes.
pub open spec fn spec_validate(msg_type: u8, body: Seq<u8>) -> Seq<&'static str> {
    match dict_ies(msg_type) {
        None => Seq::empty(),
        Some(rules) => spec_missing(rules, spec_iter_ies(body)),
    }
}

/// Checks that a received message body holds every Mandatory IE.
pub fn validate(msg_type: u8, body: &[u8]) -> (r: ValidationResult)
    ensures
        r.missing@ == spec_validate(msg_type, body@),
{
    let spec = match lookup(msg_type) {
        None => {
            return ValidationResult { missing: Vec::new() };
        },
        Some(s) => s,
    };
    let ies = iter_ies(body);
    let ghost received = spec_iter_ies(body@);
    let mut missing: Vec<&'static str> = Vec::new();
    let mut i: usize = 0;
    while i < spec.ies.len()
        invariant
            ies_match(ies@, received),
            received == spec_iter_ies(body@),
            0 <= i <= spec.ies@.len(),
            missing@ == spec_missing(spec.ies@.take(i as int), received),
        decreases spec.ies@.len() - i,
    {
        let s = spec.ies[i];
        assert(spec.ies@.take(i + 1).drop_last() =~= spec.ies@.take(i as int));
        if s.presence == Presence::Mandatory {
            let mut found = false;
            let mut j: usize = 0;
            while j < ies.len()
                invariant
                    ies_match(ies@, received),
                    0 <= j <= ies@.len(),
                    found == (exists|k: int| 0 <= k < j && received[k].ie_type == s.ie_type),
                decreases ies@.len() - j,
            {
                assert(ies@[j as int]@ == received[j as int]);
                if ies[j].ie_type == s.ie_type {
                    found = true;
                }
                j += 1;
            }
            if !found {
                missing.push(s.name);
            }
        }
        i += 1;
    }
    assert(spec.ies@.take(spec.ies@.len() as int) =~= spec.ies@);
    ValidationResult { missing }
}

} // verus!
