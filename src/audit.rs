use vstd::prelude::*;
use crate::capability::{Capability, Operation};
use crate::permissions::PermissionSet;

verus! {

/// Whether a capability call was let through to the real operation.
#[derive(Clone, Copy, Debug, PartialEq, Eq, Structural)]
pub enum Decision {
    Allowed,
    Denied,
}

/// How a capability call ended: refused, or let through and then failed or
/// succeeded in the underlying operation.
#[derive(Clone, Copy, Debug, PartialEq, Eq, Structural)]
pub enum Outcome {
    Denied,
    Failed,
    Succeeded,
}

pub open spec fn spec_decision_of(o: Outcome) -> Decision {
    match o {
        Outcome::Denied => Decision::Denied,
        _ => Decision::Allowed,
    }
}

impl Outcome {
    pub fn decision(&self) -> (r: Decision)
        ensures
            r == spec_decision_of(*self),
    {
        match self {
            Outcome::Denied => Decision::Denied,
            _ => Decision::Allowed,
        }
    }
}

/// What a capability call hands back to the component on failure.
#[derive(Clone, Debug)]
pub enum CallError {
    /// The capability is not in the session's permission set; nothing was done.
    PermissionDenied(Capability),
    /// The capability was granted but the operation itself failed.
    OperationFailed(String),
}

/// The mathematical value of what a capability call hands back.
pub enum CallReply {
    Returned(Seq<char>),
    Denied(Capability),
    Failed(Seq<char>),
}

pub open spec fn spec_reply(r: Result<String, CallError>) -> CallReply {
    match r {
        Ok(v) => CallReply::Returned(v@),
        Err(CallError::PermissionDenied(c)) => CallReply::Denied(c),
        Err(CallError::OperationFailed(m)) => CallReply::Failed(m@),
    }
}

pub open spec fn spec_outcome_of(r: CallReply) -> Outcome {
    match r {
        CallReply::Returned(_) => Outcome::Succeeded,
        CallReply::Denied(_) => Outcome::Denied,
        CallReply::Failed(_) => Outcome::Failed,
    }
}

pub open spec fn spec_capability_name(c: Capability) -> Seq<char> {
    match c {
        Capability::FilesystemRead => "filesystem-read"@,
        Capability::FilesystemWrite => "filesystem-write"@,
        Capability::Network => "network"@,
    }
}

/// The interface-qualified name of an operation, as audit lines print it.
pub open spec fn spec_operation_name(op: Operation) -> Seq<char> {
    match op {
        Operation::ReadFile => "filesystem-read.read-file"@,
        Operation::WriteFile => "filesystem-write.write-file"@,
        Operation::HttpGet => "network.http-get"@,
        Operation::HttpPost => "network.http-post"@,
    }
}

pub fn capability_name(c: Capability) -> (r: String)
    ensures
        r@ == spec_capability_name(c),
{
    match c {
        Capability::FilesystemRead => "filesystem-read".to_owned(),
        Capability::FilesystemWrite => "filesystem-write".to_owned(),
        Capability::Network => "network".to_owned(),
    }
}

pub fn operation_name(op: Operation) -> (r: String)
    ensures
        r@ == spec_operation_name(op),
{
    match op {
        Operation::ReadFile => "filesystem-read.read-file".to_owned(),
        Operation::WriteFile => "filesystem-write.write-file".to_owned(),
        Operation::HttpGet => "network.http-get".to_owned(),
        Operation::HttpPost => "network.http-post".to_owned(),
    }
}

pub open spec fn spec_error_message(e: CallError) -> Seq<char> {
    match e {
        CallError::PermissionDenied(c) => "Permission denied: "@ + spec_capability_name(c)
            + " capability not granted"@,
        CallError::OperationFailed(d) => d@,
    }
}

impl CallError {
    /// The text handed to the component across the capability boundary.
    pub fn message(&self) -> (r: String)
        ensures
            r@ == spec_error_message(*self),
    {
        match self {
            CallError::PermissionDenied(c) => {
                let mut m = "Permission denied: ".to_owned();
                let n = capability_name(*c);
                m.append(n.as_str());
                m.append(" capability not granted");
                m
            },
            CallError::OperationFailed(d) => d.clone(),
        }
    }
}

/// The mathematical value of an audit record.
pub struct AuditEntry {
    pub component: Seq<char>,
    pub operation: Operation,
    pub target: Seq<char>,
    pub payload_bytes: Option<usize>,
    pub outcome: Outcome,
    pub detail: Seq<char>,
}

/// One capability attempt: who, what, on which path or URL, how many bytes
/// of data it sends (for a write or a POST), and how it ended.
/// `detail` holds the underlying failure for `Outcome::Failed` and is empty
/// otherwise.
#[derive(Clone, Debug)]
pub struct AuditRecord {
    pub component: String,
    pub operation: Operation,
    pub target: String,
    pub payload_bytes: Option<usize>,
    pub outcome: Outcome,
    pub detail: String,
}

impl View for AuditRecord {
    type V = AuditEntry;

    open spec fn view(&self) -> AuditEntry {
        AuditEntry {
            component: self.component@,
            operation: self.operation,
            target: self.target@,
            payload_bytes: self.payload_bytes,
            outcome: self.outcome,
            detail: self.detail@,
        }
    }
}

pub open spec fn spec_decision_tag(d: Decision) -> Seq<char> {
    match d {
        Decision::Allowed => "[ALLOWED]"@,
        Decision::Denied => "[DENIED]"@,
    }
}

pub open spec fn spec_outcome_suffix(o: Outcome, detail: Seq<char>) -> Seq<char> {
    match o {
        Outcome::Denied => " without permission"@,
        Outcome::Failed => " failed: "@ + detail,
        Outcome::Succeeded => " succeeded"@,
    }
}

pub open spec fn spec_digit(d: nat) -> char {
    if d == 0 {
        '0'
    } else if d == 1 {
        '1'
    } else if d == 2 {
        '2'
    } else if d == 3 {
        '3'
    } else if d == 4 {
        '4'
    } else if d == 5 {
        '5'
    } else if d == 6 {
        '6'
    } else if d == 7 {
        '7'
    } else if d == 8 {
        '8'
    } else {
        '9'
    }
}

/// The decimal notation of `n`, without leading zeros.
pub open spec fn spec_decimal(n: nat) -> Seq<char>
    decreases n,
{
    if n < 10 {
        seq![spec_digit(n)]
    } else {
        spec_decimal(n / 10).push(spec_digit(n % 10))
    }
}

fn digit(d: usize) -> (r: &'static str)
    requires
        d < 10,
    ensures
        r@ == seq![spec_digit(d as nat)],
{
    proof {
        reveal_strlit("0");
        reveal_strlit("1");
        reveal_strlit("2");
        reveal_strlit("3");
        reveal_strlit("4");
        reveal_strlit("5");
        reveal_strlit("6");
        reveal_strlit("7");
        reveal_strlit("8");
        reveal_strlit("9");
    }
    if d == 0 {
        "0"
    } else if d == 1 {
        "1"
    } else if d == 2 {
        "2"
    } else if d == 3 {
        "3"
    } else if d == 4 {
        "4"
    } else if d == 5 {
        "5"
    } else if d == 6 {
        "6"
    } else if d == 7 {
        "7"
    } else if d == 8 {
        "8"
    } else {
        "9"
    }
}

/// Renders `n` in decimal.
pub fn decimal(n: usize) -> (r: String)
    ensures
        r@ == spec_decimal(n as nat),
    decreases n,
{
    if n < 10 {
        digit(n).to_owned()
    } else {
        let mut s = decimal(n / 10);
        s.append(digit(n % 10));
        proof {
            assert(s@ =~= spec_decimal(n as nat));
        }
        s
    }
}

pub open spec fn spec_payload_suffix(p: Option<usize>) -> Seq<char> {
    match p {
        Some(n) => " with "@ + spec_decimal(n as nat) + " bytes"@,
        None => Seq::empty(),
    }
}

/// `[DENIED] Component 'id' attempted network.http-get("url") without permission`;
/// a write or a POST also gives its size: `... http-post("url") with 2 bytes succeeded`.
pub open spec fn spec_audit_line(e: AuditEntry) -> Seq<char> {
    spec_decision_tag(spec_decision_of(e.outcome)) + " Component '"@ + e.component
        + "' attempted "@ + spec_operation_name(e.operation) + "(\""@ + e.target + "\")"@
        + spec_payload_suffix(e.payload_bytes) + spec_outcome_suffix(e.outcome, e.detail)
}

impl AuditRecord {
    pub fn decision(&self) -> (r: Decision)
        ensures
            r == spec_decision_of(self.outcome),
    {
        self.outcome.decision()
    }

    /// The record as one line of audit output.
    pub fn line(&self) -> (r: String)
        ensures
            r@ == spec_audit_line(self@),
    {
        let mut s = match self.outcome.decision() {
            Decision::Allowed => "[ALLOWED]".to_owned(),
            Decision::Denied => "[DENIED]".to_owned(),
        };
        s.append(" Component '");
        s.append(self.component.as_str());
        s.append("' attempted ");
        let name = operation_name(self.operation);
        s.append(name.as_str());
        s.append("(\"");
        s.append(self.target.as_str());
        s.append("\")");
        match self.payload_bytes {
            Some(n) => {
                s.append(" with ");
                let d = decimal(n);
                s.append(d.as_str());
                s.append(" bytes");
            },
            None => {},
        }
        match self.outcome {
            Outcome::Denied => s.append(" without permission"),
            Outcome::Failed => {
                s.append(" failed: ");
                s.append(self.detail.as_str());
            },
            Outcome::Succeeded => s.append(" succeeded"),
        }
        proof {
            assert(s@ =~= spec_audit_line(self@));
        }
        s
    }
}

pub open spec fn spec_grant_entry(perms: PermissionSet, c: Capability) -> Seq<char> {
    spec_capability_name(c) + (if perms@.contains(c) {
        ": GRANTED"@
    } else {
        ": DENIED"@
    })
}

/// `Capabilities: filesystem-read: GRANTED, filesystem-write: DENIED, network: DENIED`
pub open spec fn spec_grants_line(perms: PermissionSet) -> Seq<char> {
    "Capabilities: "@ + spec_grant_entry(perms, Capability::FilesystemRead) + ", "@
        + spec_grant_entry(perms, Capability::FilesystemWrite) + ", "@ + spec_grant_entry(
        perms,
        Capability::Network,
    )
}

fn append_grant(s: &mut String, perms: &PermissionSet, c: Capability)
    ensures
        final(s)@ == old(s)@ + spec_grant_entry(*perms, c),
{
    let name = capability_name(c);
    s.append(name.as_str());
    if perms.is_granted(c) {
        s.append(": GRANTED");
    } else {
        s.append(": DENIED");
    }
}

/// The one line per invocation that states which capabilities were granted.
pub fn grants_line(perms: &PermissionSet) -> (r: String)
    ensures
        r@ == spec_grants_line(*perms),
{
    let mut s = "Capabilities: ".to_owned();
    append_grant(&mut s, perms, Capability::FilesystemRead);
    s.append(", ");
    append_grant(&mut s, perms, Capability::FilesystemWrite);
    s.append(", ");
    append_grant(&mut s, perms, Capability::Network);
    proof {
        assert(s@ =~= spec_grants_line(*perms));
    }
    s
}

} // verus!
