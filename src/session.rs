use vstd::prelude::*;
use crate::audit::{spec_reply, AuditEntry, AuditRecord, CallError, CallReply, Outcome};
use crate::capability::{spec_failure_text, Capability, Request, RequestView};
use crate::permissions::PermissionSet;

verus! {

/// The classes of error that abort an invocation.
#[derive(Clone, Copy, Debug, PartialEq, Eq, Structural)]
pub enum ErrorKind {
    /// The launch configuration was incomplete or named something unknown.
    Config,
    /// The artifact is missing, unreadable or not a valid component.
    Load,
    /// The artifact's imports do not match the offered handlers.
    Link,
    /// The entry point itself raised an error.
    Runtime,
}

/// A fatal error, with the context that names what failed.
#[derive(Clone, Debug)]
pub struct HostError {
    pub kind: ErrorKind,
    pub detail: String,
}

pub open spec fn spec_kind_name(k: ErrorKind) -> Seq<char> {
    match k {
        ErrorKind::Config => "config"@,
        ErrorKind::Load => "load"@,
        ErrorKind::Link => "link"@,
        ErrorKind::Runtime => "runtime"@,
    }
}

/// Which kind of runner an invocation went through.
#[derive(Clone, Copy, Debug, PartialEq, Eq, Structural)]
pub enum Runner {
    /// A skill component, which imports the capability handlers.
    Skill,
    /// A computation-only component, which imports none.
    Scanner,
}

pub open spec fn spec_load_hint() -> Seq<char> {
    "\nMake sure the file exists and is a valid WASM component."@
}

pub open spec fn spec_host_error_message(e: HostError, artifact: Seq<char>, runner: Runner) -> Seq<
    char,
> {
    match (e.kind, runner) {
        (ErrorKind::Load, Runner::Skill) => "Failed to load component '"@ + artifact + "': "@
            + e.detail@ + spec_load_hint(),
        (ErrorKind::Load, Runner::Scanner) => "Failed to load scanner component '"@ + artifact
            + "': "@ + e.detail@,
        _ => spec_kind_name(e.kind) + " error for component '"@ + artifact + "': "@ + e.detail@,
    }
}

impl HostError {
    /// The error wrapped with its context. A load failure names the artifact
    /// that could not be loaded (a skill component's adds a hint); any other
    /// names the stage that failed and the artifact it concerns.
    pub fn message(&self, artifact: &str, runner: Runner) -> (r: String)
        ensures
            r@ == spec_host_error_message(*self, artifact@, runner),
    {
        match (self.kind, runner) {
            (ErrorKind::Load, Runner::Skill) => {
                let mut s = "Failed to load component '".to_owned();
                s.append(artifact);
                s.append("': ");
                s.append(self.detail.as_str());
                s.append("\nMake sure the file exists and is a valid WASM component.");
                s
            },
            (ErrorKind::Load, Runner::Scanner) => {
                let mut s = "Failed to load scanner component '".to_owned();
                s.append(artifact);
                s.append("': ");
                s.append(self.detail.as_str());
                s
            },
            _ => {
                let mut s = match self.kind {
                    ErrorKind::Config => "config".to_owned(),
                    ErrorKind::Load => "load".to_owned(),
                    ErrorKind::Link => "link".to_owned(),
                    ErrorKind::Runtime => "runtime".to_owned(),
                };
                s.append(" error for component '");
                s.append(artifact);
                s.append("': ");
                s.append(self.detail.as_str());
                s
            },
        }
    }
}

/// Where a session stands in its lifecycle. `Completed` and `Failed` are
/// terminal.
#[derive(Clone, Copy, Debug, PartialEq, Eq, Structural)]
pub enum Stage {
    Created,
    Linked,
    Instantiated,
    Running,
    Completed,
    Failed(ErrorKind),
}

/// What the host must do with a capability call.
#[derive(Clone, Debug)]
pub enum Dispatch {
    /// Refused: the denial is already audited and nothing else may happen.
    Denied(CallError),
    /// Granted: perform exactly this request, then report how it went.
    Perform(Request),
}

/// The audit entry of a refused call.
pub open spec fn spec_denied_entry(identity: Seq<char>, req: RequestView) -> AuditEntry {
    AuditEntry {
        component: identity,
        operation: req.operation(),
        target: req.target(),
        payload_bytes: None,
        outcome: Outcome::Denied,
        detail: Seq::empty(),
    }
}

/// The audit entry of a granted call whose operation ended with `performed`
/// (on failure, what the operation reported as the cause).
pub open spec fn spec_allowed_entry(
    identity: Seq<char>,
    req: RequestView,
    performed: Result<String, String>,
) -> AuditEntry {
    AuditEntry {
        component: identity,
        operation: req.operation(),
        target: req.target(),
        payload_bytes: req.payload_bytes(),
        outcome: match performed {
            Ok(_) => Outcome::Succeeded,
            Err(_) => Outcome::Failed,
        },
        detail: match performed {
            Ok(_) => Seq::empty(),
            Err(e) => spec_failure_text(req, e@),
        },
    }
}

/// What a granted call returns to the component.
pub open spec fn spec_granted_result(req: RequestView, performed: Result<String, String>) -> CallReply {
    match performed {
        Ok(v) => CallReply::Returned(v@),
        Err(e) => CallReply::Failed(spec_failure_text(req, e@)),
    }
}

/// One capability call as a whole: the result the component sees and the one
/// audit entry it leaves, given the permission set, the caller's identity, the
/// request, and what the real operation would yield if it were performed.
pub open spec fn spec_call(
    perms: PermissionSet,
    identity: Seq<char>,
    req: RequestView,
    performed: Result<String, String>,
) -> (CallReply, AuditEntry) {
    if perms@.contains(req.capability()) {
        (spec_granted_result(req, performed), spec_allowed_entry(identity, req, performed))
    } else {
        (
            CallReply::Denied(req.capability()),
            spec_denied_entry(identity, req),
        )
    }
}

/// One invocation of one component: its identity, its own permission set, its
/// audit trail, and its place in the lifecycle.
pub struct Session {
    identity: String,
    permissions: PermissionSet,
    stage: Stage,
    records: Vec<AuditRecord>,
    pending: Option<Request>,
}

impl Session {
    pub closed spec fn spec_identity(&self) -> Seq<char> {
        self.identity@
    }

    pub closed spec fn spec_permissions(&self) -> PermissionSet {
        self.permissions
    }

    pub closed spec fn spec_stage(&self) -> Stage {
        self.stage
    }

    /// The audit trail, oldest first.
    pub closed spec fn spec_log(&self) -> Seq<AuditEntry> {
        self.records@.map_values(|r: AuditRecord| r@)
    }

    /// The granted request whose operation has yet to be reported.
    pub closed spec fn spec_pending(&self) -> Option<RequestView> {
        match self.pending {
            Some(q) => Some(q@),
            None => None,
        }
    }

    /// Nothing is audited before the component runs, and a pending request is
    /// always a granted one of a running session.
    pub closed spec fn wf(&self) -> bool {
        &&& (self.stage == Stage::Created || self.stage == Stage::Linked || self.stage
            == Stage::Instantiated || self.stage == Stage::Failed(ErrorKind::Config)
            || self.stage == Stage::Failed(ErrorKind::Load) || self.stage == Stage::Failed(
            ErrorKind::Link,
        )) ==> self.records@.len() == 0
        &&& self.pending is Some ==> {
            &&& self.stage == Stage::Running
            &&& self.permissions@.contains(self.pending->0@.capability())
        }
    }

    /// A fresh session with an empty audit trail.
    pub fn new(identity: String, permissions: PermissionSet) -> (r: Self)
        ensures
            r.wf(),
            r.spec_identity() == identity@,
            r.spec_permissions() == permissions,
            r.spec_stage() == Stage::Created,
            r.spec_log() == Seq::<AuditEntry>::empty(),
            r.spec_pending() is None,
    {
        let r = Session {
            identity,
            permissions,
            stage: Stage::Created,
            records: Vec::new(),
            pending: None,
        };
        assert(r.spec_log() =~= Seq::<AuditEntry>::empty());
        r
    }

    /// A session for pure computation: no capability is granted.
    pub fn computation(identity: String) -> (r: Self)
        ensures
            r.wf(),
            r.spec_identity() == identity@,
            r.spec_permissions()@ == Set::<Capability>::empty(),
            r.spec_stage() == Stage::Created,
            r.spec_log() == Seq::<AuditEntry>::empty(),
            r.spec_pending() is None,
    {
        Session::new(identity, PermissionSet::none())
    }

    pub fn identity(&self) -> (r: &String)
        ensures
            r@ == self.spec_identity(),
    {
        &self.identity
    }

    pub fn permissions(&self) -> (r: PermissionSet)
        ensures
            r == self.spec_permissions(),
    {
        self.permissions
    }

    pub fn stage(&self) -> (r: Stage)
        ensures
            r == self.spec_stage(),
    {
        self.stage
    }

    /// The audit records so far, oldest first.
    pub fn records(&self) -> (r: &Vec<AuditRecord>)
        ensures
            r@.map_values(|x: AuditRecord| x@) == self.spec_log(),
    {
        &self.records
    }

    /// Registers the capability handlers for this session alone.
    /// `outcome` is what registering with the engine gave.
    pub fn link(&mut self, outcome: Result<(), String>) -> (r: Result<(), HostError>)
        requires
            old(self).wf(),
            old(self).spec_stage() == Stage::Created,
        ensures
            final(self).wf(),
            final(self).spec_identity() == old(self).spec_identity(),
            final(self).spec_permissions() == old(self).spec_permissions(),
            final(self).spec_log() == old(self).spec_log(),
            final(self).spec_pending() is None,
            outcome is Ok ==> r is Ok && final(self).spec_stage() == Stage::Linked,
            outcome is Err ==> final(self).spec_stage() == Stage::Failed(ErrorKind::Link)
                && r is Err && r->Err_0.kind == ErrorKind::Link && r->Err_0.detail@
                == outcome->Err_0@,
    {
        match outcome {
            Ok(()) => {
                self.stage = Stage::Linked;
                Ok(())
            },
            Err(e) => {
                self.stage = Stage::Failed(ErrorKind::Link);
                Err(HostError { kind: ErrorKind::Link, detail: e })
            },
        }
    }

    /// Records the loading and instantiation of the artifact. A failure there is
    /// a load or a link error and ends the session before any component code runs.
    pub fn instantiate(&mut self, outcome: Result<(), HostError>) -> (r: Result<(), HostError>)
        requires
            old(self).wf(),
            old(self).spec_stage() == Stage::Linked,
            outcome is Err ==> outcome->Err_0.kind == ErrorKind::Load || outcome->Err_0.kind
                == ErrorKind::Link,
        ensures
            final(self).wf(),
            final(self).spec_identity() == old(self).spec_identity(),
            final(self).spec_permissions() == old(self).spec_permissions(),
            final(self).spec_log() == old(self).spec_log(),
            final(self).spec_pending() is None,
            r == outcome,
            outcome is Ok ==> final(self).spec_stage() == Stage::Instantiated,
            outcome is Err ==> final(self).spec_stage() == Stage::Failed(outcome->Err_0.kind),
    {
        match &outcome {
            Ok(()) => {
                self.stage = Stage::Instantiated;
            },
            Err(e) => {
                self.stage = Stage::Failed(e.kind);
            },
        }
        outcome
    }

    /// Enters the entry point: from here on capability calls may arrive.
    pub fn start(&mut self)
        requires
            old(self).wf(),
            old(self).spec_stage() == Stage::Instantiated,
        ensures
            final(self).wf(),
            final(self).spec_identity() == old(self).spec_identity(),
            final(self).spec_permissions() == old(self).spec_permissions(),
            final(self).spec_log() == old(self).spec_log(),
            final(self).spec_pending() is None,
            final(self).spec_stage() == Stage::Running,
    {
        self.stage = Stage::Running;
    }

    /// Records how the entry point returned and ends the session.
    pub fn finish(&mut self, outcome: Result<String, String>) -> (r: Result<String, HostError>)
        requires
            old(self).wf(),
            old(self).spec_stage() == Stage::Running,
            old(self).spec_pending() is None,
        ensures
            final(self).wf(),
            final(self).spec_identity() == old(self).spec_identity(),
            final(self).spec_permissions() == old(self).spec_permissions(),
            final(self).spec_log() == old(self).spec_log(),
            final(self).spec_pending() is None,
            outcome is Ok ==> final(self).spec_stage() == Stage::Completed && r is Ok && r->Ok_0
                == outcome->Ok_0,
            outcome is Err ==> final(self).spec_stage() == Stage::Failed(ErrorKind::Runtime)
                && r is Err && r->Err_0.kind == ErrorKind::Runtime && r->Err_0.detail@
                == outcome->Err_0@,
    {
        match outcome {
            Ok(v) => {
                self.stage = Stage::Completed;
                Ok(v)
            },
            Err(e) => {
                self.stage = Stage::Failed(ErrorKind::Runtime);
                Err(HostError { kind: ErrorKind::Runtime, detail: e })
            },
        }
    }

    /// Decides a capability call against this session's own permission set.
    /// A refused call is audited at once and the host must not act on it; a
    /// granted one comes back unchanged, to be performed and then reported
    /// with `complete`.
    pub fn request(&mut self, req: Request) -> (r: Dispatch)
        requires
            old(self).wf(),
            old(self).spec_stage() == Stage::Running,
            old(self).spec_pending() is None,
        ensures
            final(self).wf(),
            final(self).spec_identity() == old(self).spec_identity(),
            final(self).spec_permissions() == old(self).spec_permissions(),
            final(self).spec_stage() == old(self).spec_stage(),
            old(self).spec_permissions()@.contains(req@.capability()) ==> {
                &&& r is Perform
                &&& r->Perform_0@ == req@
                &&& final(self).spec_pending() == Some(req@)
                &&& final(self).spec_log() == old(self).spec_log()
            },
            !old(self).spec_permissions()@.contains(req@.capability()) ==> {
                &&& r is Denied
                &&& r->Denied_0 == CallError::PermissionDenied(req@.capability())
                &&& final(self).spec_pending() is None
                &&& final(self).spec_log() == old(self).spec_log().push(
                    spec_denied_entry(old(self).spec_identity(), req@),
                )
            },
    {
        let cap = req.capability();
        if self.permissions.is_granted(cap) {
            self.pending = Some(req.duplicate());
            Dispatch::Perform(req)
        } else {
            let record = AuditRecord {
                component: self.identity.clone(),
                operation: req.operation(),
                target: req.target(),
                payload_bytes: None,
                outcome: Outcome::Denied,
                detail: String::new(),
            };
            self.records.push(record);
            assert(self.spec_log() =~= old(self).spec_log().push(
                spec_denied_entry(old(self).spec_identity(), req@),
            ));
            Dispatch::Denied(CallError::PermissionDenied(cap))
        }
    }

    /// Reports how the pending granted request went (on failure, the cause
    /// the operation gave), audits it, and gives the result that goes back to
    /// the component.
    pub fn complete(&mut self, performed: Result<String, String>) -> (r: Result<String, CallError>)
        requires
            old(self).wf(),
            old(self).spec_pending() is Some,
        ensures
            final(self).wf(),
            final(self).spec_identity() == old(self).spec_identity(),
            final(self).spec_permissions() == old(self).spec_permissions(),
            final(self).spec_stage() == old(self).spec_stage(),
            final(self).spec_pending() is None,
            (spec_reply(r), final(self).spec_log().last()) == spec_call(
                old(self).spec_permissions(),
                old(self).spec_identity(),
                old(self).spec_pending()->0,
                performed,
            ),
            final(self).spec_log() == old(self).spec_log().push(
                spec_allowed_entry(old(self).spec_identity(), old(self).spec_pending()->0, performed),
            ),
    {
        let req = self.pending.take().unwrap();
        let (outcome, detail, result) = match performed {
            Ok(v) => (Outcome::Succeeded, String::new(), Ok(v)),
            Err(e) => {
                let text = req.failure_text(e.as_str());
                (Outcome::Failed, text.clone(), Err(CallError::OperationFailed(text)))
            },
        };
        let record = AuditRecord {
            component: self.identity.clone(),
            operation: req.operation(),
            target: req.target(),
            payload_bytes: req.payload_bytes(),
            outcome,
            detail,
        };
        self.records.push(record);
        assert(self.spec_log() =~= old(self).spec_log().push(
            spec_allowed_entry(old(self).spec_identity(), req@, performed),
        ));
        result
    }
}

} // verus!

verus! {

/// A session that failed to load or to link its artifact has made no
/// capability call: its audit trail is empty. (Calls are accepted only while
/// the session is running, and no transition leaves a failed session.)
pub proof fn lemma_fatal_stage_no_calls(s: Session)
    requires
        s.wf(),
        s.spec_stage() == Stage::Failed(ErrorKind::Load) || s.spec_stage() == Stage::Failed(
            ErrorKind::Link,
        ),
    ensures
        s.spec_log().len() == 0,
{
}

} // verus!
