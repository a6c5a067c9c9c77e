use vstd::prelude::*;
use crate::audit::{spec_error_message, spec_outcome_of, CallError, CallReply, Outcome};
use crate::capability::{Capability, RequestView};
use crate::permissions::PermissionSet;
use crate::session::{spec_call, spec_granted_result};

verus! {

/// A refused call never reaches the real operation: its result and its audit
/// entry are the same whatever that operation would have done, and the
/// result is a permission denial.
pub proof fn lemma_denial_has_no_side_effect(
    perms: PermissionSet,
    identity: Seq<char>,
    req: RequestView,
    a: Result<String, String>,
    b: Result<String, String>,
)
    requires
        !perms@.contains(req.capability()),
    ensures
        spec_call(perms, identity, req, a) == spec_call(perms, identity, req, b),
        spec_call(perms, identity, req, a).0 == CallReply::Denied(req.capability()),
        spec_call(perms, identity, req, a).1.outcome == Outcome::Denied,
{
}

/// A granted call hands back exactly what the requested operation gave, and
/// its audit entry names that operation and the argument it was given.
pub proof fn lemma_grant_performs_request(
    perms: PermissionSet,
    identity: Seq<char>,
    req: RequestView,
    performed: Result<String, String>,
)
    requires
        perms@.contains(req.capability()),
    ensures
        spec_call(perms, identity, req, performed).0 == spec_granted_result(req, performed),
        performed is Ok ==> spec_call(perms, identity, req, performed).0 == CallReply::Returned(
            performed->Ok_0@,
        ),
        spec_call(perms, identity, req, performed).1.operation == req.operation(),
        spec_call(perms, identity, req, performed).1.target == req.target(),
        spec_call(perms, identity, req, performed).1.outcome != Outcome::Denied,
{
}

/// Whether a call is refused depends on the session's own permission set
/// alone: two sets that agree on the capability give the same result and the
/// same audit entry, whatever else either of them grants.
pub proof fn lemma_session_isolation(
    p1: PermissionSet,
    p2: PermissionSet,
    identity: Seq<char>,
    req: RequestView,
    performed: Result<String, String>,
)
    ensures
        (spec_call(p1, identity, req, performed).1.outcome == Outcome::Denied) <==> !p1@.contains(
            req.capability(),
        ),
        p1@.contains(req.capability()) == p2@.contains(req.capability()) ==> spec_call(
            p1,
            identity,
            req,
            performed,
        ) == spec_call(p2, identity, req, performed),
{
}

/// Every call leaves one audit entry, attributed to the calling component,
/// naming the operation and its argument, whose outcome is the kind of the
/// result the component receives: denied, failed, or succeeded. A granted
/// call's entry also gives the size of any data it sends; a refused one's
/// gives none.
pub proof fn lemma_audit_matches_result(
    perms: PermissionSet,
    identity: Seq<char>,
    req: RequestView,
    performed: Result<String, String>,
)
    ensures
        spec_call(perms, identity, req, performed).1.outcome == spec_outcome_of(
            spec_call(perms, identity, req, performed).0,
        ),
        spec_call(perms, identity, req, performed).1.component == identity,
        spec_call(perms, identity, req, performed).1.operation == req.operation(),
        spec_call(perms, identity, req, performed).1.target == req.target(),
        perms@.contains(req.capability()) ==> spec_call(perms, identity, req, performed).1.payload_bytes
            == req.payload_bytes(),
        !perms@.contains(req.capability()) ==> spec_call(
            perms,
            identity,
            req,
            performed,
        ).1.payload_bytes is None,
{
}

/// The text of a failed operation can never be mistaken for a denial: it
/// does not even begin as a denial message does.
pub proof fn lemma_failure_distinct_from_denial(
    perms: PermissionSet,
    identity: Seq<char>,
    req: RequestView,
    performed: Result<String, String>,
    c: Capability,
)
    requires
        perms@.contains(req.capability()),
        performed is Err,
    ensures
        spec_call(perms, identity, req, performed).0 is Failed,
        spec_call(perms, identity, req, performed).0->Failed_0[0] != spec_error_message(
            CallError::PermissionDenied(c),
        )[0],
{
    reveal_strlit("Permission denied: ");
    reveal_strlit("Failed to read file '");
    reveal_strlit("Failed to write file '");
    reveal_strlit("HTTP GET to '");
    reveal_strlit("HTTP POST to '");
}

} // verus!
