//! Namespace creation decisions: which namespaces to request, whether the
//! identity mapping must follow, and how a rejected request is classified.

use vstd::prelude::*;

verus! {

/// Which namespaces the run requests from the kernel.
#[derive(Clone, Copy, Debug, PartialEq, Eq, Structural)]
pub enum NamespaceRequest {
    /// A new mount namespace only; requires an already privileged caller.
    MountOnly,
    /// A new mount namespace combined with a new user namespace.
    MountAndUser,
}

pub open spec fn includes_user(r: NamespaceRequest) -> bool {
    r is MountAndUser
}

/// An unprivileged caller must request the combined mount + user namespace,
/// never the mount namespace alone; a privileged caller needs no user
/// namespace.
pub fn namespace_request(privileged: bool) -> (r: NamespaceRequest)
    ensures
        r is MountAndUser <==> !privileged,
        r is MountOnly <==> privileged,
{
    if privileged {
        NamespaceRequest::MountOnly
    } else {
        NamespaceRequest::MountAndUser
    }
}

/// Whether the request obliges the run to write identity maps before any
/// mount operation in the new namespace.
pub fn request_includes_user(r: &NamespaceRequest) -> (b: bool)
    ensures
        b == includes_user(*r),
{
    match r {
        NamespaceRequest::MountOnly => false,
        NamespaceRequest::MountAndUser => true,
    }
}

/// What the run does after the namespace request returns.
#[derive(Clone, Copy, Debug, PartialEq, Eq, Structural)]
pub enum NamespaceOutcome {
    /// Go on; `map_identity` says whether identity maps must now be
    /// written, before any other mount operation.
    Proceed { map_identity: bool },
    /// Abort: the request was rejected and no user namespace was asked
    /// for, which signals insufficient privilege.
    FailPrivilege,
}

/// Classifies the result of the namespace request. A rejection without a
/// user-namespace fallback is fatal; otherwise the run proceeds, and maps
/// identities exactly when a user namespace was requested.
pub fn on_namespace_result(req: &NamespaceRequest, ok: bool) -> (r: NamespaceOutcome)
    ensures
        r is FailPrivilege <==> (!ok && req is MountOnly),
        r matches NamespaceOutcome::Proceed { map_identity } ==> map_identity == includes_user(
            *req,
        ),
{
    if !ok && matches!(req, NamespaceRequest::MountOnly) {
        NamespaceOutcome::FailPrivilege
    } else {
        NamespaceOutcome::Proceed { map_identity: request_includes_user(req) }
    }
}

/// The actionable hint reported when the namespace request is rejected for
/// a caller that asked for no user namespace.
pub fn privilege_error_hint() -> (s: String)
    ensures
        s@ == "failed to create the mount namespace: likely not running with sufficient privilege (try running as root)"@,
{
    String::from_str(
        "failed to create the mount namespace: likely not running with sufficient privilege (try running as root)",
    )
}

} // verus!
