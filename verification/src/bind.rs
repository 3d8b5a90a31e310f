//! One recursive bind mount: the placeholder that must be created first,
//! the mount flags, and the failure policy for each of the two steps.

use vstd::prelude::*;

verus! {

/// What kind of filesystem object a bind source is.
#[derive(Clone, Copy, Debug, PartialEq, Eq, Structural)]
pub enum PathKind {
    Directory,
    RegularFile,
}

/// How the mount-point placeholder is created before the mount.
#[derive(Clone, Copy, Debug, PartialEq, Eq, Structural)]
pub enum PrepareAction {
    /// Create the target as a directory, with its parents.
    CreateDirAll,
    /// Create the target as an empty regular file.
    CreateEmptyFile,
}

/// The propagation-isolating flags every bind mount of the overlay uses:
/// a recursive bind, made a propagation slave and unbindable.
#[derive(Clone, Copy, Debug, PartialEq, Eq, Structural)]
pub struct BindMountFlags {
    pub bind: bool,
    pub recursive: bool,
    pub slave: bool,
    pub unbindable: bool,
}

/// One filesystem item to bind into the overlay.
#[derive(Clone, Debug, PartialEq, Eq)]
pub struct BindEntry {
    pub source: String,
    pub target: String,
    pub kind: PathKind,
}

/// A directory source gets a directory placeholder; any other source gets
/// an empty regular file.
pub fn prepare_action(kind: &PathKind) -> (r: PrepareAction)
    ensures
        r is CreateDirAll <==> kind is Directory,
        r is CreateEmptyFile <==> kind is RegularFile,
{
    match kind {
        PathKind::Directory => PrepareAction::CreateDirAll,
        PathKind::RegularFile => PrepareAction::CreateEmptyFile,
    }
}

/// The flags of every bind mount performed by the run.
pub fn bind_mount_flags() -> (r: BindMountFlags)
    ensures
        r.bind,
        r.recursive,
        r.slave,
        r.unbindable,
{
    BindMountFlags { bind: true, recursive: true, slave: true, unbindable: true }
}

/// One step of a bind operation.
#[derive(Clone, Copy, Debug, PartialEq, Eq, Structural)]
pub enum BindStep {
    /// Create the mount-point placeholder.
    Prepare(PrepareAction),
    /// Perform the bind mount with the given flags.
    MountCall(BindMountFlags),
}

/// The two steps that bind one source onto its target: the placeholder is
/// created first, matching the source's kind, and only then is the mount
/// attempted.
pub fn bind_steps(kind: &PathKind) -> (v: Vec<BindStep>)
    ensures
        v@.len() == 2,
        v@[0] == BindStep::Prepare(
            if kind is Directory {
                PrepareAction::CreateDirAll
            } else {
                PrepareAction::CreateEmptyFile
            },
        ),
        v@[1] matches BindStep::MountCall(f) && f.bind && f.recursive && f.slave && f.unbindable,
{
    let mut v: Vec<BindStep> = Vec::new();
    v.push(BindStep::Prepare(prepare_action(kind)));
    v.push(BindStep::MountCall(bind_mount_flags()));
    v
}

/// Which of the two steps of a bind operation failed.
#[derive(Clone, Copy, Debug, PartialEq, Eq, Structural)]
pub enum BindFailure {
    PlaceholderCreation,
    MountCall,
}

/// A failed placeholder creation aborts the run; a failed mount call is
/// only logged and the entry skipped, since special nodes cannot always be
/// bound and the overlay stays usable without them.
pub fn bind_failure_aborts(f: &BindFailure) -> (r: bool)
    ensures
        r <==> f is PlaceholderCreation,
{
    match f {
        BindFailure::PlaceholderCreation => true,
        BindFailure::MountCall => false,
    }
}

} // verus!
