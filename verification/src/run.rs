//! The run itself: its configuration, the fixed sequence of stages, the
//! foundational mount requests, the root switch, the final process image,
//! and how a failure at each stage is classified.

use vstd::prelude::*;

use crate::namespace::NamespaceRequest;

verus! {

/// The immutable input of one run.
pub struct RunConfiguration {
    /// Explicit list of paths to bind, or nothing for auto-discovery of
    /// the host root's entries.
    pub binds: Option<Vec<String>>,
    /// The bundled dependency-store directory.
    pub nix_dir: String,
    /// The overlay root directory that receives the tmpfs and the binds.
    pub mount_dir: String,
    /// The program that replaces this process at the end.
    pub entrypoint: String,
    /// The argument vector handed to the entrypoint.
    pub args: Vec<String>,
    /// Whether a user namespace must be combined with the mount
    /// namespace; true whenever the caller is not privileged.
    pub require_user_namespace: bool,
    /// How long one existence probe may take, in milliseconds.
    pub mount_timeout_ms: u64,
}

/// The default bound of one existence probe: five seconds.
pub fn default_mount_timeout_ms() -> (r: u64)
    ensures
        r == 5000,
{
    5000
}

/// The stages of a run, in the order they are performed.
#[derive(Clone, Copy, Debug, PartialEq, Eq, Structural)]
pub enum Stage {
    /// Request the new namespaces.
    CreateNamespace,
    /// Write the identity-map control files.
    WriteIdentityMaps,
    /// Remount the host root recursively as a propagation slave.
    MarkRootPrivate,
    /// Mount the tmpfs overlay root.
    MountOverlayTmpfs,
    /// Bind the host root's entries (or the explicit list) into the
    /// overlay.
    BindRootEntries,
    /// Merge the dependency store.
    MergeStore,
    /// Switch the process root to the overlay.
    SwitchRoot,
    /// Replace the process image with the entrypoint.
    ExecuteEntrypoint,
}

/// A stage that performs mount activity inside the new namespace.
pub open spec fn is_mount_stage(s: Stage) -> bool {
    s is MarkRootPrivate || s is MountOverlayTmpfs || s is BindRootEntries || s is MergeStore
}

/// The full sequence of stages: identity maps are written exactly when a
/// user namespace is required, and then right after namespace creation,
/// before any mount activity.
pub open spec fn run_plan(require_user_namespace: bool) -> Seq<Stage> {
    if require_user_namespace {
        seq![
            Stage::CreateNamespace,
            Stage::WriteIdentityMaps,
            Stage::MarkRootPrivate,
            Stage::MountOverlayTmpfs,
            Stage::BindRootEntries,
            Stage::MergeStore,
            Stage::SwitchRoot,
            Stage::ExecuteEntrypoint,
        ]
    } else {
        seq![
            Stage::CreateNamespace,
            Stage::MarkRootPrivate,
            Stage::MountOverlayTmpfs,
            Stage::BindRootEntries,
            Stage::MergeStore,
            Stage::SwitchRoot,
            Stage::ExecuteEntrypoint,
        ]
    }
}

/// Builds the stage sequence of a run.
pub fn run_stages(require_user_namespace: bool) -> (v: Vec<Stage>)
    ensures
        v@ == run_plan(require_user_namespace),
{
    let mut v: Vec<Stage> = Vec::new();
    v.push(Stage::CreateNamespace);
    if require_user_namespace {
        v.push(Stage::WriteIdentityMaps);
    }
    v.push(Stage::MarkRootPrivate);
    v.push(Stage::MountOverlayTmpfs);
    v.push(Stage::BindRootEntries);
    v.push(Stage::MergeStore);
    v.push(Stage::SwitchRoot);
    v.push(Stage::ExecuteEntrypoint);
    proof {
        assert(v@ =~= run_plan(require_user_namespace));
    }
    v
}

/// Identity maps are part of the plan exactly when a user namespace is
/// required, and then they are written before any mount activity.
pub proof fn lemma_identity_maps_precede_mounts(require_user_namespace: bool)
    ensures
        require_user_namespace <==> run_plan(require_user_namespace).contains(
            Stage::WriteIdentityMaps,
        ),
        forall|i: int, j: int|
            #![trigger run_plan(require_user_namespace)[i], run_plan(require_user_namespace)[j]]
            0 <= i < run_plan(require_user_namespace).len() && 0 <= j < run_plan(
                require_user_namespace,
            ).len() && run_plan(require_user_namespace)[i] == Stage::WriteIdentityMaps
                && is_mount_stage(run_plan(require_user_namespace)[j]) ==> i < j,
{
    let plan = run_plan(require_user_namespace);
    if require_user_namespace {
        assert(plan[1] == Stage::WriteIdentityMaps);
        assert(plan.contains(Stage::WriteIdentityMaps));
    } else {
        assert forall|i: int| 0 <= i < plan.len() implies #[trigger] plan[i]
            != Stage::WriteIdentityMaps by {}
        if plan.contains(Stage::WriteIdentityMaps) {
            let i = choose|i: int|
                0 <= i < plan.len() && #[trigger] plan[i] == Stage::WriteIdentityMaps;
        }
    }
}

/// The namespace is created before everything else, and the root switch
/// and the final image replacement come after every mount stage.
pub proof fn lemma_stage_order(require_user_namespace: bool)
    ensures
        run_plan(require_user_namespace)[0] == Stage::CreateNamespace,
        forall|i: int, j: int|
            #![trigger run_plan(require_user_namespace)[i], run_plan(require_user_namespace)[j]]
            0 <= i < run_plan(require_user_namespace).len() && 0 <= j < run_plan(
                require_user_namespace,
            ).len() && is_mount_stage(run_plan(require_user_namespace)[i]) && (run_plan(
                require_user_namespace,
            )[j] is SwitchRoot || run_plan(require_user_namespace)[j] is ExecuteEntrypoint) ==> i
                < j,
{
}

/// The request that isolates mount propagation before any further mount
/// activity: the host root remounted recursively as a propagation slave.
pub struct PropagationRequest {
    pub target: String,
    pub slave: bool,
    pub recursive: bool,
}

pub fn root_propagation_request() -> (r: PropagationRequest)
    ensures
        r.target@ == "/"@,
        r.slave,
        r.recursive,
{
    PropagationRequest { target: String::from_str("/"), slave: true, recursive: true }
}

/// The tmpfs mount that becomes the writable overlay root: mounted at the
/// configured directory, set-uid and set-gid not honored, mode 0755.
pub struct OverlayMountRequest {
    pub target: String,
    pub fstype_name: String,
    pub nosuid: bool,
    pub options: String,
}

pub fn overlay_mount_request(mount_dir: &String) -> (r: OverlayMountRequest)
    ensures
        r.target@ == mount_dir@,
        r.fstype_name@ == "tmpfs"@,
        r.nosuid,
        r.options@ == "mode=755"@,
{
    OverlayMountRequest {
        target: mount_dir.clone(),
        fstype_name: String::from_str("tmpfs"),
        nosuid: true,
        options: String::from_str("mode=755"),
    }
}

/// The root switch: the new root is the overlay, and the working directory
/// captured before the switch is re-resolved inside the new root right
/// after it. Failing to re-resolve it is fatal; there is no fallback
/// directory.
pub struct SwitchRootPlan {
    pub new_root: String,
    pub restore_working_dir: String,
}

pub fn switch_root_plan(overlay_root: &String, saved_working_dir: &String) -> (r: SwitchRootPlan)
    ensures
        r.new_root@ == overlay_root@,
        r.restore_working_dir@ == saved_working_dir@,
{
    SwitchRootPlan {
        new_root: overlay_root.clone(),
        restore_working_dir: saved_working_dir.clone(),
    }
}

/// The image that replaces this process: the entrypoint, the argument
/// vector unchanged, and a minimal fixed environment holding only the
/// terminal-type variable.
pub struct ProcessImage {
    pub program: String,
    pub argv: Vec<String>,
    pub env: Vec<String>,
}

pub fn process_image(entrypoint: String, args: Vec<String>) -> (r: ProcessImage)
    ensures
        r.program@ == entrypoint@,
        r.argv == args,
        r.env@.len() == 1,
        r.env@[0]@ == "TERM=xterm-256color"@,
{
    let mut env: Vec<String> = Vec::new();
    env.push(String::from_str("TERM=xterm-256color"));
    ProcessImage { program: entrypoint, argv: args, env }
}

/// The flag prefix reserved for the launcher's own options, so arbitrary
/// flags can be forwarded verbatim to the wrapped entrypoint without
/// collision.
pub open spec fn launcher_prefix() -> Seq<char> {
    "--apprun-"@
}

pub open spec fn has_launcher_prefix(a: Seq<char>) -> bool {
    a.len() >= launcher_prefix().len() && a.subrange(0, launcher_prefix().len() as int)
        == launcher_prefix()
}

/// Where one command-line argument goes.
#[derive(Clone, Debug, PartialEq, Eq)]
pub enum ArgRoute {
    /// One of the launcher's own flags: the reserved prefix is replaced by
    /// a plain `--` before flag parsing.
    Launcher(String),
    /// Forwarded verbatim to the wrapped entrypoint's argument vector.
    Passthrough,
}

/// Routes one argument: an argument carrying the reserved prefix belongs
/// to the launcher, stripped down to an ordinary flag; every other
/// argument passes through untouched.
pub fn route_argument(arg: &String) -> (r: ArgRoute)
    ensures
        r is Launcher <==> has_launcher_prefix(arg@),
        r matches ArgRoute::Launcher(s) ==> s@ == "--"@ + arg@.subrange(
            launcher_prefix().len() as int,
            arg@.len() as int,
        ),
{
    proof {
        reveal_strlit("--apprun-");
    }
    let p = "--apprun-";
    let plen = p.unicode_len();
    let n = arg.as_str().unicode_len();
    if n < plen {
        return ArgRoute::Passthrough;
    }
    let mut i: usize = 0;
    while i < plen
        invariant
            0 <= i <= plen,
            plen == launcher_prefix().len(),
            p@ == launcher_prefix(),
            n == arg@.len(),
            n >= plen,
            forall|k: int| 0 <= k < i ==> arg@[k] == launcher_prefix()[k],
        decreases plen - i,
    {
        if arg.as_str().get_char(i) != p.get_char(i) {
            proof {
                assert(arg@.subrange(0, plen as int)[i as int] != launcher_prefix()[i as int]);
            }
            return ArgRoute::Passthrough;
        }
        i = i + 1;
    }
    proof {
        assert(arg@.subrange(0, plen as int) =~= launcher_prefix());
    }
    let rest = arg.as_str().substring_char(plen, n);
    let s = String::from_str("--").concat(rest);
    proof {
        assert(s@ =~= "--"@ + arg@.subrange(launcher_prefix().len() as int, arg@.len() as int));
    }
    ArgRoute::Launcher(s)
}

/// The facts checked before any namespace or mount state is touched.
pub struct ConfigFacts {
    pub store_dir_exists: bool,
    pub overlay_dir_exists: bool,
    pub entrypoint_is_symlink: bool,
}

/// What is wrong with a configuration, checked in a fixed order.
#[derive(Clone, Copy, Debug, PartialEq, Eq, Structural)]
pub enum ConfigIssue {
    StoreDirMissing,
    OverlayDirMissing,
    EntrypointMissing,
}

/// Validates the configuration before the run touches anything: the store
/// directory and the overlay directory must exist, and the default
/// entrypoint must be a symbolic link (checked by link metadata).
pub fn validate_configuration(f: &ConfigFacts) -> (r: Option<ConfigIssue>)
    ensures
        r is None <==> (f.store_dir_exists && f.overlay_dir_exists && f.entrypoint_is_symlink),
        !f.store_dir_exists ==> r == Some(ConfigIssue::StoreDirMissing),
        f.store_dir_exists && !f.overlay_dir_exists ==> r == Some(ConfigIssue::OverlayDirMissing),
        f.store_dir_exists && f.overlay_dir_exists && !f.entrypoint_is_symlink ==> r == Some(
            ConfigIssue::EntrypointMissing,
        ),
{
    if !f.store_dir_exists {
        Some(ConfigIssue::StoreDirMissing)
    } else if !f.overlay_dir_exists {
        Some(ConfigIssue::OverlayDirMissing)
    } else if !f.entrypoint_is_symlink {
        Some(ConfigIssue::EntrypointMissing)
    } else {
        None
    }
}

/// The unrecoverable errors of a run.
#[derive(Clone, Copy, Debug, PartialEq, Eq, Structural)]
pub enum RunError {
    /// Namespace creation rejected with no user-namespace fallback.
    Privilege,
    /// A control-file write was rejected; no rollback exists.
    IdentityMap,
    /// A foundational mount failed.
    Mount,
    /// The root switch or the working-directory restoration failed.
    SwitchRootFailed,
    /// Replacing the process image failed; nothing can follow.
    ExecFailed,
}

/// What the run does when a stage fails.
#[derive(Clone, Copy, Debug, PartialEq, Eq, Structural)]
pub enum FailurePolicy {
    Fatal(RunError),
    Proceed,
}

/// Classifies a stage failure. Every stage is all-or-nothing except
/// namespace creation with a user namespace requested, whose rejection
/// surfaces at the identity-map writes instead. Failures of individual
/// bind entries are decided separately, by the bind module; a failure of
/// the bind stage itself means a placeholder could not be created.
pub fn on_stage_failure(stage: &Stage, req: &NamespaceRequest) -> (r: FailurePolicy)
    ensures
        stage is CreateNamespace && req is MountOnly ==> r == FailurePolicy::Fatal(
            RunError::Privilege,
        ),
        stage is CreateNamespace && req is MountAndUser ==> r is Proceed,
        stage is WriteIdentityMaps ==> r == FailurePolicy::Fatal(RunError::IdentityMap),
        is_mount_stage(*stage) ==> r == FailurePolicy::Fatal(RunError::Mount),
        stage is SwitchRoot ==> r == FailurePolicy::Fatal(RunError::SwitchRootFailed),
        stage is ExecuteEntrypoint ==> r == FailurePolicy::Fatal(RunError::ExecFailed),
{
    match stage {
        Stage::CreateNamespace => {
            match req {
                NamespaceRequest::MountOnly => FailurePolicy::Fatal(RunError::Privilege),
                NamespaceRequest::MountAndUser => FailurePolicy::Proceed,
            }
        },
        Stage::WriteIdentityMaps => FailurePolicy::Fatal(RunError::IdentityMap),
        Stage::MarkRootPrivate => FailurePolicy::Fatal(RunError::Mount),
        Stage::MountOverlayTmpfs => FailurePolicy::Fatal(RunError::Mount),
        Stage::BindRootEntries => FailurePolicy::Fatal(RunError::Mount),
        Stage::MergeStore => FailurePolicy::Fatal(RunError::Mount),
        Stage::SwitchRoot => FailurePolicy::Fatal(RunError::SwitchRootFailed),
        Stage::ExecuteEntrypoint => FailurePolicy::Fatal(RunError::ExecFailed),
    }
}

} // verus!
