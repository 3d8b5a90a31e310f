//! Planning of the overlay's bind-mount population: which host entries are
//! bound where, the strict handling of an explicit bind list, and the
//! selective merge of the dependency store.

use vstd::prelude::*;

use crate::bind::{BindEntry, PathKind};
use crate::paths::{joined, join_path, file_name_spec, file_name_of};
use crate::probe::{ProbeOutcome, probe_found, path_present_after_probe};

verus! {

/// The reserved name under which the dependency store is mounted.
pub open spec fn store_name() -> Seq<char> {
    "nix"@
}

pub fn store_mount_name() -> (s: String)
    ensures
        s@ == store_name(),
{
    String::from_str("nix")
}

/// Whether a root entry's name is the reserved store mount point, which
/// auto-discovery leaves to the store merge.
pub fn is_store_entry(name: &String) -> (r: bool)
    ensures
        r == (name@ == store_name()),
{
    let nix = store_mount_name();
    name.eq(&nix)
}

/// One immediate child of the host root, with the outcome of its
/// existence probe.
#[derive(Clone, Debug)]
pub struct RootEntry {
    pub name: String,
    pub probe: ProbeOutcome,
    pub kind: PathKind,
}

/// The source path of a host root entry.
pub open spec fn root_source(name: Seq<char>) -> Seq<char> {
    seq!['/'] + name
}

/// An auto-discovered entry is bound when its name is not the reserved
/// store name and its probe found it.
pub open spec fn auto_selected(e: RootEntry) -> bool {
    e.name@ != store_name() && probe_found(e.probe)
}

/// The view of a bind plan: source, target and kind of each entry.
pub open spec fn bind_views(v: Seq<BindEntry>) -> Seq<(Seq<char>, Seq<char>, PathKind)> {
    v.map_values(|b: BindEntry| (b.source@, b.target@, b.kind))
}

/// The bind plan auto-discovery produces: every selected entry, in order,
/// bound from its root path onto the overlay path of the same name.
pub open spec fn auto_binds_spec(mount_dir: Seq<char>, entries: Seq<RootEntry>) -> Seq<
    (Seq<char>, Seq<char>, PathKind),
>
    decreases entries.len(),
{
    if entries.len() == 0 {
        Seq::empty()
    } else {
        let init = auto_binds_spec(mount_dir, entries.drop_last());
        let e = entries.last();
        if auto_selected(e) {
            init.push((root_source(e.name@), joined(mount_dir, e.name@), e.kind))
        } else {
            init
        }
    }
}

fn root_source_path(name: &String) -> (r: String)
    ensures
        r@ == root_source(name@),
{
    proof {
        reveal_strlit("/");
    }
    let s = String::from_str("/");
    let s = s.concat(name.as_str());
    proof {
        assert(s@ =~= root_source(name@));
    }
    s
}

/// Plans the bind mounts for the enumerated host root entries: the entry
/// whose name matches the reserved store mount point is excluded, entries
/// whose probe timed out, failed or found nothing are skipped, and every
/// other entry is bound in enumeration order.
pub fn plan_auto_binds(mount_dir: &String, entries: &Vec<RootEntry>) -> (v: Vec<BindEntry>)
    ensures
        bind_views(v@) == auto_binds_spec(mount_dir@, entries@),
{
    let mut v: Vec<BindEntry> = Vec::new();
    let mut i: usize = 0;
    while i < entries.len()
        invariant
            0 <= i <= entries@.len(),
            bind_views(v@) == auto_binds_spec(mount_dir@, entries@.subrange(0, i as int)),
        decreases entries@.len() - i,
    {
        let e = &entries[i];
        let ghost pre = entries@.subrange(0, i as int);
        let ghost post = entries@.subrange(0, i as int + 1);
        proof {
            assert(post.drop_last() =~= pre);
            assert(post.last() == entries@[i as int]);
        }
        if !is_store_entry(&e.name) && path_present_after_probe(&e.probe) {
            let b = BindEntry {
                source: root_source_path(&e.name),
                target: join_path(mount_dir, &e.name),
                kind: e.kind,
            };
            let ghost old_v = v@;
            v.push(b);
            proof {
                assert(bind_views(v@) =~= bind_views(old_v).push(
                    (b.source@, b.target@, b.kind),
                ));
                assert(bind_views(v@) =~= auto_binds_spec(mount_dir@, post));
            }
        } else {
            proof {
                assert(bind_views(v@) =~= auto_binds_spec(mount_dir@, post));
            }
        }
        i = i + 1;
    }
    proof {
        assert(entries@.subrange(0, entries@.len() as int) =~= entries@);
    }
    v
}

/// No bind the auto-discovery plan produces touches the reserved store
/// name: neither its source nor its target is the store path.
pub proof fn lemma_auto_binds_exclude_store(mount_dir: Seq<char>, entries: Seq<RootEntry>)
    ensures
        forall|j: int|
            0 <= j < auto_binds_spec(mount_dir, entries).len() ==> (#[trigger] auto_binds_spec(
                mount_dir,
                entries,
            )[j]).0 != root_source(store_name()),
        forall|j: int|
            0 <= j < auto_binds_spec(mount_dir, entries).len() ==> (#[trigger] auto_binds_spec(
                mount_dir,
                entries,
            )[j]).1 != joined(mount_dir, store_name()),
    decreases entries.len(),
{
    if entries.len() > 0 {
        lemma_auto_binds_exclude_store(mount_dir, entries.drop_last());
        let plan = auto_binds_spec(mount_dir, entries);
        let init = auto_binds_spec(mount_dir, entries.drop_last());
        let e = entries.last();
        if auto_selected(e) {
            assert(root_source(e.name@).subrange(1, root_source(e.name@).len() as int) =~= e.name@);
            if root_source(e.name@) == root_source(store_name()) {
                assert(root_source(store_name()).subrange(
                    1,
                    root_source(store_name()).len() as int,
                ) =~= store_name());
                assert(e.name@ == store_name());
            }
            let d = mount_dir.len() as int;
            assert(joined(mount_dir, e.name@).subrange(
                d + 1,
                joined(mount_dir, e.name@).len() as int,
            ) =~= e.name@);
            if joined(mount_dir, e.name@) == joined(mount_dir, store_name()) {
                assert(joined(mount_dir, store_name()).subrange(
                    d + 1,
                    joined(mount_dir, store_name()).len() as int,
                ) =~= store_name());
                assert(e.name@ == store_name());
            }
        }
        assert forall|j: int|
            0 <= j < plan.len() implies (#[trigger] plan[j]).0 != root_source(store_name()) && (
        plan[j]).1 != joined(mount_dir, store_name()) by {
            if auto_selected(e) {
                if j < init.len() {
                    assert(plan[j] == init[j]);
                } else {
                    assert(plan[j] == (root_source(e.name@), joined(mount_dir, e.name@), e.kind));
                }
            } else {
                assert(plan[j] == init[j]);
            }
        }
    }
}

/// One path of an explicit bind list, with whether its source exists.
#[derive(Clone, Debug)]
pub struct BindCandidate {
    pub path: String,
    pub exists: bool,
    pub kind: PathKind,
}

/// Why an explicit bind list is rejected as a whole.
#[derive(Clone, Debug)]
pub enum BindPlanError {
    /// A listed source path does not exist: the run aborts before any
    /// entry of the list is applied.
    SourceNotFound { path: String },
    /// A listed path has no final component to name the mount point.
    NoFileName { path: String },
}

/// A listed candidate is usable when its source exists and its path has a
/// final component.
pub open spec fn explicit_ok(c: BindCandidate) -> bool {
    c.exists && file_name_spec(c.path@) is Some
}

/// The bind plan of an explicit list, meaningful when every candidate is
/// usable: each path bound onto the overlay path of its final component.
pub open spec fn explicit_binds_spec(mount_dir: Seq<char>, cs: Seq<BindCandidate>) -> Seq<
    (Seq<char>, Seq<char>, PathKind),
>
    decreases cs.len(),
{
    if cs.len() == 0 {
        Seq::empty()
    } else {
        let init = explicit_binds_spec(mount_dir, cs.drop_last());
        let c = cs.last();
        init.push(
            (c.path@, joined(mount_dir, file_name_spec(c.path@).unwrap()), c.kind),
        )
    }
}

/// Plans the bind mounts of an explicit bind list, all or nothing: if any
/// listed source is missing the whole list is rejected with a not-found
/// error naming the first missing path, and no entry of it is planned.
pub fn plan_explicit_binds(mount_dir: &String, cs: &Vec<BindCandidate>) -> (r: Result<
    Vec<BindEntry>,
    BindPlanError,
>)
    ensures
        r is Ok <==> (forall|i: int| 0 <= i < cs@.len() ==> explicit_ok(#[trigger] cs@[i])),
        r matches Ok(v) ==> bind_views(v@) == explicit_binds_spec(mount_dir@, cs@),
        r matches Err(e) ==> (exists|i: int|
            {
                &&& 0 <= i < cs@.len()
                &&& !explicit_ok(#[trigger] cs@[i])
                &&& forall|k: int| 0 <= k < i ==> explicit_ok(#[trigger] cs@[k])
                &&& match e {
                    BindPlanError::SourceNotFound { path } => !cs@[i].exists && path@
                        == cs@[i].path@,
                    BindPlanError::NoFileName { path } => cs@[i].exists && path@ == cs@[i].path@,
                }
            }),
{
    let mut i: usize = 0;
    while i < cs.len()
        invariant
            0 <= i <= cs@.len(),
            forall|k: int| 0 <= k < i ==> explicit_ok(#[trigger] cs@[k]),
        decreases cs@.len() - i,
    {
        let c = &cs[i];
        if !c.exists {
            return Err(BindPlanError::SourceNotFound { path: c.path.clone() });
        }
        let name = file_name_of(c.path.as_str());
        match name {
            None => {
                return Err(BindPlanError::NoFileName { path: c.path.clone() });
            },
            Some(_) => {},
        }
        i = i + 1;
    }
    let mut v: Vec<BindEntry> = Vec::new();
    let mut j: usize = 0;
    while j < cs.len()
        invariant
            0 <= j <= cs@.len(),
            forall|k: int| 0 <= k < cs@.len() ==> explicit_ok(#[trigger] cs@[k]),
            bind_views(v@) == explicit_binds_spec(mount_dir@, cs@.subrange(0, j as int)),
        decreases cs@.len() - j,
    {
        let c = &cs[j];
        let ghost pre = cs@.subrange(0, j as int);
        let ghost post = cs@.subrange(0, j as int + 1);
        proof {
            assert(post.drop_last() =~= pre);
            assert(post.last() == cs@[j as int]);
        }
        let name = match file_name_of(c.path.as_str()) {
            Some(n) => n,
            None => {
                proof {
                    assert(explicit_ok(cs@[j as int]));
                    assert(false);
                }
                return Err(BindPlanError::NoFileName { path: c.path.clone() });
            },
        };
        let b = BindEntry {
            source: c.path.clone(),
            target: join_path(mount_dir, &name),
            kind: c.kind,
        };
        let ghost old_v = v@;
        v.push(b);
        proof {
            assert(bind_views(v@) =~= bind_views(old_v).push((b.source@, b.target@, b.kind)));
            assert(bind_views(v@) =~= explicit_binds_spec(mount_dir@, post));
        }
        j = j + 1;
    }
    proof {
        assert(cs@.subrange(0, cs@.len() as int) =~= cs@);
    }
    Ok(v)
}

/// One immediate child of the host's store directory.
#[derive(Clone, Debug)]
pub struct StoreChild {
    pub name: String,
    pub kind: PathKind,
}

/// A host store child is merged when it is a directory and the overlay's
/// store does not already hold an entry of that name: the bundle's own
/// content is never shadowed.
pub open spec fn merge_selected(c: StoreChild, present: Seq<Seq<char>>) -> bool {
    c.kind is Directory && !present.contains(c.name@)
}

/// The bind plan of the selective store merge: every selected host store
/// child, in order, bound under the overlay's store path.
pub open spec fn store_merge_spec(
    host_store: Seq<char>,
    overlay_store: Seq<char>,
    cs: Seq<StoreChild>,
    present: Seq<Seq<char>>,
) -> Seq<(Seq<char>, Seq<char>, PathKind)>
    decreases cs.len(),
{
    if cs.len() == 0 {
        Seq::empty()
    } else {
        let init = store_merge_spec(host_store, overlay_store, cs.drop_last(), present);
        let c = cs.last();
        if merge_selected(c, present) {
            init.push(
                (joined(host_store, c.name@), joined(overlay_store, c.name@), PathKind::Directory),
            )
        } else {
            init
        }
    }
}

/// Whether the overlay's store already holds an entry of this name.
fn contains_name(present: &Vec<String>, name: &String) -> (r: bool)
    ensures
        r == present@.map_values(|s: String| s@).contains(name@),
{
    let ghost pnames = present@.map_values(|s: String| s@);
    let mut i: usize = 0;
    while i < present.len()
        invariant
            0 <= i <= present@.len(),
            pnames == present@.map_values(|s: String| s@),
            forall|k: int| 0 <= k < i ==> #[trigger] pnames[k] != name@,
        decreases present@.len() - i,
    {
        if present[i].eq(name) {
            proof {
                assert(pnames[i as int] == name@);
                assert(pnames.contains(name@));
            }
            return true;
        }
        proof {
            assert(pnames[i as int] == present@[i as int]@);
        }
        i = i + 1;
    }
    proof {
        assert(!pnames.contains(name@)) by {
            if pnames.contains(name@) {
                let k = choose|k: int| 0 <= k < pnames.len() && pnames[k] == name@;
                assert(pnames[k] != name@);
            }
        }
    }
    false
}

/// Plans the selective merge of the host store into the overlay store:
/// each immediate child directory of the host store whose name is not
/// already present under the overlay's store path is bound there.
pub fn plan_store_merge(
    host_store: &String,
    overlay_store: &String,
    children: &Vec<StoreChild>,
    present: &Vec<String>,
) -> (v: Vec<BindEntry>)
    ensures
        bind_views(v@) == store_merge_spec(
            host_store@,
            overlay_store@,
            children@,
            present@.map_values(|s: String| s@),
        ),
{
    let ghost pnames = present@.map_values(|s: String| s@);
    let mut v: Vec<BindEntry> = Vec::new();
    let mut i: usize = 0;
    while i < children.len()
        invariant
            0 <= i <= children@.len(),
            pnames == present@.map_values(|s: String| s@),
            bind_views(v@) == store_merge_spec(
                host_store@,
                overlay_store@,
                children@.subrange(0, i as int),
                pnames,
            ),
        decreases children@.len() - i,
    {
        let c = &children[i];
        let ghost pre = children@.subrange(0, i as int);
        let ghost post = children@.subrange(0, i as int + 1);
        proof {
            assert(post.drop_last() =~= pre);
            assert(post.last() == children@[i as int]);
        }
        let is_dir = match c.kind {
            PathKind::Directory => true,
            PathKind::RegularFile => false,
        };
        if is_dir && !contains_name(present, &c.name) {
            let b = BindEntry {
                source: join_path(host_store, &c.name),
                target: join_path(overlay_store, &c.name),
                kind: PathKind::Directory,
            };
            let ghost old_v = v@;
            v.push(b);
            proof {
                assert(bind_views(v@) =~= bind_views(old_v).push(
                    (b.source@, b.target@, b.kind),
                ));
                assert(bind_views(v@) =~= store_merge_spec(
                    host_store@,
                    overlay_store@,
                    post,
                    pnames,
                ));
            }
        } else {
            proof {
                assert(bind_views(v@) =~= store_merge_spec(
                    host_store@,
                    overlay_store@,
                    post,
                    pnames,
                ));
            }
        }
        i = i + 1;
    }
    proof {
        assert(children@.subrange(0, children@.len() as int) =~= children@);
    }
    v
}

/// The store directory under a root: its `store` child.
pub fn store_dir_of(root: &String) -> (r: String)
    ensures
        r@ == joined(root@, "store"@),
{
    let name = String::from_str("store");
    join_path(root, &name)
}

/// Whether the overlay's store directory must be created before the merge:
/// only when it does not exist yet, and then as a directory with its
/// parents.
pub fn store_merge_prepare(overlay_store_exists: bool) -> (r: Option<crate::bind::PrepareAction>)
    ensures
        r is Some <==> !overlay_store_exists,
        r matches Some(p) ==> p is CreateDirAll,
{
    if overlay_store_exists {
        None
    } else {
        Some(crate::bind::PrepareAction::CreateDirAll)
    }
}

/// The bind of the bundled dependency store itself onto the overlay's
/// reserved store mount point.
pub fn store_bind_entry(mount_dir: &String, nix_dir: &String) -> (r: BindEntry)
    ensures
        r.source@ == nix_dir@,
        r.target@ == joined(mount_dir@, store_name()),
        r.kind is Directory,
{
    let name = store_mount_name();
    BindEntry {
        source: nix_dir.clone(),
        target: join_path(mount_dir, &name),
        kind: PathKind::Directory,
    }
}

} // verus!
