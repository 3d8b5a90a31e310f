use nix_apprun::bind::{
    BindFailure, BindStep, PathKind, PrepareAction, bind_failure_aborts, bind_mount_flags,
    bind_steps, prepare_action,
};
use nix_apprun::namespace::{
    NamespaceOutcome, NamespaceRequest, namespace_request, on_namespace_result,
    privilege_error_hint, request_includes_user,
};
use nix_apprun::overlay::{
    BindCandidate, BindPlanError, RootEntry, StoreChild, is_store_entry, plan_auto_binds,
    plan_explicit_binds, plan_store_merge, store_bind_entry, store_dir_of, store_mount_name,
};
use nix_apprun::paths::{file_name_of, join_path};
use nix_apprun::probe::{ProbeOutcome, SkipReason, path_present_after_probe, skip_reason};
use nix_apprun::overlay::store_merge_prepare;
use nix_apprun::run::{
    ArgRoute, ConfigFacts, ConfigIssue, FailurePolicy, RunError, Stage, default_mount_timeout_ms,
    on_stage_failure, overlay_mount_request, process_image, root_propagation_request,
    route_argument, run_stages, switch_root_plan, validate_configuration,
};

fn dir_entry(name: &str, probe: ProbeOutcome) -> RootEntry {
    RootEntry { name: name.to_string(), probe, kind: PathKind::Directory }
}

#[test]
fn unprivileged_callers_get_a_user_namespace() {
    assert_eq!(namespace_request(false), NamespaceRequest::MountAndUser);
    assert_eq!(namespace_request(true), NamespaceRequest::MountOnly);
    assert!(request_includes_user(&NamespaceRequest::MountAndUser));
    assert!(!request_includes_user(&NamespaceRequest::MountOnly));
}

#[test]
fn rejected_namespace_without_user_fallback_is_a_privilege_error() {
    assert_eq!(
        on_namespace_result(&NamespaceRequest::MountOnly, false),
        NamespaceOutcome::FailPrivilege
    );
    assert_eq!(
        on_namespace_result(&NamespaceRequest::MountOnly, true),
        NamespaceOutcome::Proceed { map_identity: false }
    );
    assert_eq!(
        on_namespace_result(&NamespaceRequest::MountAndUser, true),
        NamespaceOutcome::Proceed { map_identity: true }
    );
    assert_eq!(
        on_namespace_result(&NamespaceRequest::MountAndUser, false),
        NamespaceOutcome::Proceed { map_identity: true }
    );
    assert!(privilege_error_hint().contains("privilege"));
}

#[test]
fn placeholders_match_the_source_kind_and_precede_the_mount() {
    assert_eq!(prepare_action(&PathKind::Directory), PrepareAction::CreateDirAll);
    assert_eq!(prepare_action(&PathKind::RegularFile), PrepareAction::CreateEmptyFile);
    let steps = bind_steps(&PathKind::Directory);
    assert_eq!(steps.len(), 2);
    assert_eq!(steps[0], BindStep::Prepare(PrepareAction::CreateDirAll));
    assert!(matches!(steps[1], BindStep::MountCall(_)));
    let steps = bind_steps(&PathKind::RegularFile);
    assert_eq!(steps[0], BindStep::Prepare(PrepareAction::CreateEmptyFile));
    let flags = bind_mount_flags();
    assert!(flags.bind && flags.recursive && flags.slave && flags.unbindable);
}

#[test]
fn only_a_failed_placeholder_aborts_a_bind() {
    assert!(bind_failure_aborts(&BindFailure::PlaceholderCreation));
    assert!(!bind_failure_aborts(&BindFailure::MountCall));
}

#[test]
fn uncertain_probes_mean_not_existing() {
    assert!(path_present_after_probe(&ProbeOutcome::Completed(true)));
    assert!(!path_present_after_probe(&ProbeOutcome::Completed(false)));
    assert!(!path_present_after_probe(&ProbeOutcome::CheckError));
    assert!(!path_present_after_probe(&ProbeOutcome::TimedOut));
    assert_eq!(skip_reason(&ProbeOutcome::Completed(true)), None);
    assert_eq!(skip_reason(&ProbeOutcome::Completed(false)), Some(SkipReason::NotPresent));
    assert_eq!(skip_reason(&ProbeOutcome::TimedOut), Some(SkipReason::ProbeTimedOut));
    assert_eq!(skip_reason(&ProbeOutcome::CheckError), Some(SkipReason::ProbeFailed));
}

#[test]
fn path_text_helpers() {
    assert_eq!(join_path(&"/mnt".to_string(), &"bin".to_string()), "/mnt/bin");
    assert_eq!(file_name_of("/usr/local"), Some("local".to_string()));
    assert_eq!(file_name_of("usr"), Some("usr".to_string()));
    assert_eq!(file_name_of("/a/b/c.txt"), Some("c.txt".to_string()));
    assert_eq!(file_name_of("/"), None);
    assert_eq!(file_name_of(""), None);
    assert_eq!(file_name_of("a/"), None);
}

#[test]
fn auto_discovery_excludes_the_store_entry_and_skips_uncertain_paths() {
    assert!(is_store_entry(&"nix".to_string()));
    assert!(!is_store_entry(&"bin".to_string()));
    let entries = vec![
        dir_entry("bin", ProbeOutcome::Completed(true)),
        dir_entry("etc", ProbeOutcome::Completed(true)),
        dir_entry("nix", ProbeOutcome::Completed(true)),
        dir_entry("slow", ProbeOutcome::TimedOut),
        dir_entry("broken", ProbeOutcome::CheckError),
        dir_entry("gone", ProbeOutcome::Completed(false)),
        RootEntry {
            name: "vmlinuz".to_string(),
            probe: ProbeOutcome::Completed(true),
            kind: PathKind::RegularFile,
        },
    ];
    let plan = plan_auto_binds(&"/mnt".to_string(), &entries);
    assert_eq!(plan.len(), 3);
    assert_eq!(plan[0].source, "/bin");
    assert_eq!(plan[0].target, "/mnt/bin");
    assert_eq!(plan[0].kind, PathKind::Directory);
    assert_eq!(plan[1].source, "/etc");
    assert_eq!(plan[1].target, "/mnt/etc");
    assert_eq!(plan[2].source, "/vmlinuz");
    assert_eq!(plan[2].target, "/mnt/vmlinuz");
    assert_eq!(plan[2].kind, PathKind::RegularFile);
    for b in &plan {
        assert_ne!(b.source, "/nix");
        assert_ne!(b.target, "/mnt/nix");
    }
}

#[test]
fn explicit_bind_list_is_all_or_nothing() {
    let ok = vec![
        BindCandidate { path: "/usr".to_string(), exists: true, kind: PathKind::Directory },
        BindCandidate { path: "/etc/hosts".to_string(), exists: true, kind: PathKind::RegularFile },
    ];
    let plan = plan_explicit_binds(&"/mnt".to_string(), &ok).unwrap();
    assert_eq!(plan.len(), 2);
    assert_eq!(plan[0].source, "/usr");
    assert_eq!(plan[0].target, "/mnt/usr");
    assert_eq!(plan[1].source, "/etc/hosts");
    assert_eq!(plan[1].target, "/mnt/hosts");
    assert_eq!(plan[1].kind, PathKind::RegularFile);

    // One missing source rejects the whole list before anything is planned.
    let bad = vec![BindCandidate {
        path: "/missing".to_string(),
        exists: false,
        kind: PathKind::Directory,
    }];
    match plan_explicit_binds(&"/mnt".to_string(), &bad) {
        Err(BindPlanError::SourceNotFound { path }) => assert_eq!(path, "/missing"),
        _ => panic!("a missing source must reject the list"),
    }
    let mixed = vec![
        BindCandidate { path: "/usr".to_string(), exists: true, kind: PathKind::Directory },
        BindCandidate { path: "/missing".to_string(), exists: false, kind: PathKind::Directory },
    ];
    match plan_explicit_binds(&"/mnt".to_string(), &mixed) {
        Err(BindPlanError::SourceNotFound { path }) => assert_eq!(path, "/missing"),
        _ => panic!("a missing source must reject the list"),
    }

    // A path without a final component cannot name a mount point.
    let unnamed = vec![BindCandidate {
        path: "/usr/".to_string(),
        exists: true,
        kind: PathKind::Directory,
    }];
    match plan_explicit_binds(&"/mnt".to_string(), &unnamed) {
        Err(BindPlanError::NoFileName { path }) => assert_eq!(path, "/usr/"),
        _ => panic!("a path without a final component must reject the list"),
    }
}

#[test]
fn store_merge_fills_only_the_gaps() {
    let children = vec![
        StoreChild { name: "a".to_string(), kind: PathKind::Directory },
        StoreChild { name: "b".to_string(), kind: PathKind::Directory },
        StoreChild { name: "note".to_string(), kind: PathKind::RegularFile },
    ];
    let present = vec!["a".to_string()];
    let plan = plan_store_merge(
        &"/nix/store".to_string(),
        &"/mnt/nix/store".to_string(),
        &children,
        &present,
    );
    assert_eq!(plan.len(), 1);
    assert_eq!(plan[0].source, "/nix/store/b");
    assert_eq!(plan[0].target, "/mnt/nix/store/b");
    assert_eq!(plan[0].kind, PathKind::Directory);
}

#[test]
fn the_bundled_store_is_bound_at_the_reserved_name() {
    assert_eq!(store_mount_name(), "nix");
    let b = store_bind_entry(&"/mnt".to_string(), &"/opt/bundle/nix".to_string());
    assert_eq!(b.source, "/opt/bundle/nix");
    assert_eq!(b.target, "/mnt/nix");
    assert_eq!(b.kind, PathKind::Directory);
    assert_eq!(store_dir_of(&"/opt/bundle/nix".to_string()), "/opt/bundle/nix/store");
}

#[test]
fn configuration_is_checked_before_anything_runs() {
    let all = ConfigFacts {
        store_dir_exists: true,
        overlay_dir_exists: true,
        entrypoint_is_symlink: true,
    };
    assert_eq!(validate_configuration(&all), None);
    let f = ConfigFacts { store_dir_exists: false, ..all };
    assert_eq!(validate_configuration(&f), Some(ConfigIssue::StoreDirMissing));
    let f = ConfigFacts { overlay_dir_exists: false, ..all };
    assert_eq!(validate_configuration(&f), Some(ConfigIssue::OverlayDirMissing));
    let f = ConfigFacts { entrypoint_is_symlink: false, ..all };
    assert_eq!(validate_configuration(&f), Some(ConfigIssue::EntrypointMissing));
}

#[test]
fn stage_failures_are_classified() {
    let user = NamespaceRequest::MountAndUser;
    let plain = NamespaceRequest::MountOnly;
    assert_eq!(
        on_stage_failure(&Stage::CreateNamespace, &plain),
        FailurePolicy::Fatal(RunError::Privilege)
    );
    assert_eq!(on_stage_failure(&Stage::CreateNamespace, &user), FailurePolicy::Proceed);
    assert_eq!(
        on_stage_failure(&Stage::WriteIdentityMaps, &user),
        FailurePolicy::Fatal(RunError::IdentityMap)
    );
    assert_eq!(
        on_stage_failure(&Stage::MarkRootPrivate, &user),
        FailurePolicy::Fatal(RunError::Mount)
    );
    assert_eq!(
        on_stage_failure(&Stage::MountOverlayTmpfs, &user),
        FailurePolicy::Fatal(RunError::Mount)
    );
    assert_eq!(
        on_stage_failure(&Stage::SwitchRoot, &user),
        FailurePolicy::Fatal(RunError::SwitchRootFailed)
    );
    assert_eq!(
        on_stage_failure(&Stage::ExecuteEntrypoint, &user),
        FailurePolicy::Fatal(RunError::ExecFailed)
    );
}

#[test]
fn identity_maps_come_right_after_the_namespace_and_before_any_mount() {
    let with_user = run_stages(true);
    assert_eq!(
        with_user,
        vec![
            Stage::CreateNamespace,
            Stage::WriteIdentityMaps,
            Stage::MarkRootPrivate,
            Stage::MountOverlayTmpfs,
            Stage::BindRootEntries,
            Stage::MergeStore,
            Stage::SwitchRoot,
            Stage::ExecuteEntrypoint,
        ]
    );
    let without_user = run_stages(false);
    assert_eq!(
        without_user,
        vec![
            Stage::CreateNamespace,
            Stage::MarkRootPrivate,
            Stage::MountOverlayTmpfs,
            Stage::BindRootEntries,
            Stage::MergeStore,
            Stage::SwitchRoot,
            Stage::ExecuteEntrypoint,
        ]
    );
}

#[test]
fn foundational_mount_requests() {
    let p = root_propagation_request();
    assert_eq!(p.target, "/");
    assert!(p.slave && p.recursive);
    let o = overlay_mount_request(&"/mnt".to_string());
    assert_eq!(o.target, "/mnt");
    assert_eq!(o.fstype_name, "tmpfs");
    assert!(o.nosuid);
    assert_eq!(o.options, "mode=755");
    assert_eq!(default_mount_timeout_ms(), 5000);
}

#[test]
fn the_final_image_keeps_args_and_a_minimal_environment() {
    let args = vec!["app".to_string(), "--flag".to_string()];
    let image = process_image("/entrypoint".to_string(), args.clone());
    assert_eq!(image.program, "/entrypoint");
    assert_eq!(image.argv, args);
    assert_eq!(image.env, vec!["TERM=xterm-256color".to_string()]);
}

#[test]
fn launcher_flags_are_split_from_passthrough_arguments() {
    assert_eq!(
        route_argument(&"--apprun-mount-timeout=2".to_string()),
        ArgRoute::Launcher("--mount-timeout=2".to_string())
    );
    assert_eq!(
        route_argument(&"--apprun-version".to_string()),
        ArgRoute::Launcher("--version".to_string())
    );
    assert_eq!(route_argument(&"--verbose".to_string()), ArgRoute::Passthrough);
    assert_eq!(route_argument(&"plain".to_string()), ArgRoute::Passthrough);
    assert_eq!(route_argument(&"".to_string()), ArgRoute::Passthrough);
    assert_eq!(route_argument(&"--apprun".to_string()), ArgRoute::Passthrough);
}

#[test]
fn the_overlay_store_is_created_only_when_missing() {
    assert_eq!(store_merge_prepare(true), None);
    assert_eq!(store_merge_prepare(false), Some(PrepareAction::CreateDirAll));
}

#[test]
fn overlay_construction_scenario() {
    // Host root {bin, etc, home, nix}, bundled store {a, b}, empty overlay.
    let mount_dir = "/mnt".to_string();
    let entries = vec![
        dir_entry("bin", ProbeOutcome::Completed(true)),
        dir_entry("etc", ProbeOutcome::Completed(true)),
        dir_entry("home", ProbeOutcome::Completed(true)),
        dir_entry("nix", ProbeOutcome::Completed(true)),
    ];
    let plan = plan_auto_binds(&mount_dir, &entries);
    let targets: Vec<String> = plan.iter().map(|b| b.target.clone()).collect();
    assert_eq!(
        targets,
        vec!["/mnt/bin".to_string(), "/mnt/etc".to_string(), "/mnt/home".to_string()]
    );

    // The store is merged separately, never bound as a plain root entry.
    let store = store_bind_entry(&mount_dir, &"/opt/bundle/nix".to_string());
    assert_eq!(store.target, "/mnt/nix");

    // After the bundle bind the overlay store holds {a, b}. With a host
    // store holding {a, c}, only the gap c is merged in: the bundle's own
    // a and b stay visible and are never shadowed.
    let host_children = vec![
        StoreChild { name: "a".to_string(), kind: PathKind::Directory },
        StoreChild { name: "c".to_string(), kind: PathKind::Directory },
    ];
    let present = vec!["a".to_string(), "b".to_string()];
    let merge = plan_store_merge(
        &"/nix/store".to_string(),
        &"/mnt/nix/store".to_string(),
        &host_children,
        &present,
    );
    assert_eq!(merge.len(), 1);
    assert_eq!(merge[0].target, "/mnt/nix/store/c");

    // The root switch restores the working directory captured beforehand.
    let saved = "/home/user/project".to_string();
    let switch = switch_root_plan(&mount_dir, &saved);
    assert_eq!(switch.new_root, "/mnt");
    assert_eq!(switch.restore_working_dir, saved);
}
