use pacwoman::cli::{initial_switches, parse_args};
use pacwoman::config::Config;
use pacwoman::transaction::{
    cascade_closure, commit_diag_lines, commit_error_message, confirm_prompt, format_pkg, is_protected,
    prepare_diag_lines, prepare_error_message, print_format_line, protected_removal, reason_for,
    reason_set_message, reconcile, remove_flags, remove_summary, resolve_targets, skip_as_needed,
    skip_required_message, skip_unneeded, sync_flags, sync_plan, sync_summary, upgrade_flags, AddEntry,
    CommitDiag, InstallReason, PkgFields, PrepareDiag, RemoveEntry, SyncPlan, TransFlags,
};
use pacwoman::transaction::{
    declarative_plan, missing_targets, target_not_found_message, refresh_report, RefreshOutcome,
};

fn s(v: &[&str]) -> Vec<String> {
    v.iter().map(|x| x.to_string()).collect()
}

fn plain_cfg() -> pacwoman::config::ResolvedConfig {
    let mut c = Config::default().into_resolved().0;
    c.plain = true;
    c
}

#[test]
fn flags_from_switches() {
    let c = parse_args(&s(&["-Rss", "--nosave", "-d"]), true).unwrap();
    let f = remove_flags(&c.switches);
    assert!(f.recurse_all && !f.recurse && f.no_save && f.no_deps);
    let c2 = parse_args(&s(&["-Sw", "--dbonly"]), true).unwrap();
    let g = sync_flags(&c2.switches);
    assert!(g.download_only && g.db_only && !g.no_deps && !g.no_save);
    let u = upgrade_flags(&initial_switches(true));
    assert_eq!(u, TransFlags { no_save: false, no_deps: false, download_only: false, db_only: false, no_scriptlet: false, recurse: false, recurse_all: false });
}

#[test]
fn sync_plans() {
    let c = parse_args(&s(&["-Ssi"]), true).unwrap();
    assert_eq!(sync_plan(&c.switches, true), SyncPlan::Lookups);
    let c = parse_args(&s(&["-Sc"]), true).unwrap();
    assert_eq!(sync_plan(&c.switches, true), SyncPlan::Clean);
    let c = parse_args(&s(&["-Sy"]), true).unwrap();
    assert_eq!(sync_plan(&c.switches, true), SyncPlan::Nothing);
    let c = parse_args(&s(&["-Su"]), true).unwrap();
    assert_eq!(sync_plan(&c.switches, true), SyncPlan::Transaction);
}

#[test]
fn targets_split_between_sync_and_aur() {
    let targets = s(&["vim", "gnome", "yay"]);
    let sat = vec![Some("vim".to_string()), None, None];
    let mem = vec![vec![], s(&["gdm", "nautilus"]), vec![]];
    let (sync, aur) = resolve_targets(&targets, &sat, &mem, false, false);
    assert_eq!(sync, s(&["vim", "gdm", "nautilus"]));
    assert_eq!(aur, s(&["yay"]));
    let (sync2, aur2) = resolve_targets(&targets, &sat, &mem, true, false);
    assert!(sync2.is_empty());
    assert_eq!(aur2, targets);
    let (_, aur3) = resolve_targets(&targets, &sat, &mem, false, true);
    assert!(aur3.is_empty());
}

#[test]
fn needed_skips_current_packages() {
    assert!(skip_as_needed(true, Some(true)));
    assert!(!skip_as_needed(true, Some(false)));
    assert!(!skip_as_needed(true, None));
    assert!(!skip_as_needed(false, Some(true)));
}

#[test]
fn reconcile_reaches_desired_state() {
    let desired = s(&["a", "b", "c", "b"]);
    let installed = s(&["b", "d", "e"]);
    let (ti, tr) = reconcile(&desired, &installed);
    assert_eq!(ti, s(&["a", "c"]));
    assert_eq!(tr, s(&["d", "e"]));
    let mut after: Vec<String> = installed.iter().filter(|x| !tr.contains(x)).cloned().collect();
    after.extend(ti.iter().cloned());
    after.sort();
    let mut want = s(&["a", "b", "c"]);
    want.sort();
    assert_eq!(after, want);
}

#[test]
fn reconcile_in_desired_state_does_nothing() {
    let (ti, tr) = reconcile(&s(&["x", "y"]), &s(&["y", "x"]));
    assert!(ti.is_empty() && tr.is_empty());
}

#[test]
fn protected_packages() {
    assert!(is_protected("glibc"));
    assert!(!is_protected("glibc2"));
    assert_eq!(protected_removal(&s(&["foo", "bash", "linux"])), Some(1));
    assert_eq!(protected_removal(&s(&["foo"])), None);
}

#[test]
fn cascade_takes_every_dependent() {
    let graph = vec![
        ("a".to_string(), s(&["b", "c"])),
        ("b".to_string(), s(&["d"])),
        ("c".to_string(), s(&["d", "a"])),
        ("d".to_string(), vec![]),
        ("x".to_string(), s(&["a"])),
    ];
    let r = cascade_closure("a", &graph);
    assert_eq!(r, s(&["a", "b", "c", "d"]));
    let r2 = cascade_closure("d", &graph);
    assert_eq!(r2, s(&["d"]));
    let r3 = cascade_closure("zzz", &graph);
    assert_eq!(r3, s(&["zzz"]));
}

#[test]
fn print_format() {
    let p = PkgFields { name: "vim".into(), version: "9.1-1".into(), isize: 2048, arch: None, desc: Some("editor".into()) };
    assert_eq!(format_pkg("%n %v %s %a %l", &p), "vim 9.1-1 2.0 KiB — editor");
    assert_eq!(print_format_line("%r/%n", &p, Some("extra".into())), "extra/vim");
    assert_eq!(print_format_line("%r/%n", &p, None), "unknown/vim");
}

#[test]
fn sync_summary_plain() {
    let add = vec![
        AddEntry { name: "mesa".into(), version: "25.0".into(), isize: 2097152, download_size: 1048576, installed: Some(("24.3".into(), 1048576)) },
        AddEntry { name: "new".into(), version: "1".into(), isize: 1024, download_size: 512, installed: None },
    ];
    let rem = vec![RemoveEntry { name: "old".into(), version: "2".into(), isize: 10 }];
    let lines = sync_summary(&add, &rem, &plain_cfg());
    assert_eq!(lines, s(&[
        "\n  packages (2):",
        "    mesa 25.0: 2.00 MiB   24.3 -> 25.0",
        "    new 1: 1.0 KiB   1",
        "",
        "  total download size:   1.00 MiB",
        "  total installed size:  2.00 MiB",
        "  net upgrade size:      1.00 MiB",
        "\n  removing (1):",
        "    - old: 2",
        "",
    ]));
}

#[test]
fn remove_summary_plain() {
    assert!(remove_summary(&vec![], &plain_cfg()).is_none());
    let rem = vec![RemoveEntry { name: "a".into(), version: "1".into(), isize: 1024 }, RemoveEntry { name: "b".into(), version: "2".into(), isize: 1024 }];
    let lines = remove_summary(&rem, &plain_cfg()).unwrap();
    assert_eq!(lines, s(&["\n  removing (2):", "    - a: 1", "    - b: 2", "\n  freed space: 2.0 KiB", ""]));
}

#[test]
fn failure_diagnostics() {
    let d = PrepareDiag::Unsatisfied(vec![("libfoo".into(), Some("bar".into())), ("libx".into(), None)]);
    assert_eq!(prepare_diag_lines(&d, &plain_cfg()), s(&["", "  ✗  missing dependency: libfoo (required by bar)", "  ✗  missing dependency: libx", ""]));
    let c = PrepareDiag::Conflicting(vec![("a".into(), "b".into(), "c".into())]);
    assert_eq!(prepare_diag_lines(&c, &plain_cfg()), s(&["", "  ✗  conflict: a ↔ b  (c)", ""]));
    assert!(prepare_diag_lines(&PrepareDiag::NoDetail, &plain_cfg()).is_empty());
    let f = CommitDiag::FileConflict(vec![("a".into(), "b".into())]);
    assert_eq!(commit_diag_lines(&f, &plain_cfg()), s(&["  ✗  file conflict: a ↔ b", ""]));
    let i = CommitDiag::PkgInvalid(vec!["z".into()]);
    assert_eq!(commit_diag_lines(&i, &plain_cfg()), s(&["  ✗  invalid package: z", ""]));
    assert_eq!(prepare_error_message("boom"), "could not prepare transaction: boom");
    assert_eq!(commit_error_message("boom"), "transaction failed: boom");
}

#[test]
fn prompts_and_reasons() {
    assert_eq!(confirm_prompt("proceed?", true, &plain_cfg()), "\n  :: proceed? [Y/n] ");
    assert_eq!(confirm_prompt("go", false, &plain_cfg()), "\n  :: go [y/N] ");
    assert_eq!(reason_for(true, true), Some(InstallReason::Depend));
    assert_eq!(reason_for(false, true), Some(InstallReason::Explicit));
    assert_eq!(reason_for(false, false), None);
    assert_eq!(reason_set_message("vim", InstallReason::Depend), "vim: install reason set to 'dependency'");
    assert!(skip_unneeded(true, false));
    assert_eq!(skip_required_message("x"), "skipping x: it is required by other packages");
}

#[test]
fn summaries_follow_show_summary() {
    let mut c = plain_cfg();
    c.behavior.show_summary = false;
    let add = vec![AddEntry { name: "a".into(), version: "1".into(), isize: 1, download_size: 1, installed: None }];
    assert!(sync_summary(&add, &vec![], &c).is_empty());
    let rem = vec![RemoveEntry { name: "a".into(), version: "1".into(), isize: 1 }];
    assert_eq!(remove_summary(&rem, &c), Some(vec![]));
    assert_eq!(remove_summary(&vec![], &c), None);
}

#[test]
fn refresh_reports_follow_show_db_uptodate() {
    let mut c = plain_cfg();
    assert_eq!(refresh_report(&RefreshOutcome::UpToDate, &c), Some("all databases are up to date".to_string()));
    assert_eq!(refresh_report(&RefreshOutcome::Updated, &c), Some("  [OK] databases updated".to_string()));
    assert_eq!(
        refresh_report(&RefreshOutcome::Failed("timeout".into()), &c),
        Some("WARNING: some mirrors failed (timeout); continuing".to_string())
    );
    c.behavior.show_db_uptodate = false;
    assert_eq!(refresh_report(&RefreshOutcome::UpToDate, &c), None);
}

#[test]
fn declarative_plan_from_state_text() {
    let (ti, tr) = declarative_plan("[\"vim\", \"git\"]", &s(&["git", "nano"])).unwrap();
    assert_eq!(ti, s(&["vim"]));
    assert_eq!(tr, s(&["nano"]));
    let (ti, tr) = declarative_plan("[\"git\"]", &s(&["git"])).unwrap();
    assert!(ti.is_empty() && tr.is_empty());
}

#[test]
fn broken_state_file_is_refused() {
    let e = declarative_plan("{not json", &s(&["git"])).err().unwrap();
    assert!(e.starts_with("could not parse state file: "));
    assert!(e.len() > "could not parse state file: ".len());
    let e2 = declarative_plan("{\"a\": 1}", &s(&[])).err().unwrap();
    assert!(e2.starts_with("could not parse state file: "));
}

#[test]
fn missing_removal_targets() {
    let m = missing_targets(&s(&["vim", "nope", "git", "gone"]), &s(&["git", "vim", "bash"]));
    assert_eq!(m, s(&["nope", "gone"]));
    assert!(missing_targets(&s(&["git"]), &s(&["git"])).is_empty());
    assert_eq!(target_not_found_message("nope"), "target not found: nope");
}
