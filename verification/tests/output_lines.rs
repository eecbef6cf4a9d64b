use pacwoman::aur::{
    classify_build_line, clone_url, first_result, is_interesting, is_package_artifact, AurClient,
    AurPackage, BuildLine, BuildManager,
};
use pacwoman::callbacks::{
    answer_yes, prompt_answer, render_bar, select_index, strip_pkg_suffix, trunc,
};
use pacwoman::config::{Config, ResolvedConfig};
use pacwoman::flow::{
    config_warning, deptest_status, handle_settings, help_lines, lock_pid, targets_from_lines,
    update_notice, version_line, wants_stdin_targets,
};
use pacwoman::cli::{parse_args, Op};
use pacwoman::lookup::{
    aur_info_lines, aur_search_line, cache_package_name, clean_report, group_members,
    not_found_message, repo_heading, sync_search_line, SyncPackage,
};
use pacwoman::query::{
    origin_listed,
    file_check_lines, owns_path, passes_filters, pkg_info_lines, pkg_line, query_mode,
    search_matches, upgrade_line, PkgInfo, QueryMode, QueryOpts,
};
use pacwoman::render::{header, info, kv};

fn cfg(plain: bool) -> ResolvedConfig {
    let mut c = Config::default().into_resolved().0;
    c.plain = plain;
    c
}

fn s(v: &[&str]) -> Vec<String> {
    v.iter().map(|x| x.to_string()).collect()
}

#[test]
fn render_lines() {
    assert_eq!(header("hi", &cfg(true)), "\n:: hi");
    assert_eq!(info("x", &cfg(true)), "x");
    assert_eq!(kv("Name", "vim", &cfg(true)), "Name              : vim");
    let bar = render_bar(2, "C", &cfg(false));
    assert_eq!(bar, "C██\x1b[0m\x1b[38;2;69;71;90m░░░░░░░░░░░░░░░░░░░░░░\x1b[0m");
}

#[test]
fn names_are_cut_to_their_width() {
    assert_eq!(trunc("linux-firmware", 5), "linux");
    assert_eq!(trunc("vim", 5), "vim");
    assert_eq!(trunc("ñandú-x", 3), "ñan");
    assert_eq!(strip_pkg_suffix("mesa-25.0.1-1-x86_64.pkg.tar.zst.sig"), "mesa-25.0.1-1-x86_64");
    assert_eq!(strip_pkg_suffix("core.db"), "core");
}

#[test]
fn yes_no_answers() {
    assert!(answer_yes("  ", true));
    assert!(!answer_yes("", false));
    assert!(answer_yes("Y", false));
    assert!(answer_yes(" yes\n", false));
    assert!(!answer_yes("nope", true));
    assert!(prompt_answer(true, true, "n"));
    assert!(!prompt_answer(false, true, "n"));
    assert_eq!(select_index("2", 3), 2);
    assert_eq!(select_index("9", 3), 2);
    assert_eq!(select_index("x", 3), 0);
    assert_eq!(select_index("1", 0), 0);
}

#[test]
fn query_choices() {
    let o = QueryOpts { info: false, deps: true, explicit: false, unrequired: true, upgrades: false, file_check: false, foreign: false, native: true, list: true, groups: false, changelog: false, quiet: false };
    assert_eq!(query_mode(&o), QueryMode::Native);
    assert!(passes_filters(&o, true, true));
    assert!(!passes_filters(&o, false, true));
    assert!(!passes_filters(&o, true, false));
    assert_eq!(pkg_line("vim", "9.1", true, false, &cfg(true)), format!("  • {:<30} 9.1", "vim"));
    assert_eq!(pkg_line("vim", "9.1", true, true, &cfg(true)), "vim");
    assert_eq!(upgrade_line("vim", "9.0", "9.1", false, &cfg(true)), "  vim 9.0 → 9.1");
}

#[test]
fn query_files_and_search() {
    let l = file_check_lines("vim", &s(&["/usr/bin/vim"]), false, &cfg(true));
    assert_eq!(l, s(&["  ✗ vim: 1 files missing", "    missing: /usr/bin/vim"]));
    let ok = file_check_lines("vim", &vec![], false, &cfg(true));
    assert_eq!(ok, s(&["  ✓ vim: all files present"]));
    assert!(file_check_lines("vim", &vec![], true, &cfg(true)).is_empty());
    assert!(owns_path("/usr/bin/vim", "usr/bin/vim"));
    assert!(!owns_path("/usr/bin/vim", "usr/bin/vi"));
    assert!(search_matches("Vim", "Vi IMproved", &s(&["vim", "IMPROVED"])));
    assert!(!search_matches("vim", "editor", &s(&["emacs"])));
    assert!(search_matches("vim", "editor", &vec![]));
}

#[test]
fn package_details() {
    let p = PkgInfo {
        name: "vim".into(), version: "9.1".into(), desc: None, arch: Some("x86_64".into()), url: None,
        licenses: s(&["custom"]), groups: vec![], depends: s(&["glibc", "gpm"]), optdepends: vec![],
        required_by: vec![], explicit: true, install_date: Some(1700000000), isize: 4096, packager: None,
        files: s(&["a", "b", "c", "d", "e", "f", "g"]),
    };
    let l = pkg_info_lines(&p, &cfg(true));
    assert_eq!(l[0], "");
    assert_eq!(l[1], format!("{:<18}: vim", "Name"));
    assert_eq!(l[3], format!("{:<18}: —", "Description"));
    assert_eq!(l[8], format!("{:<18}: glibc  gpm", "Depends On"));
    assert_eq!(l[11], format!("{:<18}: explicit", "Install Reason"));
    assert_eq!(l[12], format!("{:<18}: 1700000000", "Install Date"));
    assert_eq!(l[13], format!("{:<18}: 4.0 KiB", "Install Size"));
    assert_eq!(l[15], format!("{:<18}: a\n                    b\n                    c\n                    d\n                    e", "Files"));
    assert_eq!(l[16], "                    … and 2 more");
    assert_eq!(l[17], "");
}

#[test]
fn sync_lookups() {
    assert_eq!(sync_search_line("extra", "vim", "9.1", "editor", false, &cfg(true)), "extra/vim 9.1 - editor");
    let p = AurPackage { name: "yay".into(), version: "12".into(), description: None, url: None, maintainer: None };
    assert_eq!(aur_search_line(&p, false, &cfg(true)), "aur/yay 12 - ");
    assert_eq!(repo_heading("core", &cfg(true)), "\nRepository core:");
    let pk = vec![
        SyncPackage { repo: "extra".into(), name: "gdm".into(), groups: s(&["gnome"]) },
        SyncPackage { repo: "extra".into(), name: "vim".into(), groups: vec![] },
        SyncPackage { repo: "core".into(), name: "x".into(), groups: s(&["a", "gnome"]) },
    ];
    assert_eq!(group_members(&pk, "gnome"), s(&["extra/gdm", "core/x"]));
    let info = aur_info_lines(&p, &cfg(true));
    assert_eq!(info.len(), 7);
    assert_eq!(info[5], format!("{:<18}: —", "Maintainer"));
    assert_eq!(not_found_message(false, false), "package not found in databases (AUR: false, Sync: true)");
    assert_eq!(cache_package_name("vim-9.1-1-x86_64.pkg.tar.zst"), Some("vim".to_string()));
    assert_eq!(cache_package_name("notes.txt"), None);
    assert_eq!(
        cache_package_name("lib32-mesa-25.0.1-1-x86_64.pkg.tar.zst"),
        Some("lib32-mesa".to_string())
    );
    assert_eq!(cache_package_name("broken.pkg.tar.zst"), None);
    assert_eq!(clean_report(3), "removed 3 unused packages from cache");
}

#[test]
fn aur_helpers() {
    let c = AurClient::new();
    assert_eq!(c.search_url("vim"), "https://aur.archlinux.org/rpc/v5/search/vim");
    assert_eq!(c.info_url("yay"), "https://aur.archlinux.org/rpc/v5/info/yay");
    assert!(first_result(vec![]).is_err());
    let r = first_result(vec![AurPackage { name: "a".into(), version: "1".into(), description: None, url: None, maintainer: None }]).unwrap();
    assert_eq!(r.name, "a");
    assert_eq!(clone_url("yay"), "https://aur.archlinux.org/yay.git");
    assert!(BuildManager::new(None, None, None).is_err());
    let b = BuildManager::new(Some("ann".into()), Some("root".into()), Some("/root".into())).unwrap();
    assert_eq!(b.user(), "ann");
    assert_eq!(b.cache_dir(), "/home/ann/.cache/pacwoman/aur");
    assert_eq!(b.build_path("yay"), "/home/ann/.cache/pacwoman/aur/yay");
    let b2 = BuildManager::new(None, Some("bob".into()), None).unwrap();
    assert_eq!(b2.cache_dir(), "/root/.cache/pacwoman/aur");
    assert_eq!(b.makepkg_command(true), "sudo -u ann makepkg -s --noconfirm 2>&1");
    assert_eq!(b.user_command(true, &s(&["git", "pull"])), s(&["sudo", "-u", "ann", "git", "pull"]));
    assert_eq!(b.user_command(false, &s(&["git", "pull"])), s(&["git", "pull"]));
    assert_eq!(classify_build_line("==> Making package"), BuildLine::Step);
    assert_eq!(classify_build_line("compile FAILED"), BuildLine::Failure);
    assert_eq!(classify_build_line("plain"), BuildLine::Other);
    assert!(is_interesting("Checking for updates"));
    assert!(!is_interesting("compiling"));
    assert!(is_package_artifact(true, Some("zst".into()), "yay-12-1-x86_64.pkg.tar.zst"));
    assert!(!is_package_artifact(true, Some("zst".into()), "yay.tar.zst"));
}

#[test]
fn program_flow() {
    let c = parse_args(&s(&["-S"]), true).unwrap();
    assert!(wants_stdin_targets(Op::Sync, true, &c.switches));
    assert!(!wants_stdin_targets(Op::Query, true, &c.switches));
    assert_eq!(targets_from_lines(&s(&["vim  git", "", " yay"])), s(&["vim", "git", "yay"]));
    assert_eq!(help_lines(Op::Remove)[0], "Usage: pacwoman -R [options] [targets]");
    assert_eq!(help_lines(Op::Files), s(&["Help not implemented for this operation."]));
    assert_eq!(version_line(), "pacwoman v0.1.7");
    assert_eq!(config_warning("x"), "config: x");
    assert_eq!(update_notice("0.2"), "a new version of pacwoman is available (0.2), run with -u to update");
    assert_eq!(deptest_status(true), 1);
    assert_eq!(lock_pid(" 1234\n"), Some(1234));
    assert_eq!(lock_pid("-7"), Some(-7));
    assert_eq!(lock_pid("x"), None);
    assert_eq!(lock_pid("99999999999"), None);
    let h = handle_settings(&c.values);
    assert_eq!(h.root, "/");
    assert_eq!(h.dbpath, "/var/lib/pacman");
    assert_eq!(h.cachedirs, s(&["/var/cache/pacman/pkg/"]));
    assert_eq!(h.config, "/etc/pacman.conf");
}

#[test]
fn foreign_and_native_split_packages() {
    assert!(origin_listed(QueryMode::Foreign, false));
    assert!(!origin_listed(QueryMode::Foreign, true));
    assert!(origin_listed(QueryMode::Native, true));
    assert!(!origin_listed(QueryMode::Native, false));
    assert!(origin_listed(QueryMode::List, false));
}
