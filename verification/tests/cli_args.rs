use pacwoman::cli::{parse_args, Op};

fn args(v: &[&str]) -> Vec<String> {
    v.iter().map(|s| s.to_string()).collect()
}

#[test]
fn sync_upgrade_cluster() {
    let c = parse_args(&args(&["-Syu"]), true).unwrap();
    assert_eq!(c.op, Op::Sync);
    assert_eq!(c.switches.refresh, 1);
    assert_eq!(c.switches.sysupgrade, 1);
    assert!(!c.switches.plain);
    assert!(c.targets.is_empty());
}

#[test]
fn cluster_equals_separate_flags() {
    let a = parse_args(&args(&["-Syu", "firefox"]), true).unwrap();
    let b = parse_args(&args(&["-Sy", "-u", "firefox"]), true).unwrap();
    assert_eq!(a.op, b.op);
    assert_eq!(a.switches, b.switches);
    assert_eq!(a.targets, b.targets);
}

#[test]
fn letters_depend_on_operation() {
    let r = parse_args(&args(&["-Rs", "vim"]), true).unwrap();
    assert_eq!(r.op, Op::Remove);
    assert_eq!(r.switches.recursive, 1);
    assert!(!r.switches.s_search);
    let s = parse_args(&args(&["-Ss", "vim"]), true).unwrap();
    assert!(s.switches.s_search);
    assert_eq!(s.switches.recursive, 0);
    let q = parse_args(&args(&["-Qu"]), true).unwrap();
    assert!(q.switches.q_upgrades);
    assert_eq!(q.switches.sysupgrade, 0);
    let ru = parse_args(&args(&["-Ru", "x"]), true).unwrap();
    assert!(ru.switches.unneeded);
    let rss = parse_args(&args(&["-Rss", "x"]), true).unwrap();
    assert_eq!(rss.switches.recursive, 2);
}

#[test]
fn targets_after_double_dash() {
    let c = parse_args(&args(&["-S", "--", "-weird", "--noconfirm"]), true).unwrap();
    assert_eq!(c.targets, vec!["-weird".to_string(), "--noconfirm".to_string()]);
    assert!(!c.switches.noconfirm);
}

#[test]
fn value_flags() {
    let c = parse_args(
        &args(&["-S", "--config", "/tmp/p.conf", "--cachedir", "/a", "--cachedir", "/b", "--ignore", "linux"]),
        true,
    )
    .unwrap();
    assert_eq!(c.values.config.as_deref(), Some("/tmp/p.conf"));
    assert_eq!(c.values.cachedirs, vec!["/a".to_string(), "/b".to_string()]);
    assert_eq!(c.values.ignorepkg, vec!["linux".to_string()]);
}

#[test]
fn missing_value_is_refused() {
    let e = parse_args(&args(&["-S", "--root"]), true).err().unwrap();
    assert_eq!(e, "missing value for --root");
}

#[test]
fn unknown_long_flag_is_refused() {
    let e = parse_args(&args(&["--frobnicate"]), true).err().unwrap();
    assert_eq!(e, "unsupported flag: --frobnicate");
}

#[test]
fn unknown_short_flag_is_refused() {
    let e = parse_args(&args(&["-Sz"]), true).err().unwrap();
    assert_eq!(e, "unsupported flag: -z");
}

#[test]
fn color_decides_plain() {
    let never = parse_args(&args(&["--color", "never"]), true).unwrap();
    assert!(never.switches.plain);
    let always = parse_args(&args(&["--color", "always"]), false).unwrap();
    assert!(!always.switches.plain);
    let auto_tty = parse_args(&args(&["--color", "auto"]), true).unwrap();
    assert!(!auto_tty.switches.plain);
    let auto_pipe = parse_args(&args(&["--color", "auto"]), false).unwrap();
    assert!(auto_pipe.switches.plain);
    let none = parse_args(&args(&[]), false).unwrap();
    assert!(none.switches.plain);
}

#[test]
fn bad_color_is_refused() {
    let e = parse_args(&args(&["--color", "sometimes"]), true).err().unwrap();
    assert_eq!(e, "invalid value for --color: sometimes. Expected always, never, or auto");
}

#[test]
fn long_operations() {
    assert_eq!(parse_args(&args(&["--check-config"]), true).unwrap().op, Op::CheckConfig);
    assert_eq!(parse_args(&args(&["--gen-config"]), true).unwrap().op, Op::GenConfig);
    assert_eq!(parse_args(&args(&["--declarative"]), true).unwrap().op, Op::Declarative);
    assert_eq!(parse_args(&args(&[]), true).unwrap().op, Op::NoOp);
}

#[test]
fn counters_add_up() {
    let c = parse_args(&args(&["-Syy", "--refresh", "-dd", "--nodeps"]), true).unwrap();
    assert_eq!(c.switches.refresh, 3);
    assert_eq!(c.switches.nodeps, 3);
}

#[test]
fn color_in_one_argument() {
    let c = parse_args(&args(&["-Q", "--color=never"]), true).unwrap();
    assert!(c.switches.plain);
    assert_eq!(c.op, Op::Query);
    let a = parse_args(&args(&["--color=always"]), false).unwrap();
    assert!(!a.switches.plain);
    let e = parse_args(&args(&["--color=sometimes"]), true).err().unwrap();
    assert_eq!(e, "invalid value for --color: sometimes. Expected always, never, or auto");
}
