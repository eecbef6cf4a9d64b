use pacwoman::update::{
    cargo_candidates, cargo_env, current_version, finalize_command, install_command, is_dev_build,
    is_version_greater, parse_cargo_version, update_available, update_dir_name, version_to_nums,
};

#[test]
fn version_numbers() {
    assert_eq!(version_to_nums("0.1.10"), vec![0, 1, 10]);
    assert_eq!(version_to_nums("v2.0-rc3"), vec![2, 0, 3]);
    assert_eq!(version_to_nums("abc"), Vec::<u32>::new());
    assert_eq!(version_to_nums("99999999999.1"), vec![1]);
    assert_eq!(version_to_nums("1.٣"), vec![1]);
    assert_eq!(version_to_nums("v1.2.3-rc4"), vec![1, 2, 3, 4]);
    assert_eq!(version_to_nums("1.4294967296.2"), vec![1, 2]);
}

#[test]
fn version_order() {
    assert!(is_version_greater("0.1.7", "0.1.8"));
    assert!(is_version_greater("0.1.7", "0.2.0"));
    assert!(is_version_greater("0.9.0", "0.10.0"));
    assert!(!is_version_greater("0.1.7", "0.1.7"));
    assert!(!is_version_greater("0.1.8", "0.1.7"));
    assert!(is_version_greater("0.1", "0.1.0"));
    assert!(!is_version_greater("0.1.0", "0.1"));
}

#[test]
fn version_order_is_a_strict_order() {
    let vs = ["0.1.7", "0.1.8", "1.0", "1.0.0", "0.9.12", "2"];
    for a in vs {
        assert!(!is_version_greater(a, a));
        for b in vs {
            if is_version_greater(a, b) {
                assert!(!is_version_greater(b, a));
                for c in vs {
                    if is_version_greater(b, c) {
                        assert!(is_version_greater(a, c));
                    }
                }
            }
        }
    }
}

#[test]
fn cargo_versions() {
    let toml = "[package]\nname = \"pacwoman\"\nversion = \"0.2.0\"\n[dependencies]\nversion = \"9\"\n";
    assert_eq!(parse_cargo_version(toml), Some("0.2.0".to_string()));
    assert_eq!(parse_cargo_version("[dependencies]\nversion = \"1.0\"\n"), None);
    assert_eq!(parse_cargo_version("[package]\n[lib]\nversion = \"1\""), None);
    assert_eq!(parse_cargo_version("[package]\r\n  version = \"3.1\"  \r\n"), Some("3.1".to_string()));
}

#[test]
fn update_decision() {
    assert_eq!(current_version(), "0.1.7");
    let newer = Some("[package]\nversion = \"0.1.8\"\n".to_string());
    assert_eq!(update_available("0.1.7", newer), Some("0.1.8".to_string()));
    let same = Some("[package]\nversion = \"0.1.7\"\n".to_string());
    assert_eq!(update_available("0.1.7", same), None);
    assert_eq!(update_available("0.1.7", None), None);
}

#[test]
fn cargo_lookup_order() {
    let c = cargo_candidates(Some("/usr/bin::/opt".into()), Some("ann".into()), Some("/root".into()));
    assert_eq!(c, vec!["/usr/bin/cargo", "/cargo", "/opt/cargo", "/home/ann/.cargo/bin/cargo", "/root/.cargo/bin/cargo"]);
    assert!(cargo_candidates(None, None, None).is_empty());
}

#[test]
fn self_update_commands() {
    assert_eq!(cargo_env(Some("ann".into()), None), Some(("/home/ann".to_string(), "stable".to_string())));
    assert_eq!(cargo_env(None, Some("nightly".into())), None);
    assert!(is_dev_build("/src/pacwoman/target/release/pacwoman"));
    assert!(!is_dev_build("/usr/bin/pacwoman"));
    assert_eq!(update_dir_name(42), "pacwoman-update-42");
    assert_eq!(install_command("/t/b", "/usr/bin/p"), "install -m 755 /t/b /usr/bin/p");
    assert_eq!(finalize_command("/usr/bin/p", None), "sleep 1 && chmod 755 \"/usr/bin/p\" && true");
    assert_eq!(
        finalize_command("/usr/bin/p", Some("ann".into())),
        "sleep 1 && chmod 755 \"/usr/bin/p\" && chown ann \"/usr/bin/p\""
    );
}
