use pacwoman::pacconf::{
    collect_option_list, conf_value, expand_server, find_first_value, read_pacman_conf,
    section_entries, ConfEntry, ServerWalk, WalkStep, MAX_INCLUDE_DEPTH,
};

fn lines(text: &str) -> Vec<String> {
    text.lines().map(|s| s.to_string()).collect()
}

const CONF: &str = "# pacman.conf\n[options]\nIgnorePkg = linux  nvidia\nIgnorePkg=mesa\nIgnoreGroup = gnome\n#IgnorePkg = skipped\nParallelDownloads = 5\nCheckSpace = Yes\nSigLevel = None\nDisableDownloadTimeout = no\n\n[core]\nInclude = /etc/pacman.d/mirrorlist\n\n[extra]\nServer = https://mirror.example/$repo/os/$arch\nIgnorePkg = late\n";

#[test]
fn conf_values() {
    assert_eq!(conf_value("Server = https://x", "Server"), Some("https://x".to_string()));
    assert_eq!(conf_value("Server=https://x  ", "Server"), Some("https://x".to_string()));
    assert_eq!(conf_value("ServerX = a", "Server"), None);
    assert_eq!(conf_value("Server https://x", "Server"), None);
    assert_eq!(conf_value("  Server = a", "Server"), None);
}

#[test]
fn option_lists_accumulate_in_options_only() {
    let l = lines(CONF);
    assert_eq!(collect_option_list(&l, "IgnorePkg"), vec!["linux", "nvidia", "mesa"]);
    assert_eq!(collect_option_list(&l, "IgnoreGroup"), vec!["gnome"]);
    assert!(collect_option_list(&l, "NoExtract").is_empty());
}

#[test]
fn first_values() {
    let l = lines(CONF);
    assert_eq!(find_first_value(&l, "ParallelDownloads"), Some("5".to_string()));
    assert_eq!(find_first_value(&l, "Architecture"), None);
}

#[test]
fn settings_read() {
    let o = read_pacman_conf(&lines(CONF));
    assert_eq!(o.ignore_pkg, vec!["linux", "nvidia", "mesa"]);
    assert_eq!(o.parallel_downloads, Some(5));
    assert_eq!(o.check_space, Some(true));
    assert_eq!(o.disable_download_timeout, Some(false));
    assert!(o.siglevel_none);
    let names: Vec<&str> = o.repos.iter().map(|r| r.name.as_str()).collect();
    assert_eq!(names, vec!["core", "extra"]);
    assert_eq!(o.repos[0].first_line, 12);
}

#[test]
fn bad_parallel_downloads_is_ignored() {
    let o = read_pacman_conf(&lines("[options]\nParallelDownloads = five\nParallelDownloads = 3\n"));
    assert_eq!(o.parallel_downloads, None);
    let big = read_pacman_conf(&lines("ParallelDownloads = 4294967296\n"));
    assert_eq!(big.parallel_downloads, None);
}

#[test]
fn section_servers_and_includes() {
    let l = lines(CONF);
    let o = read_pacman_conf(&l);
    let core = section_entries(&l, o.repos[0].first_line, true);
    assert_eq!(core.len(), 1);
    assert!(matches!(&core[0], ConfEntry::Include(p) if p == "/etc/pacman.d/mirrorlist"));
    let extra = section_entries(&l, o.repos[1].first_line, true);
    assert!(matches!(&extra[0], ConfEntry::Server(u) if u == "https://mirror.example/$repo/os/$arch"));
}

#[test]
fn included_files_do_not_stop_at_sections() {
    let l = lines("Server = a\n[x]\nServer = b\n");
    assert_eq!(section_entries(&l, 0, false).len(), 2);
    assert_eq!(section_entries(&l, 0, true).len(), 1);
}

#[test]
fn server_expansion() {
    assert_eq!(
        expand_server("https://m/$repo/os/$arch/$repo", "core", "x86_64"),
        "https://m/core/os/x86_64/core"
    );
    assert_eq!(MAX_INCLUDE_DEPTH, 10);
}

/// Runs a walk over `conf`, answering every `Include` with the lines of `included`.
fn walk(conf: &str, start: usize, included: &str) -> (Vec<String>, usize) {
    let l = lines(conf);
    let inc = lines(included);
    let mut w = ServerWalk::new(&l, start);
    let mut asked = 0;
    loop {
        match w.step("core", "x86_64") {
            WalkStep::Done => break,
            WalkStep::Continue => {}
            WalkStep::Include(_) => {
                asked += 1;
                w.feed(&inc);
            }
        }
    }
    (w.into_servers(), asked)
}

#[test]
fn servers_follow_includes() {
    let conf = "[core]\nServer = https://a/$repo/$arch\nInclude = /etc/pacman.d/mirrorlist\nServer = https://c/$repo\n[extra]\nServer = https://x\n";
    let (servers, asked) = walk(conf, 1, "# mirrors\nServer = https://b/$repo/os/$arch\n");
    assert_eq!(asked, 1);
    assert_eq!(
        servers,
        vec![
            "https://a/core/x86_64".to_string(),
            "https://b/core/os/x86_64".to_string(),
            "https://c/core".to_string(),
        ]
    );
}

#[test]
fn includes_stop_at_the_depth_limit() {
    let conf = "[core]\nInclude = /self\n";
    let (servers, asked) = walk(conf, 1, "Server = https://m/$repo\nInclude = /self\n");
    assert_eq!(asked, MAX_INCLUDE_DEPTH as usize);
    assert_eq!(servers.len(), MAX_INCLUDE_DEPTH as usize);
    assert!(servers.iter().all(|s| s == "https://m/core"));
}
