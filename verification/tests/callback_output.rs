use pacwoman::callbacks::{
    download_line, event_output, log_line, operation_line, progress_line, question_text,
    DownloadEvent, Event, LogLevel, PackageOperation, Progress, Question, Stage,
};
use pacwoman::config::{ColorRole, Config, ResolvedConfig};

fn cfg() -> ResolvedConfig {
    Config::default().into_resolved().0
}

#[test]
fn mirror_noise_is_suppressed() {
    let c = cfg();
    assert!(log_line(LogLevel::Warning, "too many errors from mirror.x\n", &c).is_none());
    assert!(log_line(LogLevel::Error, "failed retrieving file 'a' from b", &c).is_none());
    let w = log_line(LogLevel::Warning, "disk is nearly full\n", &c).unwrap();
    assert!(w.ends_with("disk is nearly full\x1b[0m"));
    assert!(log_line(LogLevel::Debug, "x", &c).is_none());
}

#[test]
fn stage_events() {
    let c = cfg();
    let e = event_output(&Event::Start(Stage::CheckDeps), &c).unwrap();
    assert!(e.text.contains("checking dependencies…"));
    assert!(!e.newline);
    let d = event_output(&Event::Done(Stage::CheckDeps), &c).unwrap();
    assert_eq!(d.text, "\r\x1b[2K");
    let r = event_output(&Event::PkgRetrieveStart(3), &c).unwrap();
    assert!(r.text.contains("downloading 3 packages"));
    let one = event_output(&Event::PkgRetrieveStart(1), &c).unwrap();
    assert!(one.text.contains("downloading 1 package\x1b"));
    let f = event_output(&Event::PkgRetrieveFailed, &c).unwrap();
    assert!(f.stderr);
}

#[test]
fn operation_lines_show_versions() {
    let c = cfg();
    let up = operation_line(&PackageOperation::Upgrade { name: "mesa".into(), old_version: "24".into(), new_version: "25".into() }, &c);
    assert!(up.contains("mesa"));
    assert!(up.contains("24"));
    assert!(up.contains("25"));
}

#[test]
fn progress_and_download_lines() {
    let c = cfg();
    let p = progress_line(Progress::AddStart, "vim", 50, 1, 3, 12, &c);
    assert!(p.contains("vim"));
    assert!(p.contains("50%"));
    let q = progress_line(Progress::ConflictsStart, "", 10, 0, 0, 0, &c);
    assert!(q.contains("processing"));
    assert!(download_line("core.db", &DownloadEvent::Progress { downloaded: 1, total: 0 }, 0, &c).is_none());
    let (t, nl) = download_line("vim-9.1-1-x86_64.pkg.tar.zst", &DownloadEvent::Completed { total: 10 }, 0, &c).unwrap();
    assert!(nl);
    assert!(t.contains("vim-9.1-1-x86_64"));
    assert!(!t.contains(".pkg.tar.zst"));
    assert!(download_line("x", &DownloadEvent::Init, 0, &c).is_none());
}

#[test]
fn questions() {
    let c = cfg();
    let q = question_text(&Question::InstallIgnorepkg { pkg: "linux".into() }, &c);
    assert!(q.lines.iter().any(|l| l.contains("linux")));
    let p = question_text(
        &Question::SelectProvider { depend: "sh".into(), providers: vec![("bash".into(), "5".into()), ("dash".into(), "0.5".into())] },
        &c,
    );
    assert!(p.lines.iter().any(|l| l.contains("bash")) && p.lines.iter().any(|l| l.contains("dash")));
}

#[test]
fn install_bars_use_the_install_colour() {
    let mut c = cfg();
    c.bar.install_color = ColorRole::Green;
    c.bar.upgrade_color = ColorRole::Mauve;
    let add = progress_line(Progress::AddStart, "vim", 50, 1, 3, 12, &c);
    assert!(add.contains(c.colors.green.as_str()));
    assert!(!add.contains(c.colors.mauve.as_str()));
    let up = progress_line(Progress::UpgradeStart, "vim", 50, 1, 3, 12, &c);
    assert!(up.contains(c.colors.mauve.as_str()));
}
