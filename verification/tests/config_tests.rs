use pacwoman::config::{ansi_fg, config_path, parse_hex, BarConfig, ColorRole, Config, ResolvedColors};
use pacwoman::configfile::ConfigSource;

fn mocha_check_colors() -> ResolvedColors {
    ResolvedColors::mocha()
}

#[test]
fn defaults_are_the_documented_ones() {
    let c = Config::default();
    assert_eq!(c.colors.green, "a6e3a1");
    assert_eq!(c.colors.flamingo, "f2cdcd");
    assert_eq!(c.bar.width, 24);
    assert_eq!(c.bar.fill, "█");
    assert_eq!(c.bar.empty, "░");
    assert!(matches!(c.bar.dl_color, ColorRole::Teal));
    assert!(matches!(c.bar.downgrade_color, ColorRole::Yellow));
    assert_eq!(c.symbols.header, "::");
    assert_eq!(c.symbols.bullet, "•");
    assert!(c.suppress.mirror_errors && c.suppress.mirror_warnings);
    assert!(!c.suppress.pacnew);
    assert!(!c.behavior.noconfirm);
    assert_eq!(c.behavior.dl_name_width, 24);
    assert_eq!(c.behavior.pkg_name_width, 28);
    let b = BarConfig::default();
    assert_eq!(b.width, 24);
}

#[test]
fn hex_colours_read() {
    let mut e = Vec::new();
    assert_eq!(parse_hex("a6e3a1", "green", &mut e), Some((166, 227, 161)));
    assert_eq!(parse_hex("#a6e3a1", "green", &mut e), Some((166, 227, 161)));
    assert_eq!(parse_hex("a6e3a1ff", "green", &mut e), Some((166, 227, 161)));
    assert!(e.is_empty());
}

#[test]
fn bad_hex_colours_are_reported() {
    let mut e = Vec::new();
    assert_eq!(parse_hex("abc", "red", &mut e), None);
    assert_eq!(parse_hex("zzzzzz", "blue", &mut e), None);
    assert_eq!(e.len(), 2);
    assert_eq!(e[0], "colors.red: expected 6- or 8-char hex (\"rrggbb\" or \"rrggbbaa\"), got \"abc\"");
    assert_eq!(e[1], "colors.blue: \"zzzzzz\" contains non-hex characters");
}

#[test]
fn ansi_escape() {
    assert_eq!(ansi_fg(1, 22, 255), "\x1b[38;2;1;22;255m");
}

#[test]
fn mocha_palette() {
    let m = mocha_check_colors();
    assert_eq!(m.green, "\x1b[38;2;166;227;161m");
    assert_eq!(m.reset, "\x1b[0m");
    assert_eq!(ColorRole::Mauve.resolve(&m), "\x1b[38;2;203;166;247m");
}

#[test]
fn bad_colour_falls_back_to_mocha() {
    let mut c = Config::default();
    c.colors.red = "nothex".to_string();
    let (r, errs) = c.into_resolved();
    assert_eq!(r.colors.red, "\x1b[38;2;243;139;168m");
    assert_eq!(errs.len(), 1);
}

#[test]
fn config_path_from_environment() {
    assert_eq!(config_path(Some("/x".into()), Some("/home/a".into())), "/x/pacwoman/config.json");
    assert_eq!(config_path(None, Some("/home/a".into())), "/home/a/.config/pacwoman/config.json");
    assert_eq!(config_path(None, None), "/root/.config/pacwoman/config.json");
}

#[test]
fn default_config_checks_clean() {
    let (lines, ok) = Config::check("/p/config.json", &ConfigSource::Parsed(Config::default()));
    assert!(ok);
    assert!(lines.iter().any(|l| l.contains("config is clean")));
    assert!(lines.iter().any(|l| l.contains("bar config ok (width=24)")));
}

#[test]
fn missing_config_checks_clean() {
    let (lines, ok) = Config::check("/p/config.json", &ConfigSource::Missing);
    assert!(ok);
    assert_eq!(lines.len(), 4);
    assert!(lines[2].contains("no config file found"));
}

#[test]
fn broken_config_counts_errors() {
    let mut c = Config::default();
    c.colors.teal = "xyz".to_string();
    c.bar.width = 0;
    let (lines, ok) = Config::check("/p", &ConfigSource::Parsed(c));
    assert!(!ok);
    assert!(lines.iter().any(|l| l.contains("2 errors found")));
    let (lines2, ok2) = Config::check("/p", &ConfigSource::Invalid("expected value".into()));
    assert!(!ok2);
    assert!(lines2[2].ends_with("JSON parse error: expected value"));
}

#[test]
fn load_reports_file_problems() {
    let (rc, pe, ce) = Config::load("/p/config.json", ConfigSource::Unreadable("denied".into()));
    assert_eq!(pe, vec!["could not read /p/config.json: denied".to_string()]);
    assert!(ce.is_empty());
    assert_eq!(rc.bar.width, 24);
    assert!(!rc.plain);
    let (_, pe2, _) = Config::load("/p", ConfigSource::Invalid("eof".into()));
    assert_eq!(pe2, vec!["config parse error: eof".to_string()]);
}

#[test]
fn signs_are_not_hex_digits() {
    let mut e = Vec::new();
    assert_eq!(parse_hex("+f+f+f", "red", &mut e), None);
    assert_eq!(e, vec!["colors.red: \"+f+f+f\" contains non-hex characters".to_string()]);
}

#[test]
fn non_ascii_colour_is_reported() {
    let mut e = Vec::new();
    assert_eq!(parse_hex("aé123", "green", &mut e), None);
    assert_eq!(e.len(), 1);
    assert!(e[0].starts_with("colors.green: "));
    assert!(e[0].ends_with(" contains non-hex characters"));
}

#[test]
fn one_bad_field_among_good_ones() {
    let mut c = Config::default();
    c.colors.blue = "nothex".to_string();
    c.colors.teal = "#000000".to_string();
    let mut errs = Vec::new();
    let r = ResolvedColors::resolve(&c.colors, &mut errs);
    assert_eq!(errs, vec!["colors.blue: \"nothex\" contains non-hex characters".to_string()]);
    assert_eq!(r.blue, "\x1b[38;2;137;180;250m");
    assert_eq!(r.teal, "\x1b[38;2;0;0;0m");
    assert_eq!(r.green, "\x1b[38;2;166;227;161m");
}

#[test]
fn mocha_roles_are_distinct() {
    let m = ResolvedColors::mocha();
    let roles = [
        ColorRole::Green, ColorRole::Blue, ColorRole::Red, ColorRole::Yellow, ColorRole::Mauve,
        ColorRole::Peach, ColorRole::Teal, ColorRole::Text, ColorRole::Subtext1, ColorRole::Subtext0,
        ColorRole::Surface2, ColorRole::Surface1, ColorRole::Rosewater, ColorRole::Flamingo,
    ];
    for (i, a) in roles.iter().enumerate() {
        for b in roles.iter().skip(i + 1) {
            assert_ne!(a.resolve(&m), b.resolve(&m));
        }
    }
}
