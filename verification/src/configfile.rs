use vstd::prelude::*;
use vstd::string::*;
use crate::config::{
    ansi_seq, default_bar, default_behavior, default_hex, default_suppress, default_symbols,
    is_default_config, mocha_blue, mocha_flamingo, mocha_green, mocha_mauve, mocha_peach,
    mocha_red, mocha_rosewater, mocha_subtext0, mocha_subtext1, mocha_surface1, mocha_surface2,
    mocha_teal, mocha_text, mocha_yellow, resolved_from, ColorRole, Config, ResolvedColors,
    ResolvedConfig,
};
use crate::text::{dec_seq, decimal, digit_char, views};

verus! {

/// What was found at the configuration path.
pub enum ConfigSource {
    /// No file.
    Missing,
    /// The file could not be read, for the reason given.
    Unreadable(String),
    /// The file is not a valid configuration, for the reason given.
    Invalid(String),
    /// The file holds this configuration.
    Parsed(Config),
}

/// The reset sequence.
pub open spec fn rst() -> Seq<char> {
    "\x1b[0m"@
}

/// Bold.
pub open spec fn bld() -> Seq<char> {
    "\x1b[1m"@
}

/// Dim.
pub open spec fn dm() -> Seq<char> {
    "\x1b[2m"@
}

/// A coloured mark followed by a message: `  ✓  message`.
pub open spec fn mark_line(color: Seq<char>, mark: Seq<char>, msg: Seq<char>) -> Seq<char> {
    "  "@ + color + mark + rst() + "  "@ + msg
}

/// The two lines for a colour field that fell back to its default.
pub open spec fn colour_error_lines(errs: Seq<Seq<char>>) -> Seq<Seq<char>>
    decreases errs.len(),
{
    if errs.len() == 0 {
        seq![]
    } else {
        colour_error_lines(errs.drop_last()) + seq![
            mark_line(ansi_seq(mocha_red()), "✗"@, errs.last()),
            "    "@ + dm() + "falling back to Mocha default for this field"@ + rst(),
        ]
    }
}

/// How many problems a parsed configuration has: its unreadable colours, and a bar of
/// width 0.
pub open spec fn problem_count(c: Config) -> nat {
    c.colors.colour_errors().len() + if c.bar.width == 0 { 1nat } else { 0nat }
}

/// The first two lines of the report: the title and the path.
pub open spec fn report_head(path: Seq<char>) -> Seq<Seq<char>> {
    seq![
        "\n"@ + ansi_seq(mocha_mauve()) + bld() + "  :: "@ + rst() + bld() + "checking config"@ + rst(),
        "  "@ + ansi_seq(mocha_subtext1()) + path + rst() + "\n"@,
    ]
}

/// The report on a configuration that was read, and whether it is clean.
pub open spec fn parsed_report(c: Config) -> (Seq<Seq<char>>, bool) {
    let grn = ansi_seq(mocha_green());
    let red = ansi_seq(mocha_red());
    let yel = ansi_seq(mocha_yellow());
    let errs = c.colors.colour_errors();
    let colours = if errs.len() == 0 {
        seq![mark_line(grn, "✓"@, "all colour fields are valid hex"@)]
    } else {
        colour_error_lines(errs)
    };
    let bar = if c.bar.width == 0 {
        seq![mark_line(yel, "⚠"@, "bar.width is 0 — progress bars will be invisible"@)]
    } else {
        seq![mark_line(grn, "✓"@, "bar config ok (width="@ + dec_seq(c.bar.width as nat) + ")"@)]
    };
    let n = problem_count(c);
    let verdict = if n == 0 {
        "  "@ + grn + bld() + "✓  config is clean"@ + rst()
    } else {
        "  "@ + red + bld() + "✗  "@ + dec_seq(n) + " error"@ + (if n == 1 { ""@ } else { "s"@ }) + " found"@
            + rst()
    };
    (seq![mark_line(grn, "✓"@, "JSON is valid"@)] + colours + bar + seq![""@, verdict, ""@], n == 0)
}

/// The report of checking the configuration at `path`, and whether it is clean.
pub open spec fn check_report_seq(path: Seq<char>, src: ConfigSource) -> (Seq<Seq<char>>, bool) {
    let red = ansi_seq(mocha_red());
    let yel = ansi_seq(mocha_yellow());
    let head = report_head(path);
    match src {
        ConfigSource::Missing => (head + seq![
            mark_line(yel, "⚠"@, "no config file found — using built-in Mocha defaults"@),
            "  "@ + dm() + "run with --gen-config to create one"@ + rst(),
        ], true),
        ConfigSource::Unreadable(e) => (head + seq![mark_line(red, "✗"@, "could not read file: "@ + e@)], false),
        ConfigSource::Invalid(e) => (head + seq![
            mark_line(red, "✗"@, "JSON parse error: "@ + e@),
            "\n  "@ + yel + "result:"@ + rst() + " "@ + red + "1 error — fix before continuing"@ + rst(),
        ], false),
        ConfigSource::Parsed(c) => {
            let p = parsed_report(c);
            (head + p.0, p.1)
        },
    }
}

fn mark_line_exec(color: &str, mark: &str, msg: &str) -> (r: String)
    ensures
        r@ == mark_line(color@, mark@, msg@),
{
    let mut r = String::from_str("  ");
    r.append(color);
    r.append(mark);
    r.append("\x1b[0m");
    r.append("  ");
    r.append(msg);
    r
}

/// The colours that the report is printed in.
pub open spec fn report_colors(c: ResolvedColors) -> bool {
    &&& c.reset@ == rst()
    &&& c.bold@ == bld()
    &&& c.dim@ == dm()
    &&& c.green@ == ansi_seq(mocha_green())
    &&& c.red@ == ansi_seq(mocha_red())
    &&& c.yellow@ == ansi_seq(mocha_yellow())
    &&& c.mauve@ == ansi_seq(mocha_mauve())
    &&& c.subtext1@ == ansi_seq(mocha_subtext1())
}

fn head_lines(path: &str, c: &ResolvedColors) -> (r: Vec<String>)
    requires
        report_colors(*c),
    ensures
        views(r@) == report_head(path@),
{
    let mut out: Vec<String> = Vec::new();
    let mut h1 = String::from_str("\n");
    h1.append(c.mauve.as_str());
    h1.append(c.bold.as_str());
    h1.append("  :: ");
    h1.append(c.reset.as_str());
    h1.append(c.bold.as_str());
    h1.append("checking config");
    h1.append(c.reset.as_str());
    let mut h2 = String::from_str("  ");
    h2.append(c.subtext1.as_str());
    h2.append(path);
    h2.append(c.reset.as_str());
    h2.append("\n");
    out.push(h1);
    out.push(h2);
    assert(views(out@) == seq![h1@, h2@]);
    out
}

fn colour_lines(errors: &Vec<String>, c: &ResolvedColors) -> (r: Vec<String>)
    requires
        report_colors(*c),
    ensures
        views(r@) == (if errors.len() == 0 {
            seq![mark_line(ansi_seq(mocha_green()), "✓"@, "all colour fields are valid hex"@)]
        } else {
            colour_error_lines(views(errors@))
        }),
{
    let mut out: Vec<String> = Vec::new();
    if errors.len() == 0 {
        let l = mark_line_exec(c.green.as_str(), "✓", "all colour fields are valid hex");
        out.push(l);
        assert(views(out@) == seq![l@]);
        return out;
    }
    let mut i: usize = 0;
    assert(views(errors@).take(0) == Seq::<Seq<char>>::empty());
    while i < errors.len()
        invariant
            i <= errors.len(),
            report_colors(*c),
            views(out@) == colour_error_lines(views(errors@).take(i as int)),
        decreases errors.len() - i,
    {
        let l1 = mark_line_exec(c.red.as_str(), "✗", errors[i].as_str());
        let mut l2 = String::from_str("    ");
        l2.append(c.dim.as_str());
        l2.append("falling back to Mocha default for this field");
        l2.append(c.reset.as_str());
        let ghost before = views(out@);
        out.push(l1);
        out.push(l2);
        assert(views(out@) == before + seq![l1@, l2@]);
        assert(views(errors@).take(i + 1).drop_last() == views(errors@).take(i as int));
        assert(views(errors@).take(i + 1).last() == errors@[i as int]@);
        i = i + 1;
    }
    assert(views(errors@).take(errors.len() as int) == views(errors@));
    out
}

fn verdict_line(n: usize, c: &ResolvedColors) -> (r: String)
    requires
        report_colors(*c),
    ensures
        r@ == (if n == 0 {
            "  "@ + ansi_seq(mocha_green()) + bld() + "✓  config is clean"@ + rst()
        } else {
            "  "@ + ansi_seq(mocha_red()) + bld() + "✗  "@ + dec_seq(n as nat) + " error"@ + (if n == 1 {
                ""@
            } else {
                "s"@
            }) + " found"@ + rst()
        }),
{
    let mut v = String::from_str("  ");
    if n == 0 {
        v.append(c.green.as_str());
        v.append(c.bold.as_str());
        v.append("✓  config is clean");
    } else {
        v.append(c.red.as_str());
        v.append(c.bold.as_str());
        v.append("✗  ");
        let d = decimal(n as u64);
        v.append(d.as_str());
        v.append(" error");
        if n == 1 {
            v.append("");
        } else {
            v.append("s");
        }
        v.append(" found");
    }
    v.append(c.reset.as_str());
    v
}

proof fn lemma_hex_error_len(f: Seq<char>, s: Seq<char>)
    ensures
        crate::config::hex_error(f, s).len() <= 1,
{
    reveal(crate::config::hex_error);
}

proof fn lemma_colour_errors_len(h: crate::config::ColorHexConfig)
    ensures
        h.colour_errors().len() <= 14,
{
    lemma_hex_error_len("green"@, h.green@);
    lemma_hex_error_len("blue"@, h.blue@);
    lemma_hex_error_len("red"@, h.red@);
    lemma_hex_error_len("yellow"@, h.yellow@);
    lemma_hex_error_len("mauve"@, h.mauve@);
    lemma_hex_error_len("peach"@, h.peach@);
    lemma_hex_error_len("teal"@, h.teal@);
    lemma_hex_error_len("text"@, h.text@);
    lemma_hex_error_len("subtext1"@, h.subtext1@);
    lemma_hex_error_len("subtext0"@, h.subtext0@);
    lemma_hex_error_len("surface2"@, h.surface2@);
    lemma_hex_error_len("surface1"@, h.surface1@);
    lemma_hex_error_len("rosewater"@, h.rosewater@);
    lemma_hex_error_len("flamingo"@, h.flamingo@);
}

/// The messages of the colour fields that cannot be read.
#[verifier::spinoff_prover]
fn colour_errors_of(cfg: &Config) -> (r: Vec<String>)
    ensures
        views(r@) == cfg.colors.colour_errors(),
{
    let mut errors: Vec<String> = Vec::new();
    let _ = ResolvedColors::resolve(&cfg.colors, &mut errors);
    errors
}

fn bar_line_exec(w: usize, c: &ResolvedColors) -> (r: String)
    requires
        report_colors(*c),
    ensures
        r@ == (if w == 0 {
            mark_line(ansi_seq(mocha_yellow()), "⚠"@, "bar.width is 0 — progress bars will be invisible"@)
        } else {
            mark_line(ansi_seq(mocha_green()), "✓"@, "bar config ok (width="@ + dec_seq(w as nat) + ")"@)
        }),
{
    if w == 0 {
        mark_line_exec(c.yellow.as_str(), "⚠", "bar.width is 0 — progress bars will be invisible")
    } else {
        let mut m = String::from_str("bar config ok (width=");
        let d = decimal(w as u64);
        m.append(d.as_str());
        m.append(")");
        mark_line_exec(c.green.as_str(), "✓", m.as_str())
    }
}

fn parsed_lines(cfg: &Config, c: &ResolvedColors) -> (r: (Vec<String>, bool))
    requires
        report_colors(*c),
    ensures
        (views(r.0@), r.1) == parsed_report(*cfg),
{
    let errors = colour_errors_of(cfg);
    proof {
        lemma_colour_errors_len(cfg.colors);
    }
    let mut out: Vec<String> = Vec::new();
    let a = mark_line_exec(c.green.as_str(), "✓", "JSON is valid");
    out.push(a);
    let cl = colour_lines(&errors, c);
    let w = cfg.bar.width;
    let bar_line = bar_line_exec(w, c);
    let n: usize = errors.len() + if w == 0 {
        1
    } else {
        0
    };
    let verdict = verdict_line(n, c);
    let ghost first = views(out@);
    let mut i: usize = 0;
    while i < cl.len()
        invariant
            i <= cl.len(),
            views(out@) == first + views(cl@).take(i as int),
        decreases cl.len() - i,
    {
        let ghost before = views(out@);
        let x = cl[i].clone();
        out.push(x);
        assert(views(out@) == before.push(x@));
        assert(views(cl@).take(i + 1) == views(cl@).take(i as int).push(cl@[i as int]@));
        i = i + 1;
    }
    assert(views(cl@).take(cl.len() as int) == views(cl@));
    let ghost mid = views(out@);
    let e1 = String::from_str("");
    let e2 = String::from_str("");
    out.push(bar_line);
    out.push(e1);
    out.push(verdict);
    out.push(e2);
    assert(views(out@) == mid + seq![bar_line@] + seq![e1@, verdict@, e2@]);
    (out, n == 0)
}

impl Config {
    /// Checks what was found at the configuration path `path`: the report to print, and
    /// whether the configuration is clean (a missing file is).
    pub fn check(path: &str, src: &ConfigSource) -> (r: (Vec<String>, bool))
        ensures
            (views(r.0@), r.1) == check_report_seq(path@, *src),
    {
        let c = ResolvedColors::mocha();
        let mut out = head_lines(path, &c);
        let ghost head = views(out@);
        let (tail, ok): (Vec<String>, bool) = match src {
            ConfigSource::Missing => {
                let a = mark_line_exec(c.yellow.as_str(), "⚠", "no config file found — using built-in Mocha defaults");
                let mut b = String::from_str("  ");
                b.append(c.dim.as_str());
                b.append("run with --gen-config to create one");
                b.append(c.reset.as_str());
                let mut t: Vec<String> = Vec::new();
                t.push(a);
                t.push(b);
                assert(views(t@) == seq![a@, b@]);
                (t, true)
            },
            ConfigSource::Unreadable(e) => {
                let mut m = String::from_str("could not read file: ");
                m.append(e.as_str());
                let a = mark_line_exec(c.red.as_str(), "✗", m.as_str());
                let mut t: Vec<String> = Vec::new();
                t.push(a);
                assert(views(t@) == seq![a@]);
                (t, false)
            },
            ConfigSource::Invalid(e) => {
                let mut m = String::from_str("JSON parse error: ");
                m.append(e.as_str());
                let a = mark_line_exec(c.red.as_str(), "✗", m.as_str());
                let mut b = String::from_str("\n  ");
                b.append(c.yellow.as_str());
                b.append("result:");
                b.append(c.reset.as_str());
                b.append(" ");
                b.append(c.red.as_str());
                b.append("1 error — fix before continuing");
                b.append(c.reset.as_str());
                let mut t: Vec<String> = Vec::new();
                t.push(a);
                t.push(b);
                assert(views(t@) == seq![a@, b@]);
                (t, false)
            },
            ConfigSource::Parsed(cfg) => parsed_lines(cfg, &c),
        };
        let mut i: usize = 0;
        while i < tail.len()
            invariant
                i <= tail.len(),
                views(out@) == head + views(tail@).take(i as int),
            decreases tail.len() - i,
        {
            let ghost before = views(out@);
            let x = tail[i].clone();
            out.push(x);
            assert(views(out@) == before.push(x@));
            assert(views(tail@).take(i + 1) == views(tail@).take(i as int).push(tail@[i as int]@));
            i = i + 1;
        }
        assert(views(tail@).take(tail.len() as int) == views(tail@));
        (out, ok)
    }
}

/// The messages about the configuration file itself, before its colours are read.
pub open spec fn load_errors_seq(path: Seq<char>, src: ConfigSource) -> Seq<Seq<char>> {
    match src {
        ConfigSource::Missing => seq![],
        ConfigSource::Unreadable(e) => seq!["could not read "@ + path + ": "@ + e@],
        ConfigSource::Invalid(e) => seq!["config parse error: "@ + e@],
        ConfigSource::Parsed(_) => seq![],
    }
}

/// The Catppuccin Mocha colours.
pub open spec fn mocha_colors(c: ResolvedColors) -> bool {
    &&& c.reset@ == "\x1b[0m"@
    &&& c.bold@ == "\x1b[1m"@
    &&& c.dim@ == "\x1b[2m"@
    &&& c.italic@ == "\x1b[3m"@
    &&& c.green@ == ansi_seq(mocha_green())
    &&& c.blue@ == ansi_seq(mocha_blue())
    &&& c.red@ == ansi_seq(mocha_red())
    &&& c.yellow@ == ansi_seq(mocha_yellow())
    &&& c.mauve@ == ansi_seq(mocha_mauve())
    &&& c.peach@ == ansi_seq(mocha_peach())
    &&& c.teal@ == ansi_seq(mocha_teal())
    &&& c.text@ == ansi_seq(mocha_text())
    &&& c.subtext1@ == ansi_seq(mocha_subtext1())
    &&& c.subtext0@ == ansi_seq(mocha_subtext0())
    &&& c.surface2@ == ansi_seq(mocha_surface2())
    &&& c.surface1@ == ansi_seq(mocha_surface1())
    &&& c.rosewater@ == ansi_seq(mocha_rosewater())
    &&& c.flamingo@ == ansi_seq(mocha_flamingo())
}

/// Characters 7, 8, 9 and 11 of a colour escape: enough to tell the Mocha colours apart.
spec fn colour_key(s: Seq<char>) -> (char, char, char, char) {
    (s[7], s[8], s[9], s[11])
}

proof fn lemma_dec3(n: nat)
    requires
        100 <= n <= 999,
    ensures
        dec_seq(n) == seq![digit_char(n / 100), digit_char(n / 10 % 10), digit_char(n % 10)],
{
    reveal_with_fuel(dec_seq, 3);
    assert(n / 10 / 10 == n / 100);
    assert(dec_seq(n / 100) == seq![digit_char(n / 100)]);
    assert(dec_seq(n / 10) == seq![digit_char(n / 100), digit_char(n / 10 % 10)]);
}

proof fn lemma_dec2(n: nat)
    requires
        10 <= n <= 99,
    ensures
        dec_seq(n) == seq![digit_char(n / 10), digit_char(n % 10)],
{
    reveal_with_fuel(dec_seq, 2);
    assert(dec_seq(n / 10) == seq![digit_char(n / 10)]);
}

/// The key of an escape whose red and green have three digits.
proof fn lemma_key_wide(c: (u8, u8, u8))
    requires
        100 <= c.0,
        100 <= c.1,
    ensures
        colour_key(ansi_seq(c)) == (
            digit_char(c.0 as nat / 100),
            digit_char(c.0 as nat / 10 % 10),
            digit_char(c.0 as nat % 10),
            digit_char(c.1 as nat / 100),
        ),
{
    reveal_strlit("\x1b[38;2;");
    reveal_strlit(";");
    lemma_dec3(c.0 as nat);
    lemma_dec3(c.1 as nat);
    let s = ansi_seq(c);
    let p = "\x1b[38;2;"@ + dec_seq(c.0 as nat) + ";"@ + dec_seq(c.1 as nat);
    assert(p.len() == 14);
    assert(s[7] == p[7] && s[8] == p[8] && s[9] == p[9] && s[11] == p[11]);
}

/// The key of an escape whose red and green have two digits.
proof fn lemma_key_narrow(c: (u8, u8, u8))
    requires
        10 <= c.0 < 100,
        10 <= c.1 < 100,
    ensures
        colour_key(ansi_seq(c)) == (
            digit_char(c.0 as nat / 10),
            digit_char(c.0 as nat % 10),
            ';',
            digit_char(c.1 as nat % 10),
        ),
{
    reveal_strlit("\x1b[38;2;");
    reveal_strlit(";");
    lemma_dec2(c.0 as nat);
    lemma_dec2(c.1 as nat);
    let s = ansi_seq(c);
    let p = "\x1b[38;2;"@ + dec_seq(c.0 as nat) + ";"@ + dec_seq(c.1 as nat);
    assert(p.len() == 12);
    assert(s[7] == p[7] && s[8] == p[8] && s[9] == p[9] && s[11] == p[11]);
}

/// In the Mocha palette each role has a colour of its own: two different roles never
/// resolve to the same escape sequence.
pub proof fn law_mocha_roles_distinct(c: ResolvedColors, r1: ColorRole, r2: ColorRole)
    requires
        mocha_colors(c),
        r1 != r2,
    ensures
        c.role_seq(r1) != c.role_seq(r2),
{
    lemma_key_wide(mocha_green());
    lemma_key_wide(mocha_blue());
    lemma_key_wide(mocha_red());
    lemma_key_wide(mocha_yellow());
    lemma_key_wide(mocha_mauve());
    lemma_key_wide(mocha_peach());
    lemma_key_wide(mocha_teal());
    lemma_key_wide(mocha_text());
    lemma_key_wide(mocha_subtext1());
    lemma_key_wide(mocha_subtext0());
    lemma_key_narrow(mocha_surface2());
    lemma_key_narrow(mocha_surface1());
    lemma_key_wide(mocha_rosewater());
    lemma_key_wide(mocha_flamingo());
    assert(colour_key(c.role_seq(r1)) != colour_key(c.role_seq(r2)));
}

/// The runtime configuration of the defaults: Mocha colours and default settings.
pub open spec fn is_default_resolved(rc: ResolvedConfig) -> bool {
    &&& mocha_colors(rc.colors)
    &&& default_bar(rc.bar)
    &&& default_symbols(rc.symbols)
    &&& default_suppress(rc.suppress)
    &&& default_behavior(rc.behavior)
}

/// The defaults resolve to the Mocha colours, with no message.
pub proof fn law_defaults_resolve_to_mocha(c: Config, rc: ResolvedConfig)
    requires
        is_default_config(c),
        resolved_from(rc, c),
    ensures
        is_default_resolved(rc),
        c.colors.colour_errors().len() == 0,
{
    crate::config::lemma_default_hex_reads(c.colors);
    assert(crate::config::colour_or(c.colors.green@, mocha_green()) == mocha_green());
    assert(crate::config::colour_or(c.colors.blue@, mocha_blue()) == mocha_blue());
    assert(crate::config::colour_or(c.colors.red@, mocha_red()) == mocha_red());
    assert(crate::config::colour_or(c.colors.yellow@, mocha_yellow()) == mocha_yellow());
    assert(crate::config::colour_or(c.colors.mauve@, mocha_mauve()) == mocha_mauve());
    assert(crate::config::colour_or(c.colors.peach@, mocha_peach()) == mocha_peach());
    assert(crate::config::colour_or(c.colors.teal@, mocha_teal()) == mocha_teal());
    assert(crate::config::colour_or(c.colors.text@, mocha_text()) == mocha_text());
    assert(crate::config::colour_or(c.colors.subtext1@, mocha_subtext1()) == mocha_subtext1());
    assert(crate::config::colour_or(c.colors.subtext0@, mocha_subtext0()) == mocha_subtext0());
    assert(crate::config::colour_or(c.colors.surface2@, mocha_surface2()) == mocha_surface2());
    assert(crate::config::colour_or(c.colors.surface1@, mocha_surface1()) == mocha_surface1());
    assert(crate::config::colour_or(c.colors.rosewater@, mocha_rosewater()) == mocha_rosewater());
    assert(crate::config::colour_or(c.colors.flamingo@, mocha_flamingo()) == mocha_flamingo());
}

/// The default configuration passes the check.
pub proof fn law_default_config_is_clean(c: Config)
    requires
        is_default_config(c),
    ensures
        parsed_report(c).1,
{
    crate::config::lemma_default_hex_reads(c.colors);
}

impl Config {
    /// The configuration that the program runs with, from what was found at `path`: the
    /// file's when it was read, else the defaults; with the messages about the file and
    /// those about colour fields that fell back to their Mocha default.
    pub fn load(path: &str, src: ConfigSource) -> (r: (ResolvedConfig, Vec<String>, Vec<String>))
        ensures
            views(r.1@) == load_errors_seq(path@, src),
            match src {
                ConfigSource::Parsed(c) => resolved_from(r.0, c) && views(r.2@) == c.colors.colour_errors(),
                _ => is_default_resolved(r.0) && r.2@.len() == 0,
            },
            !r.0.plain,
            !r.0.noprogressbar,
    {
        let ghost src0 = src;
        let mut parse_errors: Vec<String> = Vec::new();
        let raw = match src {
            ConfigSource::Parsed(c) => c,
            ConfigSource::Missing => Config::default(),
            ConfigSource::Unreadable(e) => {
                let mut m = String::from_str("could not read ");
                m.append(path);
                m.append(": ");
                m.append(e.as_str());
                parse_errors.push(m);
                Config::default()
            },
            ConfigSource::Invalid(e) => {
                let mut m = String::from_str("config parse error: ");
                m.append(e.as_str());
                parse_errors.push(m);
                Config::default()
            },
        };
        proof {
            if !(src0 is Parsed) {
                crate::config::lemma_default_hex_reads(raw.colors);
            }
        }
        assert(views(parse_errors@) == load_errors_seq(path@, src0));
        let (resolved, colour_errors) = raw.into_resolved();
        proof {
            if !(src0 is Parsed) {
                law_defaults_resolve_to_mocha(raw, resolved);
            }
        }
        (resolved, parse_errors, colour_errors)
    }
}

} // verus!
