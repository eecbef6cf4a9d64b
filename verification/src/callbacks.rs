use vstd::prelude::*;
use vstd::string::*;
use crate::config::{ColorRole, ResolvedConfig};
use crate::render::{status_line, status_line_seq};
pub use crate::render::human_size;
use crate::size::human_size_seq;
use crate::text::{
    lower_text, to_lowercase, trim, trim_seq, parse_unsigned, parse_unsigned_seq, views,
    dec_seq, dec_int_seq, pad_left_seq, push_decimal, push_padded_left, decimal, decimal_signed,
    chars_of, contains, contains_seq, pad_seq, push_padded, push_repeated, repeat_seq,
    trim_end_matches, trim_end_matches_len, trim_end_matches_seq,
};

verus! {

// ── Truncation ────────────────────────────────────────────────────────────────

/// The first `max` characters of `s` (all of `s` when it is shorter): the width settings
/// of names count characters.
pub open spec fn trunc_seq(s: Seq<char>, max: int) -> Seq<char> {
    if s.len() <= max {
        s
    } else {
        s.take(max)
    }
}

/// `s` cut to at most `max` characters.
pub fn trunc<'a>(s: &'a str, max: usize) -> (r: &'a str)
    ensures
        r@ == trunc_seq(s@, max as int),
{
    let n = s.unicode_len();
    if n <= max {
        s
    } else {
        s.substring_char(0, max)
    }
}

/// The file name without its package, signature or database extensions.
pub open spec fn strip_pkg_suffix_seq(s: Seq<char>) -> Seq<char> {
    trim_end_matches_seq(
        trim_end_matches_seq(
            trim_end_matches_seq(
                trim_end_matches_seq(
                    trim_end_matches_seq(trim_end_matches_seq(s, ".sig"@), ".pkg.tar.zst"@),
                    ".pkg.tar.xz"@,
                ),
                ".pkg.tar.gz"@,
            ),
            ".db.tar.gz"@,
        ),
        ".db"@,
    )
}

/// Removes, in turn, every trailing `.sig`, `.pkg.tar.zst`, `.pkg.tar.xz`, `.pkg.tar.gz`,
/// `.db.tar.gz` and `.db`.
pub fn strip_pkg_suffix<'a>(s: &'a str) -> (r: &'a str)
    ensures
        r@ == strip_pkg_suffix_seq(s@),
{
    let v = chars_of(s);
    let sig = chars_of(".sig");
    let zst = chars_of(".pkg.tar.zst");
    let xz = chars_of(".pkg.tar.xz");
    let gz = chars_of(".pkg.tar.gz");
    let dbgz = chars_of(".db.tar.gz");
    let db = chars_of(".db");
    proof {
        reveal_strlit(".sig");
        reveal_strlit(".pkg.tar.zst");
        reveal_strlit(".pkg.tar.xz");
        reveal_strlit(".pkg.tar.gz");
        reveal_strlit(".db.tar.gz");
        reveal_strlit(".db");
    }
    assert(v@.take(v.len() as int) == v@);
    let j1 = trim_end_matches_len(&v, v.len(), &sig);
    let j2 = trim_end_matches_len(&v, j1, &zst);
    let j3 = trim_end_matches_len(&v, j2, &xz);
    let j4 = trim_end_matches_len(&v, j3, &gz);
    let j5 = trim_end_matches_len(&v, j4, &dbgz);
    let j6 = trim_end_matches_len(&v, j5, &db);
    s.substring_char(0, j6)
}

// ── Bars and message lines ────────────────────────────────────────────────────

/// A progress bar with `filled` cells of `fill` in `col`, then the rest of the
/// `bar.width` cells as `empty` in the `surface1` colour.
pub fn render_bar(filled: usize, col: &str, cfg: &ResolvedConfig) -> (s: String)
    requires
        filled <= cfg.bar.width,
    ensures
        s@ == col@ + repeat_seq(cfg.bar.fill@, filled as nat) + cfg.colors.reset@
            + cfg.colors.surface1@ + repeat_seq(cfg.bar.empty@, (cfg.bar.width - filled) as nat)
            + cfg.colors.reset@,
{
    let b = &cfg.bar;
    let c = &cfg.colors;
    let mut s = String::from_str(col);
    push_repeated(&mut s, b.fill.as_str(), filled);
    s.append(c.reset.as_str());
    s.append(c.surface1.as_str());
    push_repeated(&mut s, b.empty.as_str(), b.width - filled);
    s.append(c.reset.as_str());
    s
}

/// What a callback writes: a piece of text, whether a line break follows, and
/// whether it goes to standard error.
pub struct Emit {
    pub text: String,
    pub newline: bool,
    pub stderr: bool,
}

/// Clears the current terminal line.
pub open spec fn erase_seq() -> Seq<char> {
    "\r\x1b[2K"@
}

fn emit(text: String, newline: bool, stderr: bool) -> (e: Emit)
    ensures
        e.text@ == text@,
        e.newline == newline,
        e.stderr == stderr,
{
    Emit { text, newline, stderr }
}

/// The line `info_msg` prints.
pub fn info_msg(msg: &str, cfg: &ResolvedConfig) -> (s: String)
    ensures
        s@ == "  "@ + cfg.colors.subtext1@ + msg@ + cfg.colors.reset@,
{
    let mut s = String::from_str("  ");
    s.append(cfg.colors.subtext1.as_str());
    s.append(msg);
    s.append(cfg.colors.reset.as_str());
    s
}

/// The line `warn_msg` prints.
pub fn warn_msg(msg: &str, cfg: &ResolvedConfig) -> (s: String)
    ensures
        s@ == status_line_seq(cfg.colors.peach@, cfg.symbols.warn@, msg@, *cfg),
{
    status_line(cfg.colors.peach.as_str(), cfg.symbols.warn.as_str(), msg, cfg)
}

/// The line `error_msg` prints (to standard error).
pub fn error_msg(msg: &str, cfg: &ResolvedConfig) -> (s: String)
    ensures
        s@ == status_line_seq(cfg.colors.red@, cfg.symbols.error@, msg@, *cfg),
{
    status_line(cfg.colors.red.as_str(), cfg.symbols.error.as_str(), msg, cfg)
}

/// The line `success_msg` prints.
pub fn success_msg(msg: &str, cfg: &ResolvedConfig) -> (s: String)
    ensures
        s@ == status_line_seq(cfg.colors.green@, cfg.symbols.success@, msg@, *cfg),
{
    status_line(cfg.colors.green.as_str(), cfg.symbols.success.as_str(), msg, cfg)
}

/// The line `header_msg` prints (it starts with an empty line).
pub fn header_msg(msg: &str, cfg: &ResolvedConfig) -> (s: String)
    ensures
        s@ == "\n"@ + cfg.colors.mauve@ + cfg.colors.bold@ + "  "@ + cfg.symbols.header@
            + cfg.colors.reset@ + " "@ + cfg.colors.text@ + cfg.colors.bold@ + msg@
            + cfg.colors.reset@,
{
    let c = &cfg.colors;
    let mut s = String::from_str("\n");
    s.append(c.mauve.as_str());
    s.append(c.bold.as_str());
    s.append("  ");
    s.append(cfg.symbols.header.as_str());
    s.append(c.reset.as_str());
    s.append(" ");
    s.append(c.text.as_str());
    s.append(c.bold.as_str());
    s.append(msg);
    s.append(c.reset.as_str());
    s
}

/// The transient status line (no line break follows it).
pub open spec fn status_seq(msg: Seq<char>, cfg: ResolvedConfig) -> Seq<char> {
    erase_seq() + "  "@ + cfg.colors.surface2@ + cfg.symbols.box_tick@ + cfg.colors.reset@ + "  "@
        + cfg.colors.mauve@ + msg + "…"@ + cfg.colors.reset@
}

/// The transient status line for `msg`.
pub fn status(msg: &str, cfg: &ResolvedConfig) -> (s: String)
    ensures
        s@ == status_seq(msg@, *cfg),
{
    let c = &cfg.colors;
    let mut s = String::from_str("\r\x1b[2K");
    s.append("  ");
    s.append(c.surface2.as_str());
    s.append(cfg.symbols.box_tick.as_str());
    s.append(c.reset.as_str());
    s.append("  ");
    s.append(c.mauve.as_str());
    s.append(msg);
    s.append("…");
    s.append(c.reset.as_str());
    s
}

/// The section header of a group of rows: it clears the line, then prints the header.
pub open spec fn box_header_seq(msg: Seq<char>, cfg: ResolvedConfig) -> Seq<char> {
    erase_seq() + "  "@ + cfg.colors.surface2@ + cfg.symbols.box_top@ + cfg.colors.reset@ + " "@
        + cfg.colors.subtext1@ + cfg.colors.bold@ + msg + cfg.colors.reset@
}

/// The section header for `msg`.
pub fn box_header(msg: &str, cfg: &ResolvedConfig) -> (s: String)
    ensures
        s@ == box_header_seq(msg@, *cfg),
{
    let c = &cfg.colors;
    let mut s = String::from_str("\r\x1b[2K");
    s.append("  ");
    s.append(c.surface2.as_str());
    s.append(cfg.symbols.box_top.as_str());
    s.append(c.reset.as_str());
    s.append(" ");
    s.append(c.subtext1.as_str());
    s.append(c.bold.as_str());
    s.append(msg);
    s.append(c.reset.as_str());
    s
}

// ── Log callback ──────────────────────────────────────────────────────────────

/// The levels of library log messages.
#[derive(Clone, Copy, Debug, PartialEq, Eq, Structural)]
pub enum LogLevel {
    Error,
    Warning,
    Debug,
    Function,
}

/// Whether a log message is hidden by the suppression settings.
pub open spec fn log_suppressed(level: LogLevel, msg: Seq<char>, cfg: ResolvedConfig) -> bool {
    match level {
        LogLevel::Warning => cfg.suppress.mirror_warnings && (contains_seq(
            msg,
            "too many errors from"@,
        ) || contains_seq(msg, "some mirrors failed"@)),
        LogLevel::Error => cfg.suppress.mirror_errors && contains_seq(
            msg,
            "failed retrieving file"@,
        ),
        _ => true,
    }
}

/// What the log callback writes to standard error for a message: warnings and errors
/// (without their trailing line feeds) unless suppressed; nothing for other levels.
pub fn log_line(level: LogLevel, msg: &str, cfg: &ResolvedConfig) -> (r: Option<String>)
    ensures
        ({
            let m = trim_end_matches_seq(msg@, "\n"@);
            &&& r is None <==> log_suppressed(level, m, *cfg)
            &&& r matches Some(s) ==> (level == LogLevel::Warning ==> s@ == "  "@
                + cfg.colors.peach@ + cfg.symbols.warn@ + cfg.colors.reset@ + "  "@
                + cfg.colors.peach@ + m + cfg.colors.reset@) && (level == LogLevel::Error ==> s@
                == "  "@ + cfg.colors.red@ + cfg.symbols.error@ + cfg.colors.reset@ + "  "@
                + cfg.colors.red@ + m + cfg.colors.reset@)
        }),
{
    proof {
        reveal_strlit("\n");
    }
    let m = trim_end_matches(msg, "\n");
    let c = &cfg.colors;
    let s = &cfg.symbols;
    match level {
        LogLevel::Warning => {
            if cfg.suppress.mirror_warnings && (contains(m.as_str(), "too many errors from")
                || contains(m.as_str(), "some mirrors failed")) {
                return None;
            }
            let mut out = String::from_str("  ");
            out.append(c.peach.as_str());
            out.append(s.warn.as_str());
            out.append(c.reset.as_str());
            out.append("  ");
            out.append(c.peach.as_str());
            out.append(m.as_str());
            out.append(c.reset.as_str());
            Some(out)
        },
        LogLevel::Error => {
            if cfg.suppress.mirror_errors && contains(m.as_str(), "failed retrieving file") {
                return None;
            }
            let mut out = String::from_str("  ");
            out.append(c.red.as_str());
            out.append(s.error.as_str());
            out.append(c.reset.as_str());
            out.append("  ");
            out.append(c.red.as_str());
            out.append(m.as_str());
            out.append(c.reset.as_str());
            Some(out)
        },
        _ => None,
    }
}

// ── Event callback ────────────────────────────────────────────────────────────

/// The phases of a transaction that show a transient status line while they run.
#[derive(Clone, Copy, Debug, PartialEq, Eq, Structural)]
pub enum Stage {
    CheckDeps,
    FileConflicts,
    ResolveDeps,
    InterConflicts,
    Integrity,
    Load,
    DiskSpace,
    Keyring,
}

/// When a hook runs.
#[derive(Clone, Copy, Debug, PartialEq, Eq, Structural)]
pub enum HookWhen {
    PreTransaction,
    PostTransaction,
}

/// A package operation as the library reports it.
pub enum PackageOperation {
    Install { name: String, version: String },
    Upgrade { name: String, old_version: String, new_version: String },
    Downgrade { name: String, old_version: String, new_version: String },
    Reinstall { name: String, version: String },
    Remove { name: String, version: String },
}

/// The events of a transaction, with the values that are shown of them.
pub enum Event {
    /// A phase begins.
    Start(Stage),
    /// A phase ends.
    Done(Stage),
    PackageOperationStart(PackageOperation),
    ScriptletInfo(String),
    DatabaseMissing(String),
    PkgRetrieveStart(usize),
    PkgRetrieveFailed,
    OptDepRemoval(String),
    HookStart(HookWhen),
    HookRunStart(String),
    HookRunDone,
    PacnewCreated(String),
    PacsaveCreated(String),
    /// An event that shows nothing.
    Quiet,
}

/// The status text of a phase.
pub open spec fn stage_text(st: Stage) -> Seq<char> {
    match st {
        Stage::CheckDeps => "checking dependencies"@,
        Stage::FileConflicts => "checking file conflicts"@,
        Stage::ResolveDeps => "resolving dependencies"@,
        Stage::InterConflicts => "checking inter-conflicts"@,
        Stage::Integrity => "checking integrity"@,
        Stage::Load => "loading package files"@,
        Stage::DiskSpace => "checking disk space"@,
        Stage::Keyring => "loading keyring"@,
    }
}

fn stage_str(st: Stage) -> (s: &'static str)
    ensures
        s@ == stage_text(st),
{
    match st {
        Stage::CheckDeps => "checking dependencies",
        Stage::FileConflicts => "checking file conflicts",
        Stage::ResolveDeps => "resolving dependencies",
        Stage::InterConflicts => "checking inter-conflicts",
        Stage::Integrity => "checking integrity",
        Stage::Load => "loading package files",
        Stage::DiskSpace => "checking disk space",
        Stage::Keyring => "loading keyring",
    }
}

/// The line shown when a package operation starts: symbol and colour by operation,
/// the name cut to `pkg_name_width` bytes and padded to that many characters, then
/// the version (or old → new versions).
pub open spec fn operation_seq(op: PackageOperation, cfg: ResolvedConfig) -> Seq<char> {
    let c = cfg.colors;
    let s = cfg.symbols;
    let w = cfg.behavior.pkg_name_width;
    let (sym, col, name, extra) = match op {
        PackageOperation::Install { name, version } => (
            s.install@,
            c.green@,
            name@,
            c.dim@ + version@ + c.reset@,
        ),
        PackageOperation::Upgrade { name, old_version, new_version } => (
            s.upgrade@,
            c.blue@,
            name@,
            c.dim@ + old_version@ + c.reset@ + c.surface2@ + " → "@ + c.reset@ + c.dim@
                + new_version@ + c.reset@,
        ),
        PackageOperation::Downgrade { name, old_version, new_version } => (
            s.downgrade@,
            c.yellow@,
            name@,
            c.dim@ + old_version@ + c.reset@ + c.surface2@ + " → "@ + c.reset@ + c.dim@
                + new_version@ + c.reset@,
        ),
        PackageOperation::Reinstall { name, version } => (
            s.reinstall@,
            c.mauve@,
            name@,
            c.dim@ + version@ + c.reset@,
        ),
        PackageOperation::Remove { name, version } => (
            s.remove@,
            c.red@,
            name@,
            c.dim@ + version@ + c.reset@,
        ),
    };
    erase_seq() + "  "@ + col + c.bold@ + sym + c.reset@ + "  "@ + c.text@ + c.bold@ + pad_seq(
        trunc_seq(name, w as int),
        w as nat,
    ) + c.reset@ + "  "@ + extra
}

fn versions_extra(old_version: &str, new_version: &str, cfg: &ResolvedConfig) -> (s: String)
    ensures
        s@ == cfg.colors.dim@ + old_version@ + cfg.colors.reset@ + cfg.colors.surface2@ + " → "@
            + cfg.colors.reset@ + cfg.colors.dim@ + new_version@ + cfg.colors.reset@,
{
    let c = &cfg.colors;
    let mut s = String::from_str(c.dim.as_str());
    s.append(old_version);
    s.append(c.reset.as_str());
    s.append(c.surface2.as_str());
    s.append(" → ");
    s.append(c.reset.as_str());
    s.append(c.dim.as_str());
    s.append(new_version);
    s.append(c.reset.as_str());
    s
}

fn version_extra(version: &str, cfg: &ResolvedConfig) -> (s: String)
    ensures
        s@ == cfg.colors.dim@ + version@ + cfg.colors.reset@,
{
    let mut s = String::from_str(cfg.colors.dim.as_str());
    s.append(version);
    s.append(cfg.colors.reset.as_str());
    s
}

/// The line shown when a package operation starts.
pub fn operation_line(op: &PackageOperation, cfg: &ResolvedConfig) -> (r: String)
    ensures
        r@ == operation_seq(*op, *cfg),
{
    let c = &cfg.colors;
    let s = &cfg.symbols;
    let w = cfg.behavior.pkg_name_width;
    let (sym, col, name, extra) = match op {
        PackageOperation::Install { name, version } => (
            s.install.as_str(),
            c.green.as_str(),
            name.as_str(),
            version_extra(version.as_str(), cfg),
        ),
        PackageOperation::Upgrade { name, old_version, new_version } => (
            s.upgrade.as_str(),
            c.blue.as_str(),
            name.as_str(),
            versions_extra(old_version.as_str(), new_version.as_str(), cfg),
        ),
        PackageOperation::Downgrade { name, old_version, new_version } => (
            s.downgrade.as_str(),
            c.yellow.as_str(),
            name.as_str(),
            versions_extra(old_version.as_str(), new_version.as_str(), cfg),
        ),
        PackageOperation::Reinstall { name, version } => (
            s.reinstall.as_str(),
            c.mauve.as_str(),
            name.as_str(),
            version_extra(version.as_str(), cfg),
        ),
        PackageOperation::Remove { name, version } => (
            s.remove.as_str(),
            c.red.as_str(),
            name.as_str(),
            version_extra(version.as_str(), cfg),
        ),
    };
    let short = trunc(name, w);
    let mut r = String::from_str("\r\x1b[2K");
    r.append("  ");
    r.append(col);
    r.append(c.bold.as_str());
    r.append(sym);
    r.append(c.reset.as_str());
    r.append("  ");
    r.append(c.text.as_str());
    r.append(c.bold.as_str());
    push_padded(&mut r, short, w);
    r.append(c.reset.as_str());
    r.append("  ");
    r.append(extra.as_str());
    r
}

/// What the event callback writes for an event: `(text, line break, standard error)`,
/// or nothing.
pub open spec fn event_seq(event: Event, cfg: ResolvedConfig) -> Option<(Seq<char>, bool, bool)> {
    match event {
        Event::Start(st) => Some((status_seq(stage_text(st), cfg), false, false)),
        Event::Done(_) => Some((erase_seq(), false, false)),
        Event::PackageOperationStart(op) => Some((operation_seq(op, cfg), false, false)),
        Event::ScriptletInfo(line) => {
            let l = trim_end_matches_seq(line@, "\n"@);
            if cfg.suppress.scriptlet || l.len() == 0 {
                None
            } else {
                Some((erase_seq() + "    "@ + cfg.colors.surface2@ + l + cfg.colors.reset@, false, false))
            }
        },
        Event::DatabaseMissing(db) => Some((
            status_line_seq(
                cfg.colors.peach@,
                cfg.symbols.warn@,
                "database file for '"@ + db@ + "' is missing"@,
                cfg,
            ),
            true,
            false,
        )),
        Event::PkgRetrieveStart(n) => Some((
            box_header_seq(
                "downloading "@ + dec_seq(n as nat) + " package"@ + (if n == 1 {
                    ""@
                } else {
                    "s"@
                }),
                cfg,
            ),
            true,
            false,
        )),
        Event::PkgRetrieveFailed => Some((
            status_line_seq(
                cfg.colors.red@,
                cfg.symbols.error@,
                "failed to retrieve some packages"@,
                cfg,
            ),
            true,
            true,
        )),
        Event::OptDepRemoval(pkg) => if cfg.suppress.optdep_removal {
            None
        } else {
            Some((
                "  "@ + cfg.colors.subtext1@ + "optdep removed: "@ + pkg@ + cfg.colors.reset@,
                true,
                false,
            ))
        },
        Event::HookStart(when) => Some((
            box_header_seq(
                "running "@ + (match when {
                    HookWhen::PreTransaction => "pre"@,
                    HookWhen::PostTransaction => "post"@,
                }) + "-transaction hooks"@,
                cfg,
            ),
            true,
            false,
        )),
        Event::HookRunStart(name) => if cfg.suppress.hook_names {
            None
        } else {
            Some((
                erase_seq() + "  "@ + cfg.colors.surface2@ + cfg.symbols.box_tick@
                    + cfg.colors.reset@ + "  "@ + cfg.colors.subtext0@ + name@
                    + cfg.colors.reset@,
                false,
                false,
            ))
        },
        Event::HookRunDone => if cfg.suppress.hook_names {
            None
        } else {
            Some((erase_seq(), false, false))
        },
        Event::PacnewCreated(file) => if cfg.suppress.pacnew {
            None
        } else {
            Some((
                "  "@ + cfg.colors.subtext1@ + "pacnew created: "@ + file@ + cfg.colors.reset@,
                true,
                false,
            ))
        },
        Event::PacsaveCreated(file) => if cfg.suppress.pacnew {
            None
        } else {
            Some((
                "  "@ + cfg.colors.subtext1@ + "pacsave created: "@ + file@ + cfg.colors.reset@,
                true,
                false,
            ))
        },
        Event::Quiet => None,
    }
}

fn cat3(a: &str, b: &str, c: &str) -> (s: String)
    ensures
        s@ == a@ + b@ + c@,
{
    let mut s = String::from_str(a);
    s.append(b);
    s.append(c);
    s
}

/// What the event callback writes for `event`.
pub fn event_output(event: &Event, cfg: &ResolvedConfig) -> (r: Option<Emit>)
    ensures
        match event_seq(*event, *cfg) {
            Some((t, nl, err)) => r matches Some(e) && e.text@ == t && e.newline == nl && e.stderr
                == err,
            None => r is None,
        },
{
    let c = &cfg.colors;
    match event {
        Event::Start(st) => Some(emit(status(stage_str(*st), cfg), false, false)),
        Event::Done(_) => Some(emit(String::from_str("\r\x1b[2K"), false, false)),
        Event::PackageOperationStart(op) => Some(emit(operation_line(op, cfg), false, false)),
        Event::ScriptletInfo(line) => {
            proof {
                reveal_strlit("\n");
            }
            let l = trim_end_matches(line.as_str(), "\n");
            if cfg.suppress.scriptlet || l.unicode_len() == 0 {
                None
            } else {
                let mut s = String::from_str("\r\x1b[2K");
                s.append("    ");
                s.append(c.surface2.as_str());
                s.append(l.as_str());
                s.append(c.reset.as_str());
                Some(emit(s, false, false))
            }
        },
        Event::DatabaseMissing(db) => {
            let m = cat3("database file for '", db.as_str(), "' is missing");
            Some(emit(warn_msg(m.as_str(), cfg), true, false))
        },
        Event::PkgRetrieveStart(n) => {
            let mut m = String::from_str("downloading ");
            push_decimal(&mut m, *n as u128);
            m.append(" package");
            if *n == 1 {
                m.append("");
            } else {
                m.append("s");
            }
            Some(emit(box_header(m.as_str(), cfg), true, false))
        },
        Event::PkgRetrieveFailed => Some(
            emit(error_msg("failed to retrieve some packages", cfg), true, true),
        ),
        Event::OptDepRemoval(pkg) => {
            if cfg.suppress.optdep_removal {
                None
            } else {
                let mut m = String::from_str("optdep removed: ");
                m.append(pkg.as_str());
                Some(emit(info_msg(m.as_str(), cfg), true, false))
            }
        },
        Event::HookStart(when) => {
            let w = match when {
                HookWhen::PreTransaction => "pre",
                HookWhen::PostTransaction => "post",
            };
            let m = cat3("running ", w, "-transaction hooks");
            Some(emit(box_header(m.as_str(), cfg), true, false))
        },
        Event::HookRunStart(name) => {
            if cfg.suppress.hook_names {
                None
            } else {
                let mut s = String::from_str("\r\x1b[2K");
                s.append("  ");
                s.append(c.surface2.as_str());
                s.append(cfg.symbols.box_tick.as_str());
                s.append(c.reset.as_str());
                s.append("  ");
                s.append(c.subtext0.as_str());
                s.append(name.as_str());
                s.append(c.reset.as_str());
                Some(emit(s, false, false))
            }
        },
        Event::HookRunDone => {
            if cfg.suppress.hook_names {
                None
            } else {
                Some(emit(String::from_str("\r\x1b[2K"), false, false))
            }
        },
        Event::PacnewCreated(file) => {
            if cfg.suppress.pacnew {
                None
            } else {
                let mut m = String::from_str("pacnew created: ");
                m.append(file.as_str());
                Some(emit(info_msg(m.as_str(), cfg), true, false))
            }
        },
        Event::PacsaveCreated(file) => {
            if cfg.suppress.pacnew {
                None
            } else {
                let mut m = String::from_str("pacsave created: ");
                m.append(file.as_str());
                Some(emit(info_msg(m.as_str(), cfg), true, false))
            }
        },
        Event::Quiet => None,
    }
}

// ── Progress callback ─────────────────────────────────────────────────────────

/// The kinds of progress the library reports.
#[derive(Clone, Copy, Debug, PartialEq, Eq, Structural)]
pub enum Progress {
    AddStart,
    UpgradeStart,
    DowngradeStart,
    ReinstallStart,
    RemoveStart,
    ConflictsStart,
    DiskspaceStart,
    IntegrityStart,
    LoadStart,
    KeyringStart,
}

/// Progress of a package operation (drawn as a bar), as opposed to a check.
pub open spec fn is_package_progress(p: Progress) -> bool {
    match p {
        Progress::AddStart | Progress::UpgradeStart | Progress::RemoveStart
        | Progress::DowngradeStart | Progress::ReinstallStart => true,
        _ => false,
    }
}

/// The bar colour of a package operation.
pub open spec fn progress_role(p: Progress, cfg: ResolvedConfig) -> ColorRole {
    match p {
        Progress::AddStart => cfg.bar.install_color,
        Progress::RemoveStart => cfg.bar.remove_color,
        Progress::DowngradeStart | Progress::ReinstallStart => cfg.bar.downgrade_color,
        _ => cfg.bar.upgrade_color,
    }
}

/// The `(cur/tot)` counter shown before the bar when several packages are processed.
pub open spec fn counter_seq(cur: usize, tot: usize, cfg: ResolvedConfig) -> Seq<char> {
    if cfg.behavior.show_counter && tot > 1 {
        cfg.colors.surface2@ + "("@ + pad_left_seq(dec_seq(cur as nat), 2) + "/"@ + pad_seq(
            dec_seq(tot as nat),
            2,
        ) + ")"@ + cfg.colors.reset@ + "  "@
    } else {
        seq![]
    }
}

/// What the progress callback prints (no line break follows). `filled` is the number of
/// bar cells drawn for `pct`.
pub open spec fn progress_seq(
    prog: Progress,
    pkgname: Seq<char>,
    pct: i32,
    cur: usize,
    tot: usize,
    filled: usize,
    cfg: ResolvedConfig,
) -> Seq<char> {
    if !is_package_progress(prog) {
        if pct < 100 {
            status_seq("processing"@, cfg)
        } else {
            erase_seq()
        }
    } else {
        let c = cfg.colors;
        let col = c.role_seq(progress_role(prog, cfg));
        let bar = col + repeat_seq(cfg.bar.fill@, filled as nat) + c.reset@ + c.surface1@
            + repeat_seq(cfg.bar.empty@, (cfg.bar.width - filled) as nat) + c.reset@;
        let name = trunc_seq(pkgname, cfg.behavior.pkg_name_width as int);
        if pct >= 100 {
            erase_seq() + "  "@ + counter_seq(cur, tot, cfg) + bar + "  "@ + col + c.bold@
                + cfg.symbols.done@ + c.reset@ + "  "@ + c.dim@ + name + c.reset@
        } else {
            erase_seq() + "  "@ + counter_seq(cur, tot, cfg) + bar + "  "@ + c.subtext1@
                + pad_left_seq(dec_int_seq(pct as int), 3) + "%"@ + c.reset@ + "  "@ + c.dim@
                + name + c.reset@
        }
    }
}

fn counter(cur: usize, tot: usize, cfg: &ResolvedConfig) -> (s: String)
    ensures
        s@ == counter_seq(cur, tot, *cfg),
{
    if cfg.behavior.show_counter && tot > 1 {
        let mut s = String::from_str(cfg.colors.surface2.as_str());
        s.append("(");
        let a = decimal(cur as u64);
        push_padded_left(&mut s, a.as_str(), 2);
        s.append("/");
        let b = decimal(tot as u64);
        push_padded(&mut s, b.as_str(), 2);
        s.append(")");
        s.append(cfg.colors.reset.as_str());
        s.append("  ");
        s
    } else {
        String::new()
    }
}

/// What the progress callback prints for one report.
pub fn progress_line(
    prog: Progress,
    pkgname: &str,
    pct: i32,
    cur: usize,
    tot: usize,
    filled: usize,
    cfg: &ResolvedConfig,
) -> (r: String)
    requires
        filled <= cfg.bar.width,
    ensures
        r@ == progress_seq(prog, pkgname@, pct, cur, tot, filled, *cfg),
{
    let is_final = match prog {
        Progress::AddStart | Progress::UpgradeStart | Progress::RemoveStart
        | Progress::DowngradeStart | Progress::ReinstallStart => true,
        _ => false,
    };
    if !is_final {
        if pct < 100 {
            return status("processing", cfg);
        } else {
            return String::from_str("\r\x1b[2K");
        }
    }
    let c = &cfg.colors;
    let role = match prog {
        Progress::AddStart => cfg.bar.install_color,
        Progress::RemoveStart => cfg.bar.remove_color,
        Progress::DowngradeStart | Progress::ReinstallStart => cfg.bar.downgrade_color,
        _ => cfg.bar.upgrade_color,
    };
    let col = role.resolve(c);
    let bar = render_bar(filled, col, cfg);
    let cnt = counter(cur, tot, cfg);
    let name = trunc(pkgname, cfg.behavior.pkg_name_width);
    let mut r = String::from_str("\r\x1b[2K");
    r.append("  ");
    r.append(cnt.as_str());
    r.append(bar.as_str());
    r.append("  ");
    if pct >= 100 {
        r.append(col);
        r.append(c.bold.as_str());
        r.append(cfg.symbols.done.as_str());
    } else {
        r.append(c.subtext1.as_str());
        let p = decimal_signed(pct as i64);
        push_padded_left(&mut r, p.as_str(), 3);
        r.append("%");
    }
    r.append(c.reset.as_str());
    r.append("  ");
    r.append(c.dim.as_str());
    r.append(name);
    r.append(c.reset.as_str());
    r
}

// ── Download callback ─────────────────────────────────────────────────────────

/// Download events, with the byte counts they carry.
pub enum DownloadEvent {
    Init,
    Progress { downloaded: i64, total: i64 },
    Retry,
    Completed { total: i64 },
}

/// What the download callback writes for `filename`: `(text, line break)`, or nothing.
/// `filled` is the number of bar cells drawn for the downloaded share.
pub open spec fn download_seq(
    filename: Seq<char>,
    event: DownloadEvent,
    filled: usize,
    cfg: ResolvedConfig,
) -> Option<(Seq<char>, bool)> {
    let c = cfg.colors;
    let s = cfg.symbols;
    let w = cfg.behavior.dl_name_width;
    let name = trunc_seq(strip_pkg_suffix_seq(filename), w as int);
    match event {
        DownloadEvent::Progress { downloaded, total } => if total == 0 {
            None
        } else {
            let col = c.role_seq(cfg.bar.dl_color);
            let bar = col + repeat_seq(cfg.bar.fill@, filled as nat) + c.reset@ + c.surface1@
                + repeat_seq(cfg.bar.empty@, (cfg.bar.width - filled) as nat) + c.reset@;
            Some((
                erase_seq() + "  "@ + c.surface2@ + s.box_bar@ + c.reset@ + "  "@ + c.teal@
                    + s.download@ + c.reset@ + "  "@ + c.text@ + pad_seq(name, w as nat)
                    + c.reset@ + "  "@ + bar + "  "@ + c.subtext1@ + human_size_seq(
                    downloaded as int,
                ) + " / "@ + human_size_seq(total as int) + c.reset@,
                false,
            ))
        },
        DownloadEvent::Completed { total } => if total > 0 {
            Some((
                erase_seq() + "  "@ + c.surface2@ + s.box_bar@ + c.reset@ + "  "@ + c.green@
                    + c.bold@ + s.success@ + c.reset@ + "  "@ + c.text@ + name + c.reset@,
                true,
            ))
        } else {
            Some((erase_seq(), false))
        },
        _ => None,
    }
}

/// A download in progress (its total known) is shown as one line without a line break that
/// ends with the bytes downloaded so far, then `/`, then the total, then the reset colour.
pub proof fn law_download_shows_done_of_total(
    filename: Seq<char>,
    downloaded: i64,
    total: i64,
    filled: usize,
    cfg: ResolvedConfig,
)
    requires
        total != 0,
    ensures
        download_seq(filename, (DownloadEvent::Progress { downloaded, total }), filled, cfg) is Some,
        !download_seq(filename, (DownloadEvent::Progress { downloaded, total }), filled, cfg).unwrap().1,
        exists|p: Seq<char>|
            download_seq(filename, (DownloadEvent::Progress { downloaded, total }), filled, cfg).unwrap().0 == p
                + human_size_seq(downloaded as int) + " / "@ + human_size_seq(total as int) + cfg.colors.reset@,
{
    let t = download_seq(filename, DownloadEvent::Progress { downloaded, total }, filled, cfg).unwrap().0;
    let c = cfg.colors;
    let s = cfg.symbols;
    let w: usize = cfg.behavior.dl_name_width;
    let name = trunc_seq(strip_pkg_suffix_seq(filename), w as int);
    let col = c.role_seq(cfg.bar.dl_color);
    let bar = col + repeat_seq(cfg.bar.fill@, filled as nat) + c.reset@ + c.surface1@
        + repeat_seq(cfg.bar.empty@, (cfg.bar.width - filled) as nat) + c.reset@;
    let p = erase_seq() + "  "@ + c.surface2@ + s.box_bar@ + c.reset@ + "  "@ + c.teal@
        + s.download@ + c.reset@ + "  "@ + c.text@ + pad_seq(name, w as nat)
        + c.reset@ + "  "@ + bar + "  "@ + c.subtext1@;
    assert(t == p + human_size_seq(downloaded as int) + " / "@ + human_size_seq(total as int) + c.reset@);
}

/// A finished download of known size is shown as a line with a line break, ending with the
/// file's shown name and the reset colour; one of no size only clears the line; the start
/// and retry of a download, and progress of unknown total, show nothing.
pub proof fn law_download_other_events(filename: Seq<char>, total: i64, downloaded: i64, filled: usize, cfg: ResolvedConfig)
    ensures
        total > 0 ==> download_seq(filename, (DownloadEvent::Completed { total }), filled, cfg) is Some
            && download_seq(filename, (DownloadEvent::Completed { total }), filled, cfg).unwrap().1
            && exists|p: Seq<char>|
            download_seq(filename, (DownloadEvent::Completed { total }), filled, cfg).unwrap().0 == p
                + trunc_seq(strip_pkg_suffix_seq(filename), cfg.behavior.dl_name_width as int) + cfg.colors.reset@,
        total <= 0 ==> download_seq(filename, (DownloadEvent::Completed { total }), filled, cfg) == Some(
            (erase_seq(), false),
        ),
        download_seq(filename, DownloadEvent::Init, filled, cfg) is None,
        download_seq(filename, DownloadEvent::Retry, filled, cfg) is None,
        download_seq(filename, (DownloadEvent::Progress { downloaded, total: 0 }), filled, cfg) is None,
{
    if total > 0 {
        let c = cfg.colors;
        let s = cfg.symbols;
        let name = trunc_seq(strip_pkg_suffix_seq(filename), cfg.behavior.dl_name_width as int);
        let p = erase_seq() + "  "@ + c.surface2@ + s.box_bar@ + c.reset@ + "  "@ + c.green@
            + c.bold@ + s.success@ + c.reset@ + "  "@ + c.text@;
        assert(download_seq(filename, DownloadEvent::Completed { total }, filled, cfg).unwrap().0 == p + name + c.reset@);
    }
}

/// What the download callback writes for one event.
pub fn download_line(filename: &str, event: &DownloadEvent, filled: usize, cfg: &ResolvedConfig) -> (r: Option<(String, bool)>)
    requires
        filled <= cfg.bar.width,
    ensures
        match download_seq(filename@, *event, filled, *cfg) {
            Some((t, nl)) => r matches Some(x) && x.0@ == t && x.1 == nl,
            None => r is None,
        },
{
    let c = &cfg.colors;
    let s = &cfg.symbols;
    let w = cfg.behavior.dl_name_width;
    let name = trunc(strip_pkg_suffix(filename), w);
    match event {
        DownloadEvent::Progress { downloaded, total } => {
            if *total == 0 {
                return None;
            }
            let col = cfg.bar.dl_color.resolve(c);
            let bar = render_bar(filled, col, cfg);
            let mut r = String::from_str("\r\x1b[2K");
            r.append("  ");
            r.append(c.surface2.as_str());
            r.append(s.box_bar.as_str());
            r.append(c.reset.as_str());
            r.append("  ");
            r.append(c.teal.as_str());
            r.append(s.download.as_str());
            r.append(c.reset.as_str());
            r.append("  ");
            r.append(c.text.as_str());
            push_padded(&mut r, name, w);
            r.append(c.reset.as_str());
            r.append("  ");
            r.append(bar.as_str());
            r.append("  ");
            r.append(c.subtext1.as_str());
            let a = human_size(*downloaded);
            r.append(a.as_str());
            r.append(" / ");
            let b = human_size(*total);
            r.append(b.as_str());
            r.append(c.reset.as_str());
            Some((r, false))
        },
        DownloadEvent::Completed { total } => {
            if *total > 0 {
                let mut r = String::from_str("\r\x1b[2K");
                r.append("  ");
                r.append(c.surface2.as_str());
                r.append(s.box_bar.as_str());
                r.append(c.reset.as_str());
                r.append("  ");
                r.append(c.green.as_str());
                r.append(c.bold.as_str());
                r.append(s.success.as_str());
                r.append(c.reset.as_str());
                r.append("  ");
                r.append(c.text.as_str());
                r.append(name);
                r.append(c.reset.as_str());
                Some((r, true))
            } else {
                Some((String::from_str("\r\x1b[2K"), false))
            }
        },
        _ => None,
    }
}

// ── Question callback ─────────────────────────────────────────────────────────

/// How an answer to a yes/no prompt is read: blank means the default, otherwise
/// `y` or `yes` (after trimming and lowercasing) means yes.
pub open spec fn answer_seq(line: Seq<char>, default_yes: bool) -> bool {
    let t = trim_seq(line);
    if t.len() == 0 {
        default_yes
    } else {
        lower_text(t) == "y"@ || lower_text(t) == "yes"@
    }
}

/// An empty answer takes the default.
pub proof fn law_blank_answer_is_default(line: Seq<char>, default_yes: bool)
    requires
        trim_seq(line).len() == 0,
    ensures
        answer_seq(line, default_yes) == default_yes,
{
}

/// What a yes/no prompt gives: the default without asking under `noconfirm`, else the
/// answer read.
pub fn prompt_answer(noconfirm: bool, default_yes: bool, line: &str) -> (b: bool)
    ensures
        b == (if noconfirm { default_yes } else { answer_seq(line@, default_yes) }),
{
    if noconfirm {
        default_yes
    } else {
        answer_yes(line, default_yes)
    }
}

/// A cut name never exceeds the width and is the start of the name.
pub proof fn law_trunc_fits(s: Seq<char>, max: int)
    requires
        max >= 0,
    ensures
        trunc_seq(s, max).len() <= max,
        trunc_seq(s, max) == s.take(trunc_seq(s, max).len() as int),
{
    if s.len() <= max {
        assert(s.take(s.len() as int) == s);
    }
}

/// With one-character fill and empty symbols, a bar is `bar.width` characters wide.
pub proof fn law_bar_cells(fill: Seq<char>, empty: Seq<char>, filled: nat, width: nat)
    requires
        fill.len() == 1,
        empty.len() == 1,
        filled <= width,
    ensures
        repeat_seq(fill, filled).len() + repeat_seq(empty, (width - filled) as nat).len() == width,
{
    crate::text::lemma_repeat_len(fill, filled);
    crate::text::lemma_repeat_len(empty, (width - filled) as nat);
}

/// The choice among `n` options is always one of them.
pub proof fn law_selection_in_range(line: Seq<char>, n: usize)
    requires
        n > 0,
    ensures
        select_seq(line, n) < n,
{
}

/// Reads the answer to a yes/no prompt.
pub fn answer_yes(line: &str, default_yes: bool) -> (b: bool)
    ensures
        b == answer_seq(line@, default_yes),
{
    let t0 = trim(line);
    if t0.unicode_len() == 0 {
        default_yes
    } else {
        let t = to_lowercase(t0.as_str());
        crate::text::str_eq(t.as_str(), "y") || crate::text::str_eq(t.as_str(), "yes")
    }
}

/// The hint printed before reading a yes/no answer (no line break follows).
pub fn prompt_hint(default_yes: bool, cfg: &ResolvedConfig) -> (s: String)
    ensures
        s@ == "  "@ + cfg.colors.subtext1@ + (if default_yes {
            "[Y/n]"@
        } else {
            "[y/N]"@
        }) + cfg.colors.reset@ + " "@,
{
    let mut s = String::from_str("  ");
    s.append(cfg.colors.subtext1.as_str());
    if default_yes {
        s.append("[Y/n]");
    } else {
        s.append("[y/N]");
    }
    s.append(cfg.colors.reset.as_str());
    s.append(" ");
    s
}

/// The provider chosen from the typed line: the number typed, `0` when it is not a
/// number, and never past the last of `n` providers.
pub open spec fn select_seq(line: Seq<char>, n: usize) -> nat {
    let typed = match parse_unsigned_seq(trim_seq(line), 10, usize::MAX as nat) {
        Some(v) => v,
        None => 0,
    };
    let last: nat = if n == 0 {
        0
    } else {
        (n - 1) as nat
    };
    if typed < last {
        typed
    } else {
        last
    }
}

/// Reads the index of the chosen provider among `n`.
pub fn select_index(line: &str, n: usize) -> (i: usize)
    ensures
        i == select_seq(line@, n),
{
    let t = trim(line);
    let v = chars_of(t.as_str());
    let typed: u64 = match parse_unsigned(&v, 10, usize::MAX as u64) {
        Some(x) => x,
        None => 0,
    };
    let last: usize = if n == 0 {
        0
    } else {
        n - 1
    };
    if typed < last as u64 {
        typed as usize
    } else {
        last
    }
}

/// The questions the library asks, with the values shown in them.
pub enum Question {
    InstallIgnorepkg { pkg: String },
    Replace { oldpkg: String, newdb: String, newpkg: String },
    Conflict { package1: String, package2: String, reason: String },
    RemovePkgs { packages: Vec<String> },
    SelectProvider { depend: String, providers: Vec<(String, String)> },
    ImportKey { fingerprint: String, uid: String },
    Corrupted { filepath: String },
}

/// What is shown for a question before the answer is read: the lines printed, a prompt
/// printed without a line break (for the provider choice), and the default answer of a
/// yes/no question.
pub struct QuestionText {
    pub lines: Vec<String>,
    pub prompt: Option<String>,
    pub default_yes: bool,
}

/// A provider row of the provider choice.
pub open spec fn provider_row_seq(i: int, name: Seq<char>, version: Seq<char>, cfg: ResolvedConfig) -> Seq<char> {
    "    "@ + cfg.colors.surface2@ + "["@ + dec_seq(i as nat) + "]"@ + cfg.colors.reset@ + "  "@
        + cfg.colors.text@ + name + cfg.colors.reset@ + "  "@ + cfg.colors.dim@ + version
        + cfg.colors.reset@
}

/// A package row of the list of packages that cannot be upgraded.
pub open spec fn removal_row_seq(name: Seq<char>, cfg: ResolvedConfig) -> Seq<char> {
    "    "@ + cfg.colors.surface2@ + "•"@ + cfg.colors.reset@ + "  "@ + cfg.colors.red@ + name
        + cfg.colors.reset@
}

/// The rows of the packages that cannot be upgraded.
pub open spec fn removal_rows(packages: Seq<String>, cfg: ResolvedConfig) -> Seq<Seq<char>> {
    packages.map_values(|p: String| removal_row_seq(p@, cfg))
}

/// The rows of the provider choice.
pub open spec fn provider_rows(providers: Seq<(String, String)>, cfg: ResolvedConfig) -> Seq<Seq<char>> {
    providers.map(|i: int, p: (String, String)| provider_row_seq(i, p.0@, p.1@, cfg))
}

/// The lines of a question, its prompt and its default answer.
pub open spec fn question_seq(q: Question, cfg: ResolvedConfig) -> (Seq<Seq<char>>, Option<Seq<char>>, bool) {
    let c = cfg.colors;
    match q {
        Question::InstallIgnorepkg { pkg } => (
            seq![status_line_seq(c.peach@, cfg.symbols.warn@, pkg@ + " is in IgnorePkg — install anyway?"@, cfg)],
            None,
            false,
        ),
        Question::Replace { oldpkg, newdb, newpkg } => (
            seq![status_line_seq(c.peach@, cfg.symbols.warn@, "replace "@ + oldpkg@ + " with "@ + newdb@ + "/"@ + newpkg@ + "?"@, cfg)],
            None,
            false,
        ),
        Question::Conflict { package1, package2, reason } => (
            seq![
                "\n  "@ + c.red@ + c.bold@ + "conflict:"@ + c.reset@ + " "@ + c.text@ + package1@
                    + c.reset@ + " and "@ + c.text@ + package2@ + c.reset@ + " conflict ("@ + c.dim@
                    + reason@ + c.reset@ + ")"@,
                "  remove "@ + package2@ + "?"@,
            ],
            None,
            false,
        ),
        Question::RemovePkgs { packages } => (
            seq!["\n  "@ + c.yellow@ + c.bold@ + "packages cannot be upgraded (unresolvable deps):"@ + c.reset@]
                + removal_rows(packages@, cfg)
                + seq!["  skip them?"@],
            None,
            false,
        ),
        Question::SelectProvider { depend, providers } => (
            seq!["\n  "@ + c.mauve@ + "multiple providers for "@ + c.bold@ + depend@ + c.reset@ + ":"@]
                + provider_rows(providers@, cfg),
            Some("  "@ + c.subtext1@ + "select (0–"@ + dec_seq(if providers@.len() == 0 { 0 } else { (providers@.len() - 1) as nat }) + "): "@ + c.reset@),
            false,
        ),
        Question::ImportKey { fingerprint, uid } => (
            seq![
                "\n  "@ + c.yellow@ + "import PGP key "@ + c.bold@ + fingerprint@ + c.reset@ + "?"@,
                "  "@ + c.dim@ + "uid: "@ + uid@ + c.reset@,
            ],
            None,
            true,
        ),
        Question::Corrupted { filepath } => (
            seq![status_line_seq(c.peach@, cfg.symbols.warn@, filepath@ + " appears corrupted — remove it?"@, cfg)],
            None,
            true,
        ),
    }
}

fn one_line(s: String) -> (v: Vec<String>)
    ensures
        views(v@) == seq![s@],
{
    let mut v = Vec::new();
    v.push(s);
    assert(views(v@) == seq![s@]);
    v
}

/// What is shown for a question.
pub fn question_text(q: &Question, cfg: &ResolvedConfig) -> (r: QuestionText)
    ensures
        ({
            let (lines, prompt, def) = question_seq(*q, *cfg);
            &&& views(r.lines@) == lines
            &&& match prompt {
                Some(p) => r.prompt matches Some(x) && x@ == p,
                None => r.prompt is None,
            }
            &&& r.default_yes == def
        }),
{
    let c = &cfg.colors;
    match q {
        Question::InstallIgnorepkg { pkg } => {
            let mut m = String::from_str(pkg.as_str());
            m.append(" is in IgnorePkg — install anyway?");
            QuestionText { lines: one_line(warn_msg(m.as_str(), cfg)), prompt: None, default_yes: false }
        },
        Question::Replace { oldpkg, newdb, newpkg } => {
            let mut m = String::from_str("replace ");
            m.append(oldpkg.as_str());
            m.append(" with ");
            m.append(newdb.as_str());
            m.append("/");
            m.append(newpkg.as_str());
            m.append("?");
            QuestionText { lines: one_line(warn_msg(m.as_str(), cfg)), prompt: None, default_yes: false }
        },
        Question::Conflict { package1, package2, reason } => {
            let mut a = String::from_str("\n  ");
            a.append(c.red.as_str());
            a.append(c.bold.as_str());
            a.append("conflict:");
            a.append(c.reset.as_str());
            a.append(" ");
            a.append(c.text.as_str());
            a.append(package1.as_str());
            a.append(c.reset.as_str());
            a.append(" and ");
            a.append(c.text.as_str());
            a.append(package2.as_str());
            a.append(c.reset.as_str());
            a.append(" conflict (");
            a.append(c.dim.as_str());
            a.append(reason.as_str());
            a.append(c.reset.as_str());
            a.append(")");
            let b = cat3("  remove ", package2.as_str(), "?");
            let mut lines = Vec::new();
            lines.push(a);
            lines.push(b);
            assert(views(lines@) == seq![a@, b@]);
            QuestionText { lines, prompt: None, default_yes: false }
        },
        Question::RemovePkgs { packages } => {
            let mut a = String::from_str("\n  ");
            a.append(c.yellow.as_str());
            a.append(c.bold.as_str());
            a.append("packages cannot be upgraded (unresolvable deps):");
            a.append(c.reset.as_str());
            let mut lines = Vec::new();
            lines.push(a);
            let ghost rows = removal_rows(packages@, *cfg);
            let mut i: usize = 0;
            while i < packages.len()
                invariant
                    i <= packages.len(),
                    rows == removal_rows(packages@, *cfg),
                    views(lines@) == seq![a@] + rows.take(i as int),
                decreases packages.len() - i,
            {
                let mut row = String::from_str("    ");
                row.append(cfg.colors.surface2.as_str());
                row.append("•");
                row.append(cfg.colors.reset.as_str());
                row.append("  ");
                row.append(cfg.colors.red.as_str());
                row.append(packages[i].as_str());
                row.append(cfg.colors.reset.as_str());
                let ghost before = views(lines@);
                lines.push(row);
                assert(views(lines@) == before.push(row@));
                assert(rows[i as int] == removal_row_seq(packages@[i as int]@, *cfg));
                assert(rows.take(i + 1) == rows.take(i as int).push(rows[i as int]));
                assert(seq![a@] + rows.take(i + 1) =~= (seq![a@] + rows.take(i as int)).push(row@));
                i = i + 1;
            }
            assert(rows.take(packages.len() as int) == rows);
            let ghost before = views(lines@);
            let last = String::from_str("  skip them?");
            lines.push(last);
            assert(views(lines@) == before.push(last@));
            QuestionText { lines, prompt: None, default_yes: false }
        },
        Question::SelectProvider { depend, providers } => {
            let mut a = String::from_str("\n  ");
            a.append(c.mauve.as_str());
            a.append("multiple providers for ");
            a.append(c.bold.as_str());
            a.append(depend.as_str());
            a.append(c.reset.as_str());
            a.append(":");
            let mut lines = Vec::new();
            lines.push(a);
            let ghost rows = provider_rows(providers@, *cfg);
            let mut i: usize = 0;
            while i < providers.len()
                invariant
                    i <= providers.len(),
                    rows == provider_rows(providers@, *cfg),
                    views(lines@) == seq![a@] + rows.take(i as int),
                decreases providers.len() - i,
            {
                let mut row = String::from_str("    ");
                row.append(cfg.colors.surface2.as_str());
                row.append("[");
                push_decimal(&mut row, i as u128);
                row.append("]");
                row.append(cfg.colors.reset.as_str());
                row.append("  ");
                row.append(cfg.colors.text.as_str());
                row.append(providers[i].0.as_str());
                row.append(cfg.colors.reset.as_str());
                row.append("  ");
                row.append(cfg.colors.dim.as_str());
                row.append(providers[i].1.as_str());
                row.append(cfg.colors.reset.as_str());
                let ghost before = views(lines@);
                lines.push(row);
                assert(views(lines@) == before.push(row@));
                assert(rows[i as int] == row@);
                assert(rows.take(i + 1) == rows.take(i as int).push(rows[i as int]));
                assert(seq![a@] + rows.take(i + 1) =~= (seq![a@] + rows.take(i as int)).push(row@));
                i = i + 1;
            }
            assert(rows.take(providers.len() as int) == rows);
            let last: usize = if providers.len() == 0 { 0 } else { providers.len() - 1 };
            let mut p = String::from_str("  ");
            p.append(c.subtext1.as_str());
            p.append("select (0–");
            push_decimal(&mut p, last as u128);
            p.append("): ");
            p.append(c.reset.as_str());
            QuestionText { lines, prompt: Some(p), default_yes: false }
        },
        Question::ImportKey { fingerprint, uid } => {
            let mut a = String::from_str("\n  ");
            a.append(c.yellow.as_str());
            a.append("import PGP key ");
            a.append(c.bold.as_str());
            a.append(fingerprint.as_str());
            a.append(c.reset.as_str());
            a.append("?");
            let mut b = String::from_str("  ");
            b.append(c.dim.as_str());
            b.append("uid: ");
            b.append(uid.as_str());
            b.append(c.reset.as_str());
            let mut lines = Vec::new();
            lines.push(a);
            lines.push(b);
            assert(views(lines@) == seq![a@, b@]);
            QuestionText { lines, prompt: None, default_yes: true }
        },
        Question::Corrupted { filepath } => {
            let mut m = String::from_str(filepath.as_str());
            m.append(" appears corrupted — remove it?");
            QuestionText { lines: one_line(warn_msg(m.as_str(), cfg)), prompt: None, default_yes: true }
        },
    }
}

} // verus!
