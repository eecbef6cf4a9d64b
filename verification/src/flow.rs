use vstd::prelude::*;
use vstd::string::*;
use crate::cli::{opt_view, Op, Switches, Values};
use crate::text::{
    chars_of, parse_unsigned, parse_unsigned_seq, split_whitespace, split_ws_seq, trim, trim_seq,
    unsigned_body, views,
};

verus! {

/// The help text of an operation, line by line.
pub open spec fn help_seq(op: Op) -> Seq<Seq<char>> {
    match op {
        Op::NoOp => seq!["Usage: pacwoman [options] [targets]"@, "\nOptions:"@, "  -S, --sync         synchronize packages"@, "  -R, --remove      remove packages"@, "  -U, --upgrade    upgrade packages"@, "  -Q, --query       query packages"@, "  -D, --database    database operations"@, "  -V, --version     display version"@, "  -h, --help        display help"@],
        Op::Sync => seq!["Usage: pacwoman -S [options] [targets]"@, "\nOptions:"@, "  -y, --refresh     update databases"@, "  -u, --sysupgrade  full system upgrade"@, "  -w, --downloadonly download only"@, "  -n, --nosave       do not save targets"@, "  -s, --search       search sync databases"@],
        Op::Remove => seq!["Usage: pacwoman -R [options] [targets]"@, "\nOptions:"@, "  -s, --recursive    remove recursively"@, "  -n, --nosave       do not save targets"@],
        Op::Upgrade => seq!["Usage: pacwoman -U [options] [targets]"@, "\nOptions:"@, "  -w, --downloadonly download only"@, "  -n, --nosave       do not save targets"@],
        Op::Query => seq!["Usage: pacwoman -Q [options] [targets]"@, "\nOptions:"@, "  -i, --info        show package info"@, "  -d, --deps        show dependencies"@, "  -e, --explicit     show explicit packages"@, "  -t, --unrequired  show unrequired packages"@, "  -u, --upgrades    show upgradable packages"@, "  -k, --check       check file integrity"@, "  -q, --quiet       quiet output"@, "  -o, --owns        find package owning file"@, "  -s, --search      search local database"@],
        Op::Database => seq!["Usage: pacwoman -D [options] [targets]"@, "\nOptions:"@, "  --asdeps          set install reason to dependency"@, "  --asexplicit      set install reason to explicit"@],
        _ => seq!["Help not implemented for this operation."@],
    }
}

/// The help text printed for an operation (`-h`).
pub fn help_lines(op: Op) -> (r: Vec<String>)
    ensures
        views(r@) == help_seq(op),
{
    let mut v: Vec<String> = Vec::new();
    match op {
        Op::NoOp => {
            v.push(String::from_str("Usage: pacwoman [options] [targets]"));
            v.push(String::from_str("\nOptions:"));
            v.push(String::from_str("  -S, --sync         synchronize packages"));
            v.push(String::from_str("  -R, --remove      remove packages"));
            v.push(String::from_str("  -U, --upgrade    upgrade packages"));
            v.push(String::from_str("  -Q, --query       query packages"));
            v.push(String::from_str("  -D, --database    database operations"));
            v.push(String::from_str("  -V, --version     display version"));
            v.push(String::from_str("  -h, --help        display help"));
        },
        Op::Sync => {
            v.push(String::from_str("Usage: pacwoman -S [options] [targets]"));
            v.push(String::from_str("\nOptions:"));
            v.push(String::from_str("  -y, --refresh     update databases"));
            v.push(String::from_str("  -u, --sysupgrade  full system upgrade"));
            v.push(String::from_str("  -w, --downloadonly download only"));
            v.push(String::from_str("  -n, --nosave       do not save targets"));
            v.push(String::from_str("  -s, --search       search sync databases"));
        },
        Op::Remove => {
            v.push(String::from_str("Usage: pacwoman -R [options] [targets]"));
            v.push(String::from_str("\nOptions:"));
            v.push(String::from_str("  -s, --recursive    remove recursively"));
            v.push(String::from_str("  -n, --nosave       do not save targets"));
        },
        Op::Upgrade => {
            v.push(String::from_str("Usage: pacwoman -U [options] [targets]"));
            v.push(String::from_str("\nOptions:"));
            v.push(String::from_str("  -w, --downloadonly download only"));
            v.push(String::from_str("  -n, --nosave       do not save targets"));
        },
        Op::Query => {
            v.push(String::from_str("Usage: pacwoman -Q [options] [targets]"));
            v.push(String::from_str("\nOptions:"));
            v.push(String::from_str("  -i, --info        show package info"));
            v.push(String::from_str("  -d, --deps        show dependencies"));
            v.push(String::from_str("  -e, --explicit     show explicit packages"));
            v.push(String::from_str("  -t, --unrequired  show unrequired packages"));
            v.push(String::from_str("  -u, --upgrades    show upgradable packages"));
            v.push(String::from_str("  -k, --check       check file integrity"));
            v.push(String::from_str("  -q, --quiet       quiet output"));
            v.push(String::from_str("  -o, --owns        find package owning file"));
            v.push(String::from_str("  -s, --search      search local database"));
        },
        Op::Database => {
            v.push(String::from_str("Usage: pacwoman -D [options] [targets]"));
            v.push(String::from_str("\nOptions:"));
            v.push(String::from_str("  --asdeps          set install reason to dependency"));
            v.push(String::from_str("  --asexplicit      set install reason to explicit"));
        },
        _ => {
            v.push(String::from_str("Help not implemented for this operation."));
        },
    }
    proof {
        assert(views(v@) =~= help_seq(op));
    }
    v
}

/// The line that `-V` prints.
pub fn version_line() -> (r: String)
    ensures
        r@ == "pacwoman v"@ + "0.1.7"@,
{
    let mut r = String::from_str("pacwoman v");
    r.append(crate::update::current_version());
    r
}

/// Whether targets are read from standard input: none were given to `-S`, `-R` or `-U`,
/// and no system upgrade was asked.
pub fn wants_stdin_targets(op: Op, no_targets: bool, sw: &Switches) -> (b: bool)
    ensures
        b == (no_targets && (op == Op::Sync || op == Op::Remove || op == Op::Upgrade) && sw.sysupgrade == 0),
{
    no_targets && (op == Op::Sync || op == Op::Remove || op == Op::Upgrade) && sw.sysupgrade == 0
}

/// The targets that lines of standard input give: their words, in order.
pub open spec fn stdin_targets_seq(lines: Seq<Seq<char>>) -> Seq<Seq<char>>
    decreases lines.len(),
{
    if lines.len() == 0 {
        seq![]
    } else {
        stdin_targets_seq(lines.drop_last()) + split_ws_seq(lines.last())
    }
}

/// The targets read from lines of standard input.
pub fn targets_from_lines(lines: &Vec<String>) -> (r: Vec<String>)
    ensures
        views(r@) == stdin_targets_seq(views(lines@)),
{
    let mut out: Vec<String> = Vec::new();
    let mut i: usize = 0;
    while i < lines.len()
        invariant
            i <= lines.len(),
            views(out@) == stdin_targets_seq(views(lines@).take(i as int)),
        decreases lines.len() - i,
    {
        assert(views(lines@).take(i + 1).drop_last() == views(lines@).take(i as int));
        assert(views(lines@).take(i + 1).last() == lines@[i as int]@);
        let words = split_whitespace(lines[i].as_str());
        let ghost base = views(out@);
        let mut k: usize = 0;
        while k < words.len()
            invariant
                k <= words.len(),
                views(out@) == base + views(words@).take(k as int),
            decreases words.len() - k,
        {
            let ghost before = views(out@);
            let w = words[k].clone();
            out.push(w);
            assert(views(out@) == before.push(w@));
            assert(views(words@).take(k + 1) == views(words@).take(k as int).push(words@[k as int]@));
            k = k + 1;
        }
        assert(views(words@).take(k as int) == views(words@));
        i = i + 1;
    }
    assert(views(lines@).take(lines.len() as int) == views(lines@));
    out
}

/// The warning about a problem with the configuration file.
pub fn config_warning(e: &str) -> (r: String)
    ensures
        r@ == "config: "@ + e@,
{
    let mut r = String::from_str("config: ");
    r.append(e);
    r
}

/// The warning about a colour field that fell back to its default.
pub fn colour_warning(e: &str) -> (r: String)
    ensures
        r@ == "config: "@ + e@ + " (using Mocha default)"@,
{
    let mut r = String::from_str("config: ");
    r.append(e);
    r.append(" (using Mocha default)");
    r
}

/// The notice that a newer version is out.
pub fn update_notice(ver: &str) -> (r: String)
    ensures
        r@ == "a new version of pacwoman is available ("@ + ver@ + "), run with -u to update"@,
{
    let mut r = String::from_str("a new version of pacwoman is available (");
    r.append(ver);
    r.append("), run with -u to update");
    r
}

/// The exit status of `-T`: 1 when some dependency is not satisfied.
pub fn deptest_status(unsatisfied: bool) -> (r: i32)
    ensures
        r == (if unsatisfied { 1i32 } else { 0i32 }),
{
    if unsatisfied {
        1
    } else {
        0
    }
}

/// Where the package manager keeps its state, as the command line sets it or by default.
pub struct HandleSettings {
    pub root: String,
    pub dbpath: String,
    pub logfile: String,
    pub gpgdir: String,
    pub cachedirs: Vec<String>,
    pub config: String,
    pub arch: Option<String>,
}

/// A setting of the command line, or its default.
pub open spec fn or_default(o: Option<Seq<char>>, d: Seq<char>) -> Seq<char> {
    match o {
        Some(x) => x,
        None => d,
    }
}

fn or_default_exec(o: &Option<String>, d: &str) -> (r: String)
    ensures
        r@ == or_default(opt_view(*o), d@),
{
    match o {
        Some(x) => x.clone(),
        None => String::from_str(d),
    }
}

/// The settings of the package manager from the command line's values: root `/`, database
/// `/var/lib/pacman`, log `/var/log/pacman.log`, keyring `/etc/pacman.d/gnupg`, cache
/// `/var/cache/pacman/pkg/` and configuration `/etc/pacman.conf` unless given.
pub fn handle_settings(v: &Values) -> (r: HandleSettings)
    ensures
        r.root@ == or_default(opt_view(v.root), "/"@),
        r.dbpath@ == or_default(opt_view(v.dbpath), "/var/lib/pacman"@),
        r.logfile@ == or_default(opt_view(v.logfile), "/var/log/pacman.log"@),
        r.gpgdir@ == or_default(opt_view(v.gpgdir), "/etc/pacman.d/gnupg"@),
        views(r.cachedirs@) == (if v.cachedirs@.len() > 0 {
            views(v.cachedirs@)
        } else {
            seq!["/var/cache/pacman/pkg/"@]
        }),
        r.config@ == or_default(opt_view(v.config), "/etc/pacman.conf"@),
        opt_view(r.arch) == opt_view(v.arch),
{
    let cachedirs = if v.cachedirs.len() > 0 {
        v.cachedirs.clone()
    } else {
        let mut d: Vec<String> = Vec::new();
        d.push(String::from_str("/var/cache/pacman/pkg/"));
        assert(views(d@) == seq!["/var/cache/pacman/pkg/"@]);
        d
    };
    HandleSettings {
        root: or_default_exec(&v.root, "/"),
        dbpath: or_default_exec(&v.dbpath, "/var/lib/pacman"),
        logfile: or_default_exec(&v.logfile, "/var/log/pacman.log"),
        gpgdir: or_default_exec(&v.gpgdir, "/etc/pacman.d/gnupg"),
        cachedirs,
        config: or_default_exec(&v.config, "/etc/pacman.conf"),
        arch: match &v.arch {
            Some(a) => Some(a.clone()),
            None => None,
        },
    }
}

/// What `str::parse::<i32>` gives: an optional sign, then one or more digits, the value
/// within `i32`.
pub open spec fn parse_i32_seq(s: Seq<char>) -> Option<int> {
    if s.len() > 0 && s[0] == '-' {
        let body = s.drop_first();
        if body.len() > 0 && body[0] != '+' {
            match parse_unsigned_seq(body, 10, 0x8000_0000) {
                Some(n) => Some(-n),
                None => None,
            }
        } else {
            None
        }
    } else {
        match parse_unsigned_seq(s, 10, 0x7fff_ffff) {
            Some(n) => Some(n as int),
            None => None,
        }
    }
}

/// The process number written in the lock file, if its text (trimmed) is one.
pub fn lock_pid(text: &str) -> (r: Option<i32>)
    ensures
        match parse_i32_seq(trim_seq(text@)) {
            Some(n) => r == Some(n as i32),
            None => r is None,
        },
{
    let t = trim(text);
    let v = chars_of(t.as_str());
    if v.len() > 0 && v[0] == '-' {
        let mut body: Vec<char> = Vec::new();
        let mut i: usize = 1;
        while i < v.len()
            invariant
                1 <= i <= v.len(),
                body@ == v@.subrange(1, i as int),
            decreases v.len() - i,
        {
            body.push(v[i]);
            assert(v@.subrange(1, i + 1) == v@.subrange(1, i as int).push(v@[i as int]));
            i = i + 1;
        }
        assert(body@ == t@.drop_first());
        if body.len() > 0 && body[0] != '+' {
            match parse_unsigned(&body, 10, 0x8000_0000) {
                Some(n) => {
                    let x: i64 = -(n as i64);
                    Some(x as i32)
                },
                None => None,
            }
        } else {
            None
        }
    } else {
        match parse_unsigned(&v, 10, 0x7fff_ffff) {
            Some(n) => Some(n as i32),
            None => None,
        }
    }
}

} // verus!
