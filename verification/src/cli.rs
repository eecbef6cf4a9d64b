use vstd::prelude::*;
use vstd::string::*;
use crate::text::{chars_of, starts_with, starts_with_seq, str_eq, strip_prefix, strip_prefix_seq, views};

verus! {

/// The operation chosen on the command line.
#[derive(Clone, Copy, Debug, PartialEq, Eq, Structural)]
pub enum Op {
    NoOp,
    Sync,
    Remove,
    Upgrade,
    Query,
    Database,
    Files,
    CheckConfig,
    GenConfig,
    Declarative,
}

/// The yes/no settings and counters of the command line.
#[derive(Clone, Copy, Debug, PartialEq, Eq, Structural)]
pub struct Switches {
    pub refresh: u8,
    pub sysupgrade: u8,
    pub downloadonly: bool,
    pub nosave: bool,
    pub recursive: u8,
    pub cascade: bool,
    pub unneeded: bool,
    pub q_info: bool,
    pub q_deps: bool,
    pub q_explicit: bool,
    pub q_unreq: bool,
    pub q_upgrades: bool,
    pub q_quiet: bool,
    pub q_owns: bool,
    pub q_search: bool,
    pub q_file_check: bool,
    pub q_foreign: bool,
    pub q_native: bool,
    pub q_list: bool,
    pub q_groups: bool,
    pub q_changelog: bool,
    pub q_file_query: bool,
    pub s_info: bool,
    pub s_list: bool,
    pub s_search: bool,
    pub s_clean: bool,
    pub s_groups: bool,
    pub s_quiet: bool,
    pub s_aur_only: bool,
    pub s_sync_only: bool,
    pub noconfirm: bool,
    pub version: bool,
    pub help: bool,
    pub deptest: bool,
    pub asdeps: bool,
    pub asexplicit: bool,
    pub plain: bool,
    pub db_check: bool,
    pub needed: bool,
    pub noprogressbar: bool,
    pub nodeps: u8,
    pub dbonly: bool,
    pub noscriptlet: bool,
    pub print: bool,
    pub verbose: u8,
    pub confirm: bool,
}

/// The settings that take a value: paths, names and patterns.
pub struct Values {
    pub install_local: Option<String>,
    pub print_format: Option<String>,
    pub config: Option<String>,
    pub root: Option<String>,
    pub dbpath: Option<String>,
    pub cachedirs: Vec<String>,
    pub gpgdir: Option<String>,
    pub hookdir: Option<String>,
    pub logfile: Option<String>,
    pub ignorepkg: Vec<String>,
    pub ignoregroup: Vec<String>,
    pub overwrite: Vec<String>,
    pub assume_installed: Vec<String>,
    pub color: Option<String>,
    pub arch: Option<String>,
}

/// The settings that take a value, as values.
pub struct ValuesView {
    pub install_local: Option<Seq<char>>,
    pub print_format: Option<Seq<char>>,
    pub config: Option<Seq<char>>,
    pub root: Option<Seq<char>>,
    pub dbpath: Option<Seq<char>>,
    pub cachedirs: Seq<Seq<char>>,
    pub gpgdir: Option<Seq<char>>,
    pub hookdir: Option<Seq<char>>,
    pub logfile: Option<Seq<char>>,
    pub ignorepkg: Seq<Seq<char>>,
    pub ignoregroup: Seq<Seq<char>>,
    pub overwrite: Seq<Seq<char>>,
    pub assume_installed: Seq<Seq<char>>,
    pub color: Option<Seq<char>>,
    pub arch: Option<Seq<char>>,
}

/// The parsed command line.
pub struct Cli {
    pub op: Op,
    pub switches: Switches,
    pub targets: Vec<String>,
    pub values: Values,
}

/// The command line as values.
pub struct CliView {
    pub op: Op,
    pub switches: Switches,
    pub targets: Seq<Seq<char>>,
    pub values: ValuesView,
}

/// The views of a list of strings.
#[verifier::opaque]
pub open spec fn vview(v: Vec<String>) -> Seq<Seq<char>> {
    views(v@)
}

pub open spec fn opt_view(o: Option<String>) -> Option<Seq<char>> {
    match o {
        Some(s) => Some(s@),
        None => None,
    }
}

impl Values {
    /// `v` holds these values.
    #[verifier::opaque]
    pub open spec fn models(&self, v: ValuesView) -> bool {
        opt_view(self.install_local) == v.install_local
            && opt_view(self.print_format) == v.print_format
            && opt_view(self.config) == v.config
            && opt_view(self.root) == v.root
            && opt_view(self.dbpath) == v.dbpath
            && vview(self.cachedirs) == v.cachedirs
            && opt_view(self.gpgdir) == v.gpgdir
            && opt_view(self.hookdir) == v.hookdir
            && opt_view(self.logfile) == v.logfile
            && vview(self.ignorepkg) == v.ignorepkg
            && vview(self.ignoregroup) == v.ignoregroup
            && vview(self.overwrite) == v.overwrite
            && vview(self.assume_installed) == v.assume_installed
            && opt_view(self.color) == v.color
            && opt_view(self.arch) == v.arch
    }
}

impl Cli {
    /// `v` holds the values of this command line.
    pub open spec fn models(&self, v: CliView) -> bool {
        self.op == v.op
            && self.switches == v.switches
            && vview(self.targets) == v.targets
            && self.values.models(v.values)
    }

    /// A command line with no arguments; `plain` when standard output is not a terminal.
    pub fn new(stdout_is_terminal: bool) -> (c: Self)
        ensures
            c.models(initial_view(stdout_is_terminal)),
    {
        let c = Cli {
            op: Op::NoOp,
            switches: initial_switches(stdout_is_terminal),
            targets: Vec::new(),
            values: Values {
                install_local: None,
                print_format: None,
                config: None,
                root: None,
                dbpath: None,
                cachedirs: Vec::new(),
                gpgdir: None,
                hookdir: None,
                logfile: None,
                ignorepkg: Vec::new(),
                ignoregroup: Vec::new(),
                overwrite: Vec::new(),
                assume_installed: Vec::new(),
                color: None,
                arch: None,
            },
        };
        proof {
            reveal(vview);
            reveal(Values::models);
            assert(views(c.targets@) =~= Seq::<Seq<char>>::empty());
        }
        c
    }
}

/// The command line before any argument is read.
pub open spec fn initial_view(stdout_is_terminal: bool) -> CliView {
    CliView {
        op: Op::NoOp,
        switches: no_switches(stdout_is_terminal),
        targets: Seq::empty(),
        values: ValuesView {
            install_local: None,
            print_format: None,
            config: None,
            root: None,
            dbpath: None,
            cachedirs: Seq::empty(),
            gpgdir: None,
            hookdir: None,
            logfile: None,
            ignorepkg: Seq::empty(),
            ignoregroup: Seq::empty(),
            overwrite: Seq::empty(),
            assume_installed: Seq::empty(),
            color: None,
            arch: None,
        },
    }
}

/// No switch given; `plain` when standard output is not a terminal.
pub open spec fn no_switches(stdout_is_terminal: bool) -> Switches {
    Switches {
        refresh: 0,
        sysupgrade: 0,
        downloadonly: false,
        nosave: false,
        recursive: 0,
        cascade: false,
        unneeded: false,
        q_info: false,
        q_deps: false,
        q_explicit: false,
        q_unreq: false,
        q_upgrades: false,
        q_quiet: false,
        q_owns: false,
        q_search: false,
        q_file_check: false,
        q_foreign: false,
        q_native: false,
        q_list: false,
        q_groups: false,
        q_changelog: false,
        q_file_query: false,
        s_info: false,
        s_list: false,
        s_search: false,
        s_clean: false,
        s_groups: false,
        s_quiet: false,
        s_aur_only: false,
        s_sync_only: false,
        noconfirm: false,
        version: false,
        help: false,
        deptest: false,
        asdeps: false,
        asexplicit: false,
        plain: !stdout_is_terminal,
        db_check: false,
        needed: false,
        noprogressbar: false,
        nodeps: 0,
        dbonly: false,
        noscriptlet: false,
        print: false,
        verbose: 0,
        confirm: false,
    }
}

/// No switch given; `plain` when standard output is not a terminal.
pub fn initial_switches(stdout_is_terminal: bool) -> (s: Switches)
    ensures
        s == no_switches(stdout_is_terminal),
{
    Switches {
        refresh: 0,
        sysupgrade: 0,
        downloadonly: false,
        nosave: false,
        recursive: 0,
        cascade: false,
        unneeded: false,
        q_info: false,
        q_deps: false,
        q_explicit: false,
        q_unreq: false,
        q_upgrades: false,
        q_quiet: false,
        q_owns: false,
        q_search: false,
        q_file_check: false,
        q_foreign: false,
        q_native: false,
        q_list: false,
        q_groups: false,
        q_changelog: false,
        q_file_query: false,
        s_info: false,
        s_list: false,
        s_search: false,
        s_clean: false,
        s_groups: false,
        s_quiet: false,
        s_aur_only: false,
        s_sync_only: false,
        noconfirm: false,
        version: false,
        help: false,
        deptest: false,
        asdeps: false,
        asexplicit: false,
        plain: !stdout_is_terminal,
        db_check: false,
        needed: false,
        noprogressbar: false,
        nodeps: 0,
        dbonly: false,
        noscriptlet: false,
        print: false,
        verbose: 0,
        confirm: false,
    }
}

/// A counter that counts one more (wrapping past 255).
pub open spec fn inc(x: u8) -> u8 {
    if x == 255 {
        0
    } else {
        (x + 1) as u8
    }
}

fn inc_exec(x: u8) -> (y: u8)
    ensures
        y == inc(x),
{
    if x == 255 {
        0
    } else {
        x + 1
    }
}

/// The yes/no settings that a flag turns on.
#[derive(Clone, Copy, Debug, PartialEq, Eq, Structural)]
pub enum Flag {
    Downloadonly,
    Nosave,
    Cascade,
    Unneeded,
    QInfo,
    QDeps,
    QExplicit,
    QUnreq,
    QUpgrades,
    QQuiet,
    QOwns,
    QSearch,
    QForeign,
    QNative,
    QList,
    QGroups,
    QChangelog,
    QFileQuery,
    Noconfirm,
    Asdeps,
    Asexplicit,
    Plain,
    Version,
    Help,
    Needed,
    Noprogressbar,
    Dbonly,
    Noscriptlet,
    SAurOnly,
    SSyncOnly,
    Deptest,
    Print,
    Confirm,
    SSearch,
    SInfo,
    SList,
    SClean,
    SGroups,
    QFileCheck,
    DbCheck,
    SQuiet,
}

/// The settings that count how often their flag is given.
#[derive(Clone, Copy, Debug, PartialEq, Eq, Structural)]
pub enum Counter {
    Refresh,
    Sysupgrade,
    Recursive,
    Nodeps,
    Verbose,
}

/// What a flag does.
#[derive(Clone, Copy, Debug, PartialEq, Eq, Structural)]
pub enum Action {
    SetOp(Op),
    Count(Counter),
    Enable(Flag),
    Nothing,
}

/// The switches after turning `f` on.
pub open spec fn enable(s: Switches, f: Flag) -> Switches {
    match f {
        Flag::Downloadonly => Switches { downloadonly: true, ..s },
        Flag::Nosave => Switches { nosave: true, ..s },
        Flag::Cascade => Switches { cascade: true, ..s },
        Flag::Unneeded => Switches { unneeded: true, ..s },
        Flag::QInfo => Switches { q_info: true, ..s },
        Flag::QDeps => Switches { q_deps: true, ..s },
        Flag::QExplicit => Switches { q_explicit: true, ..s },
        Flag::QUnreq => Switches { q_unreq: true, ..s },
        Flag::QUpgrades => Switches { q_upgrades: true, ..s },
        Flag::QQuiet => Switches { q_quiet: true, ..s },
        Flag::QOwns => Switches { q_owns: true, ..s },
        Flag::QSearch => Switches { q_search: true, ..s },
        Flag::QForeign => Switches { q_foreign: true, ..s },
        Flag::QNative => Switches { q_native: true, ..s },
        Flag::QList => Switches { q_list: true, ..s },
        Flag::QGroups => Switches { q_groups: true, ..s },
        Flag::QChangelog => Switches { q_changelog: true, ..s },
        Flag::QFileQuery => Switches { q_file_query: true, ..s },
        Flag::Noconfirm => Switches { noconfirm: true, ..s },
        Flag::Asdeps => Switches { asdeps: true, ..s },
        Flag::Asexplicit => Switches { asexplicit: true, ..s },
        Flag::Plain => Switches { plain: true, ..s },
        Flag::Version => Switches { version: true, ..s },
        Flag::Help => Switches { help: true, ..s },
        Flag::Needed => Switches { needed: true, ..s },
        Flag::Noprogressbar => Switches { noprogressbar: true, ..s },
        Flag::Dbonly => Switches { dbonly: true, ..s },
        Flag::Noscriptlet => Switches { noscriptlet: true, ..s },
        Flag::SAurOnly => Switches { s_aur_only: true, ..s },
        Flag::SSyncOnly => Switches { s_sync_only: true, ..s },
        Flag::Deptest => Switches { deptest: true, ..s },
        Flag::Print => Switches { print: true, ..s },
        Flag::Confirm => Switches { confirm: true, ..s },
        Flag::SSearch => Switches { s_search: true, ..s },
        Flag::SInfo => Switches { s_info: true, ..s },
        Flag::SList => Switches { s_list: true, ..s },
        Flag::SClean => Switches { s_clean: true, ..s },
        Flag::SGroups => Switches { s_groups: true, ..s },
        Flag::QFileCheck => Switches { q_file_check: true, ..s },
        Flag::DbCheck => Switches { db_check: true, ..s },
        Flag::SQuiet => Switches { s_quiet: true, ..s },
    }
}

/// The switches after counting `c` once more.
pub open spec fn count(s: Switches, c: Counter) -> Switches {
    match c {
        Counter::Refresh => Switches { refresh: inc(s.refresh), ..s },
        Counter::Sysupgrade => Switches { sysupgrade: inc(s.sysupgrade), ..s },
        Counter::Recursive => Switches { recursive: inc(s.recursive), ..s },
        Counter::Nodeps => Switches { nodeps: inc(s.nodeps), ..s },
        Counter::Verbose => Switches { verbose: inc(s.verbose), ..s },
    }
}

fn enable_exec(s: Switches, f: Flag) -> (r: Switches)
    ensures
        r == enable(s, f),
{
    match f {
        Flag::Downloadonly => Switches { downloadonly: true, ..s },
        Flag::Nosave => Switches { nosave: true, ..s },
        Flag::Cascade => Switches { cascade: true, ..s },
        Flag::Unneeded => Switches { unneeded: true, ..s },
        Flag::QInfo => Switches { q_info: true, ..s },
        Flag::QDeps => Switches { q_deps: true, ..s },
        Flag::QExplicit => Switches { q_explicit: true, ..s },
        Flag::QUnreq => Switches { q_unreq: true, ..s },
        Flag::QUpgrades => Switches { q_upgrades: true, ..s },
        Flag::QQuiet => Switches { q_quiet: true, ..s },
        Flag::QOwns => Switches { q_owns: true, ..s },
        Flag::QSearch => Switches { q_search: true, ..s },
        Flag::QForeign => Switches { q_foreign: true, ..s },
        Flag::QNative => Switches { q_native: true, ..s },
        Flag::QList => Switches { q_list: true, ..s },
        Flag::QGroups => Switches { q_groups: true, ..s },
        Flag::QChangelog => Switches { q_changelog: true, ..s },
        Flag::QFileQuery => Switches { q_file_query: true, ..s },
        Flag::Noconfirm => Switches { noconfirm: true, ..s },
        Flag::Asdeps => Switches { asdeps: true, ..s },
        Flag::Asexplicit => Switches { asexplicit: true, ..s },
        Flag::Plain => Switches { plain: true, ..s },
        Flag::Version => Switches { version: true, ..s },
        Flag::Help => Switches { help: true, ..s },
        Flag::Needed => Switches { needed: true, ..s },
        Flag::Noprogressbar => Switches { noprogressbar: true, ..s },
        Flag::Dbonly => Switches { dbonly: true, ..s },
        Flag::Noscriptlet => Switches { noscriptlet: true, ..s },
        Flag::SAurOnly => Switches { s_aur_only: true, ..s },
        Flag::SSyncOnly => Switches { s_sync_only: true, ..s },
        Flag::Deptest => Switches { deptest: true, ..s },
        Flag::Print => Switches { print: true, ..s },
        Flag::Confirm => Switches { confirm: true, ..s },
        Flag::SSearch => Switches { s_search: true, ..s },
        Flag::SInfo => Switches { s_info: true, ..s },
        Flag::SList => Switches { s_list: true, ..s },
        Flag::SClean => Switches { s_clean: true, ..s },
        Flag::SGroups => Switches { s_groups: true, ..s },
        Flag::QFileCheck => Switches { q_file_check: true, ..s },
        Flag::DbCheck => Switches { db_check: true, ..s },
        Flag::SQuiet => Switches { s_quiet: true, ..s },
    }
}

fn count_exec(s: Switches, c: Counter) -> (r: Switches)
    ensures
        r == count(s, c),
{
    match c {
        Counter::Refresh => Switches { refresh: inc_exec(s.refresh), ..s },
        Counter::Sysupgrade => Switches { sysupgrade: inc_exec(s.sysupgrade), ..s },
        Counter::Recursive => Switches { recursive: inc_exec(s.recursive), ..s },
        Counter::Nodeps => Switches { nodeps: inc_exec(s.nodeps), ..s },
        Counter::Verbose => Switches { verbose: inc_exec(s.verbose), ..s },
    }
}

/// The command line after `a`.
pub open spec fn apply_action(st: CliView, a: Action) -> CliView {
    match a {
        Action::SetOp(op) => CliView { op: op, ..st },
        Action::Count(c) => CliView { switches: count(st.switches, c), ..st },
        Action::Enable(f) => CliView { switches: enable(st.switches, f), ..st },
        Action::Nothing => st,
    }
}

fn apply_action_exec(cli: Cli, a: Action, Ghost(st): Ghost<CliView>) -> (r: Cli)
    requires
        cli.models(st),
    ensures
        r.models(apply_action(st, a)),
{
    let mut cli = cli;
    match a {
        Action::SetOp(op) => {
            cli.op = op;
        },
        Action::Count(c) => {
            let s = count_exec(cli.switches, c);
            cli.switches = s;
        },
        Action::Enable(f) => {
            let s = enable_exec(cli.switches, f);
            cli.switches = s;
        },
        Action::Nothing => {},
    }
    cli
}

/// What a long flag without a value does, or `None` for any other argument.
pub open spec fn long_action(arg: Seq<char>) -> Option<Action> {
    if arg == "--sync"@ {
        Some(Action::SetOp(Op::Sync))
    } else if arg == "--remove"@ {
        Some(Action::SetOp(Op::Remove))
    } else if arg == "--upgrade"@ {
        Some(Action::SetOp(Op::Upgrade))
    } else if arg == "--query"@ {
        Some(Action::SetOp(Op::Query))
    } else if arg == "--database"@ {
        Some(Action::SetOp(Op::Database))
    } else if arg == "--files"@ {
        Some(Action::SetOp(Op::Files))
    } else if arg == "--check-config"@ {
        Some(Action::SetOp(Op::CheckConfig))
    } else if arg == "--gen-config"@ {
        Some(Action::SetOp(Op::GenConfig))
    } else if arg == "--declarative"@ {
        Some(Action::SetOp(Op::Declarative))
    } else if arg == "--refresh"@ {
        Some(Action::Count(Counter::Refresh))
    } else if arg == "--sysupgrade"@ {
        Some(Action::Count(Counter::Sysupgrade))
    } else if arg == "--downloadonly"@ {
        Some(Action::Enable(Flag::Downloadonly))
    } else if arg == "--nosave"@ {
        Some(Action::Enable(Flag::Nosave))
    } else if arg == "--recursive"@ {
        Some(Action::Count(Counter::Recursive))
    } else if arg == "--cascade"@ {
        Some(Action::Enable(Flag::Cascade))
    } else if arg == "--unneeded"@ {
        Some(Action::Enable(Flag::Unneeded))
    } else if arg == "--info"@ {
        Some(Action::Enable(Flag::QInfo))
    } else if arg == "--deps"@ {
        Some(Action::Enable(Flag::QDeps))
    } else if arg == "--explicit"@ {
        Some(Action::Enable(Flag::QExplicit))
    } else if arg == "--unrequired"@ {
        Some(Action::Enable(Flag::QUnreq))
    } else if arg == "--upgrades"@ {
        Some(Action::Enable(Flag::QUpgrades))
    } else if arg == "--quiet"@ {
        Some(Action::Enable(Flag::QQuiet))
    } else if arg == "--owns"@ {
        Some(Action::Enable(Flag::QOwns))
    } else if arg == "--search"@ {
        Some(Action::Enable(Flag::QSearch))
    } else if arg == "--foreign"@ {
        Some(Action::Enable(Flag::QForeign))
    } else if arg == "--native"@ {
        Some(Action::Enable(Flag::QNative))
    } else if arg == "--list"@ {
        Some(Action::Enable(Flag::QList))
    } else if arg == "--groups"@ {
        Some(Action::Enable(Flag::QGroups))
    } else if arg == "--changelog"@ {
        Some(Action::Enable(Flag::QChangelog))
    } else if arg == "--file"@ {
        Some(Action::Enable(Flag::QFileQuery))
    } else if arg == "--noconfirm"@ {
        Some(Action::Enable(Flag::Noconfirm))
    } else if arg == "--asdeps"@ {
        Some(Action::Enable(Flag::Asdeps))
    } else if arg == "--asexplicit"@ {
        Some(Action::Enable(Flag::Asexplicit))
    } else if arg == "--plain"@ {
        Some(Action::Enable(Flag::Plain))
    } else if arg == "--version"@ {
        Some(Action::Enable(Flag::Version))
    } else if arg == "--help"@ {
        Some(Action::Enable(Flag::Help))
    } else if arg == "--needed"@ {
        Some(Action::Enable(Flag::Needed))
    } else if arg == "--noprogressbar"@ {
        Some(Action::Enable(Flag::Noprogressbar))
    } else if arg == "--nodeps"@ {
        Some(Action::Count(Counter::Nodeps))
    } else if arg == "--dbonly"@ {
        Some(Action::Enable(Flag::Dbonly))
    } else if arg == "--noscriptlet"@ {
        Some(Action::Enable(Flag::Noscriptlet))
    } else if arg == "--aur-only"@ {
        Some(Action::Enable(Flag::SAurOnly))
    } else if arg == "--sync-only"@ {
        Some(Action::Enable(Flag::SSyncOnly))
    } else if arg == "--deptest"@ {
        Some(Action::Enable(Flag::Deptest))
    } else if arg == "--print"@ {
        Some(Action::Enable(Flag::Print))
    } else if arg == "--verbose"@ {
        Some(Action::Count(Counter::Verbose))
    } else if arg == "--confirm"@ {
        Some(Action::Enable(Flag::Confirm))
    } else {
        None
    }
}

fn long_action_exec(arg: &str) -> (r: Option<Action>)
    ensures
        r == long_action(arg@),
{
    if str_eq(arg, "--sync") {
        Some(Action::SetOp(Op::Sync))
    } else if str_eq(arg, "--remove") {
        Some(Action::SetOp(Op::Remove))
    } else if str_eq(arg, "--upgrade") {
        Some(Action::SetOp(Op::Upgrade))
    } else if str_eq(arg, "--query") {
        Some(Action::SetOp(Op::Query))
    } else if str_eq(arg, "--database") {
        Some(Action::SetOp(Op::Database))
    } else if str_eq(arg, "--files") {
        Some(Action::SetOp(Op::Files))
    } else if str_eq(arg, "--check-config") {
        Some(Action::SetOp(Op::CheckConfig))
    } else if str_eq(arg, "--gen-config") {
        Some(Action::SetOp(Op::GenConfig))
    } else if str_eq(arg, "--declarative") {
        Some(Action::SetOp(Op::Declarative))
    } else if str_eq(arg, "--refresh") {
        Some(Action::Count(Counter::Refresh))
    } else if str_eq(arg, "--sysupgrade") {
        Some(Action::Count(Counter::Sysupgrade))
    } else if str_eq(arg, "--downloadonly") {
        Some(Action::Enable(Flag::Downloadonly))
    } else if str_eq(arg, "--nosave") {
        Some(Action::Enable(Flag::Nosave))
    } else if str_eq(arg, "--recursive") {
        Some(Action::Count(Counter::Recursive))
    } else if str_eq(arg, "--cascade") {
        Some(Action::Enable(Flag::Cascade))
    } else if str_eq(arg, "--unneeded") {
        Some(Action::Enable(Flag::Unneeded))
    } else if str_eq(arg, "--info") {
        Some(Action::Enable(Flag::QInfo))
    } else if str_eq(arg, "--deps") {
        Some(Action::Enable(Flag::QDeps))
    } else if str_eq(arg, "--explicit") {
        Some(Action::Enable(Flag::QExplicit))
    } else if str_eq(arg, "--unrequired") {
        Some(Action::Enable(Flag::QUnreq))
    } else if str_eq(arg, "--upgrades") {
        Some(Action::Enable(Flag::QUpgrades))
    } else if str_eq(arg, "--quiet") {
        Some(Action::Enable(Flag::QQuiet))
    } else if str_eq(arg, "--owns") {
        Some(Action::Enable(Flag::QOwns))
    } else if str_eq(arg, "--search") {
        Some(Action::Enable(Flag::QSearch))
    } else if str_eq(arg, "--foreign") {
        Some(Action::Enable(Flag::QForeign))
    } else if str_eq(arg, "--native") {
        Some(Action::Enable(Flag::QNative))
    } else if str_eq(arg, "--list") {
        Some(Action::Enable(Flag::QList))
    } else if str_eq(arg, "--groups") {
        Some(Action::Enable(Flag::QGroups))
    } else if str_eq(arg, "--changelog") {
        Some(Action::Enable(Flag::QChangelog))
    } else if str_eq(arg, "--file") {
        Some(Action::Enable(Flag::QFileQuery))
    } else if str_eq(arg, "--noconfirm") {
        Some(Action::Enable(Flag::Noconfirm))
    } else if str_eq(arg, "--asdeps") {
        Some(Action::Enable(Flag::Asdeps))
    } else if str_eq(arg, "--asexplicit") {
        Some(Action::Enable(Flag::Asexplicit))
    } else if str_eq(arg, "--plain") {
        Some(Action::Enable(Flag::Plain))
    } else if str_eq(arg, "--version") {
        Some(Action::Enable(Flag::Version))
    } else if str_eq(arg, "--help") {
        Some(Action::Enable(Flag::Help))
    } else if str_eq(arg, "--needed") {
        Some(Action::Enable(Flag::Needed))
    } else if str_eq(arg, "--noprogressbar") {
        Some(Action::Enable(Flag::Noprogressbar))
    } else if str_eq(arg, "--nodeps") {
        Some(Action::Count(Counter::Nodeps))
    } else if str_eq(arg, "--dbonly") {
        Some(Action::Enable(Flag::Dbonly))
    } else if str_eq(arg, "--noscriptlet") {
        Some(Action::Enable(Flag::Noscriptlet))
    } else if str_eq(arg, "--aur-only") {
        Some(Action::Enable(Flag::SAurOnly))
    } else if str_eq(arg, "--sync-only") {
        Some(Action::Enable(Flag::SSyncOnly))
    } else if str_eq(arg, "--deptest") {
        Some(Action::Enable(Flag::Deptest))
    } else if str_eq(arg, "--print") {
        Some(Action::Enable(Flag::Print))
    } else if str_eq(arg, "--verbose") {
        Some(Action::Count(Counter::Verbose))
    } else if str_eq(arg, "--confirm") {
        Some(Action::Enable(Flag::Confirm))
    } else {
        None
    }
}

/// The settings that take the argument after their flag.
#[derive(Clone, Copy, Debug, PartialEq, Eq, Structural)]
pub enum ValueField {
    InstallLocal,
    Color,
    AssumeInstalled,
    Config,
    Root,
    Dbpath,
    Cachedirs,
    Gpgdir,
    Hookdir,
    Logfile,
    Ignorepkg,
    Ignoregroup,
    Overwrite,
    PrintFormat,
    Arch,
}

/// Which setting a long flag with a value fills, or `None` for any other argument.
pub open spec fn value_field(arg: Seq<char>) -> Option<ValueField> {
    if arg == "--install-local"@ {
        Some(ValueField::InstallLocal)
    } else if arg == "--color"@ {
        Some(ValueField::Color)
    } else if arg == "--assume-installed"@ {
        Some(ValueField::AssumeInstalled)
    } else if arg == "--config"@ {
        Some(ValueField::Config)
    } else if arg == "--root"@ {
        Some(ValueField::Root)
    } else if arg == "--dbpath"@ {
        Some(ValueField::Dbpath)
    } else if arg == "--cachedir"@ {
        Some(ValueField::Cachedirs)
    } else if arg == "--gpgdir"@ {
        Some(ValueField::Gpgdir)
    } else if arg == "--hookdir"@ {
        Some(ValueField::Hookdir)
    } else if arg == "--logfile"@ {
        Some(ValueField::Logfile)
    } else if arg == "--ignore"@ {
        Some(ValueField::Ignorepkg)
    } else if arg == "--ignoregroup"@ {
        Some(ValueField::Ignoregroup)
    } else if arg == "--overwrite"@ {
        Some(ValueField::Overwrite)
    } else if arg == "--print-format"@ {
        Some(ValueField::PrintFormat)
    } else if arg == "--arch"@ {
        Some(ValueField::Arch)
    } else {
        None
    }
}

fn value_field_exec(arg: &str) -> (r: Option<ValueField>)
    ensures
        r == value_field(arg@),
{
    if str_eq(arg, "--install-local") {
        Some(ValueField::InstallLocal)
    } else if str_eq(arg, "--color") {
        Some(ValueField::Color)
    } else if str_eq(arg, "--assume-installed") {
        Some(ValueField::AssumeInstalled)
    } else if str_eq(arg, "--config") {
        Some(ValueField::Config)
    } else if str_eq(arg, "--root") {
        Some(ValueField::Root)
    } else if str_eq(arg, "--dbpath") {
        Some(ValueField::Dbpath)
    } else if str_eq(arg, "--cachedir") {
        Some(ValueField::Cachedirs)
    } else if str_eq(arg, "--gpgdir") {
        Some(ValueField::Gpgdir)
    } else if str_eq(arg, "--hookdir") {
        Some(ValueField::Hookdir)
    } else if str_eq(arg, "--logfile") {
        Some(ValueField::Logfile)
    } else if str_eq(arg, "--ignore") {
        Some(ValueField::Ignorepkg)
    } else if str_eq(arg, "--ignoregroup") {
        Some(ValueField::Ignoregroup)
    } else if str_eq(arg, "--overwrite") {
        Some(ValueField::Overwrite)
    } else if str_eq(arg, "--print-format") {
        Some(ValueField::PrintFormat)
    } else if str_eq(arg, "--arch") {
        Some(ValueField::Arch)
    } else {
        None
    }
}

/// The command line after a setting with a value: single values are replaced, lists grow.
pub open spec fn set_value(st: CliView, f: ValueField, v: Seq<char>) -> CliView {
    match f {
        ValueField::InstallLocal => CliView { values: ValuesView { install_local: Some(v), ..st.values }, ..st },
        ValueField::Color => CliView { values: ValuesView { color: Some(v), ..st.values }, ..st },
        ValueField::AssumeInstalled => CliView { values: ValuesView { assume_installed: st.values.assume_installed.push(v), ..st.values }, ..st },
        ValueField::Config => CliView { values: ValuesView { config: Some(v), ..st.values }, ..st },
        ValueField::Root => CliView { values: ValuesView { root: Some(v), ..st.values }, ..st },
        ValueField::Dbpath => CliView { values: ValuesView { dbpath: Some(v), ..st.values }, ..st },
        ValueField::Cachedirs => CliView { values: ValuesView { cachedirs: st.values.cachedirs.push(v), ..st.values }, ..st },
        ValueField::Gpgdir => CliView { values: ValuesView { gpgdir: Some(v), ..st.values }, ..st },
        ValueField::Hookdir => CliView { values: ValuesView { hookdir: Some(v), ..st.values }, ..st },
        ValueField::Logfile => CliView { values: ValuesView { logfile: Some(v), ..st.values }, ..st },
        ValueField::Ignorepkg => CliView { values: ValuesView { ignorepkg: st.values.ignorepkg.push(v), ..st.values }, ..st },
        ValueField::Ignoregroup => CliView { values: ValuesView { ignoregroup: st.values.ignoregroup.push(v), ..st.values }, ..st },
        ValueField::Overwrite => CliView { values: ValuesView { overwrite: st.values.overwrite.push(v), ..st.values }, ..st },
        ValueField::PrintFormat => CliView { values: ValuesView { print_format: Some(v), ..st.values }, ..st },
        ValueField::Arch => CliView { values: ValuesView { arch: Some(v), ..st.values }, ..st },
    }
}

fn set_value_exec(cli: Cli, f: ValueField, v: String, Ghost(st): Ghost<CliView>) -> (r: Cli)
    requires
        cli.models(st),
    ensures
        r.models(set_value(st, f, v@)),
{
    let mut cli = cli;
    proof {
        reveal(Values::models);
    }
    match f {
        ValueField::InstallLocal => {
            cli.values.install_local = Some(v);
        },
        ValueField::Color => {
            cli.values.color = Some(v);
        },
        ValueField::AssumeInstalled => {
            cli.values.assume_installed.push(v);
            proof {
                reveal(vview);
                assert(views(cli.values.assume_installed@) == st.values.assume_installed.push(v@));
            }
        },
        ValueField::Config => {
            cli.values.config = Some(v);
        },
        ValueField::Root => {
            cli.values.root = Some(v);
        },
        ValueField::Dbpath => {
            cli.values.dbpath = Some(v);
        },
        ValueField::Cachedirs => {
            cli.values.cachedirs.push(v);
            proof {
                reveal(vview);
                assert(views(cli.values.cachedirs@) == st.values.cachedirs.push(v@));
            }
        },
        ValueField::Gpgdir => {
            cli.values.gpgdir = Some(v);
        },
        ValueField::Hookdir => {
            cli.values.hookdir = Some(v);
        },
        ValueField::Logfile => {
            cli.values.logfile = Some(v);
        },
        ValueField::Ignorepkg => {
            cli.values.ignorepkg.push(v);
            proof {
                reveal(vview);
                assert(views(cli.values.ignorepkg@) == st.values.ignorepkg.push(v@));
            }
        },
        ValueField::Ignoregroup => {
            cli.values.ignoregroup.push(v);
            proof {
                reveal(vview);
                assert(views(cli.values.ignoregroup@) == st.values.ignoregroup.push(v@));
            }
        },
        ValueField::Overwrite => {
            cli.values.overwrite.push(v);
            proof {
                reveal(vview);
                assert(views(cli.values.overwrite@) == st.values.overwrite.push(v@));
            }
        },
        ValueField::PrintFormat => {
            cli.values.print_format = Some(v);
        },
        ValueField::Arch => {
            cli.values.arch = Some(v);
        },
    }
    cli
}

/// What a letter of a short-flag cluster does while `op` is the operation chosen so far,
/// or `None` for a letter that is not a flag.
pub open spec fn short_action(op: Op, c: char) -> Option<Action> {
    if c == 'S' {
        Some(Action::SetOp(Op::Sync))
    } else if c == 'R' {
        Some(Action::SetOp(Op::Remove))
    } else if c == 'U' {
        Some(Action::SetOp(Op::Upgrade))
    } else if c == 'Q' {
        Some(Action::SetOp(Op::Query))
    } else if c == 'D' {
        Some(Action::SetOp(Op::Database))
    } else if c == 'F' {
        Some(Action::SetOp(Op::Files))
    } else if c == 'y' {
        Some(Action::Count(Counter::Refresh))
    } else if c == 'u' {
        if op == Op::Query {
            Some(Action::Enable(Flag::QUpgrades))
        } else if op == Op::Remove {
            Some(Action::Enable(Flag::Unneeded))
        } else {
            Some(Action::Count(Counter::Sysupgrade))
        }
    } else if c == 'w' {
        Some(Action::Enable(Flag::Downloadonly))
    } else if c == 'n' {
        if op == Op::Query {
            Some(Action::Enable(Flag::QNative))
        } else {
            Some(Action::Enable(Flag::Nosave))
        }
    } else if c == 's' {
        if op == Op::Remove {
            Some(Action::Count(Counter::Recursive))
        } else if op == Op::Sync {
            Some(Action::Enable(Flag::SSearch))
        } else if op == Op::Query {
            Some(Action::Enable(Flag::QSearch))
        } else {
            Some(Action::Nothing)
        }
    } else if c == 'i' {
        if op == Op::Sync {
            Some(Action::Enable(Flag::SInfo))
        } else if op == Op::Query {
            Some(Action::Enable(Flag::QInfo))
        } else {
            Some(Action::Nothing)
        }
    } else if c == 'l' {
        if op == Op::Sync {
            Some(Action::Enable(Flag::SList))
        } else if op == Op::Query {
            Some(Action::Enable(Flag::QList))
        } else {
            Some(Action::Nothing)
        }
    } else if c == 'c' {
        if op == Op::Sync {
            Some(Action::Enable(Flag::SClean))
        } else if op == Op::Query {
            Some(Action::Enable(Flag::QChangelog))
        } else if op == Op::Remove {
            Some(Action::Enable(Flag::Cascade))
        } else {
            Some(Action::Nothing)
        }
    } else if c == 'g' {
        if op == Op::Sync {
            Some(Action::Enable(Flag::SGroups))
        } else if op == Op::Query {
            Some(Action::Enable(Flag::QGroups))
        } else {
            Some(Action::Nothing)
        }
    } else if c == 'd' {
        if op == Op::Query {
            Some(Action::Enable(Flag::QDeps))
        } else if op == Op::Sync || op == Op::Upgrade || op == Op::Remove {
            Some(Action::Count(Counter::Nodeps))
        } else {
            Some(Action::Nothing)
        }
    } else if c == 'e' {
        if op == Op::Query {
            Some(Action::Enable(Flag::QExplicit))
        } else {
            Some(Action::Nothing)
        }
    } else if c == 't' {
        if op == Op::Query {
            Some(Action::Enable(Flag::QUnreq))
        } else {
            Some(Action::Nothing)
        }
    } else if c == 'k' {
        if op == Op::Query {
            Some(Action::Enable(Flag::QFileCheck))
        } else if op == Op::Database {
            Some(Action::Enable(Flag::DbCheck))
        } else {
            Some(Action::Nothing)
        }
    } else if c == 'q' {
        if op == Op::Sync {
            Some(Action::Enable(Flag::SQuiet))
        } else if op == Op::Query {
            Some(Action::Enable(Flag::QQuiet))
        } else if op == Op::Database {
            Some(Action::Enable(Flag::QQuiet))
        } else {
            Some(Action::Nothing)
        }
    } else if c == 'o' {
        if op == Op::Query {
            Some(Action::Enable(Flag::QOwns))
        } else {
            Some(Action::Nothing)
        }
    } else if c == 'm' {
        if op == Op::Query {
            Some(Action::Enable(Flag::QForeign))
        } else {
            Some(Action::Nothing)
        }
    } else if c == 'p' {
        if op == Op::Query {
            Some(Action::Enable(Flag::QFileQuery))
        } else {
            Some(Action::Enable(Flag::Print))
        }
    } else if c == 'v' {
        Some(Action::Count(Counter::Verbose))
    } else if c == 'V' {
        Some(Action::Enable(Flag::Version))
    } else if c == 'h' {
        Some(Action::Enable(Flag::Help))
    } else if c == 'T' {
        Some(Action::Enable(Flag::Deptest))
    } else {
        None
    }
}

fn short_action_exec(op: Op, c: char) -> (r: Option<Action>)
    ensures
        r == short_action(op, c),
{
    if c == 'S' {
        Some(Action::SetOp(Op::Sync))
    } else if c == 'R' {
        Some(Action::SetOp(Op::Remove))
    } else if c == 'U' {
        Some(Action::SetOp(Op::Upgrade))
    } else if c == 'Q' {
        Some(Action::SetOp(Op::Query))
    } else if c == 'D' {
        Some(Action::SetOp(Op::Database))
    } else if c == 'F' {
        Some(Action::SetOp(Op::Files))
    } else if c == 'y' {
        Some(Action::Count(Counter::Refresh))
    } else if c == 'u' {
        if op == Op::Query {
            Some(Action::Enable(Flag::QUpgrades))
        } else if op == Op::Remove {
            Some(Action::Enable(Flag::Unneeded))
        } else {
            Some(Action::Count(Counter::Sysupgrade))
        }
    } else if c == 'w' {
        Some(Action::Enable(Flag::Downloadonly))
    } else if c == 'n' {
        if op == Op::Query {
            Some(Action::Enable(Flag::QNative))
        } else {
            Some(Action::Enable(Flag::Nosave))
        }
    } else if c == 's' {
        if op == Op::Remove {
            Some(Action::Count(Counter::Recursive))
        } else if op == Op::Sync {
            Some(Action::Enable(Flag::SSearch))
        } else if op == Op::Query {
            Some(Action::Enable(Flag::QSearch))
        } else {
            Some(Action::Nothing)
        }
    } else if c == 'i' {
        if op == Op::Sync {
            Some(Action::Enable(Flag::SInfo))
        } else if op == Op::Query {
            Some(Action::Enable(Flag::QInfo))
        } else {
            Some(Action::Nothing)
        }
    } else if c == 'l' {
        if op == Op::Sync {
            Some(Action::Enable(Flag::SList))
        } else if op == Op::Query {
            Some(Action::Enable(Flag::QList))
        } else {
            Some(Action::Nothing)
        }
    } else if c == 'c' {
        if op == Op::Sync {
            Some(Action::Enable(Flag::SClean))
        } else if op == Op::Query {
            Some(Action::Enable(Flag::QChangelog))
        } else if op == Op::Remove {
            Some(Action::Enable(Flag::Cascade))
        } else {
            Some(Action::Nothing)
        }
    } else if c == 'g' {
        if op == Op::Sync {
            Some(Action::Enable(Flag::SGroups))
        } else if op == Op::Query {
            Some(Action::Enable(Flag::QGroups))
        } else {
            Some(Action::Nothing)
        }
    } else if c == 'd' {
        if op == Op::Query {
            Some(Action::Enable(Flag::QDeps))
        } else if op == Op::Sync || op == Op::Upgrade || op == Op::Remove {
            Some(Action::Count(Counter::Nodeps))
        } else {
            Some(Action::Nothing)
        }
    } else if c == 'e' {
        if op == Op::Query {
            Some(Action::Enable(Flag::QExplicit))
        } else {
            Some(Action::Nothing)
        }
    } else if c == 't' {
        if op == Op::Query {
            Some(Action::Enable(Flag::QUnreq))
        } else {
            Some(Action::Nothing)
        }
    } else if c == 'k' {
        if op == Op::Query {
            Some(Action::Enable(Flag::QFileCheck))
        } else if op == Op::Database {
            Some(Action::Enable(Flag::DbCheck))
        } else {
            Some(Action::Nothing)
        }
    } else if c == 'q' {
        if op == Op::Sync {
            Some(Action::Enable(Flag::SQuiet))
        } else if op == Op::Query {
            Some(Action::Enable(Flag::QQuiet))
        } else if op == Op::Database {
            Some(Action::Enable(Flag::QQuiet))
        } else {
            Some(Action::Nothing)
        }
    } else if c == 'o' {
        if op == Op::Query {
            Some(Action::Enable(Flag::QOwns))
        } else {
            Some(Action::Nothing)
        }
    } else if c == 'm' {
        if op == Op::Query {
            Some(Action::Enable(Flag::QForeign))
        } else {
            Some(Action::Nothing)
        }
    } else if c == 'p' {
        if op == Op::Query {
            Some(Action::Enable(Flag::QFileQuery))
        } else {
            Some(Action::Enable(Flag::Print))
        }
    } else if c == 'v' {
        Some(Action::Count(Counter::Verbose))
    } else if c == 'V' {
        Some(Action::Enable(Flag::Version))
    } else if c == 'h' {
        Some(Action::Enable(Flag::Help))
    } else if c == 'T' {
        Some(Action::Enable(Flag::Deptest))
    } else {
        None
    }
}

/// The letters of a short-flag cluster applied left to right; the first letter that is
/// not a flag stops it.
pub open spec fn short_flags(st: CliView, cs: Seq<char>) -> Result<CliView, char>
    decreases cs.len(),
{
    if cs.len() == 0 {
        Ok(st)
    } else {
        match short_action(st.op, cs[0]) {
            Some(a) => short_flags(apply_action(st, a), cs.drop_first()),
            None => Err(cs[0]),
        }
    }
}

/// What reading the arguments from index `i` on does to `st`: long flags (`--name`, some
/// taking the next argument as value, `--color=VALUE` in one argument, `--` making every
/// later argument a target),
/// clusters of short flags (`-Syu`), and targets.
pub open spec fn parse_from(args: Seq<Seq<char>>, i: int, st: CliView) -> Result<CliView, Seq<char>>
    decreases args.len() - i,
{
    if i < 0 || i >= args.len() {
        Ok(st)
    } else {
        let arg = args[i];
        if starts_with_seq(arg, "--"@) {
            if arg == "--"@ {
                Ok(CliView { targets: st.targets + args.skip(i + 1), ..st })
            } else if let Some(v) = strip_prefix_seq(arg, "--color="@) {
                parse_from(args, i + 1, set_value(st, ValueField::Color, v))
            } else {
                match value_field(arg) {
                    Some(f) => if i + 1 < args.len() {
                        parse_from(args, i + 2, set_value(st, f, args[i + 1]))
                    } else {
                        Err("missing value for "@ + arg)
                    },
                    None => match long_action(arg) {
                        Some(a) => parse_from(args, i + 1, apply_action(st, a)),
                        None => Err("unsupported flag: "@ + arg),
                    },
                }
            }
        } else if starts_with_seq(arg, "-"@) {
            match short_flags(st, arg.drop_first()) {
                Ok(st2) => parse_from(args, i + 1, st2),
                Err(c) => Err("unsupported flag: -"@ + seq![c]),
            }
        } else {
            parse_from(args, i + 1, CliView { targets: st.targets.push(arg), ..st })
        }
    }
}

/// Whether output is plain for the `--color` value `c`: `always` no, `never` yes, `auto`
/// when standard output is not a terminal; any other value is refused.
pub open spec fn color_plain_seq(c: Seq<char>, stdout_is_terminal: bool) -> Result<bool, Seq<char>> {
    if c == "always"@ {
        Ok(false)
    } else if c == "never"@ {
        Ok(true)
    } else if c == "auto"@ {
        Ok(!stdout_is_terminal)
    } else {
        Err("invalid value for --color: "@ + c + ". Expected always, never, or auto"@)
    }
}

/// What `--color`, if given, does to the command line once every argument is read.
pub open spec fn apply_color(st: CliView, stdout_is_terminal: bool) -> Result<CliView, Seq<char>> {
    match st.values.color {
        None => Ok(st),
        Some(c) => match color_plain_seq(c, stdout_is_terminal) {
            Ok(p) => Ok(CliView { switches: Switches { plain: p, ..st.switches }, ..st }),
            Err(e) => Err(e),
        },
    }
}

/// The command line that the arguments (without the program name) give, or the message
/// that refuses them.
pub open spec fn parse_args_seq(args: Seq<Seq<char>>, stdout_is_terminal: bool) -> Result<CliView, Seq<char>> {
    match parse_from(args, 0, initial_view(stdout_is_terminal)) {
        Ok(st) => apply_color(st, stdout_is_terminal),
        Err(e) => Err(e),
    }
}

proof fn lemma_short_flags_concat(st: CliView, x: Seq<char>, y: Seq<char>)
    ensures
        short_flags(st, x + y) == match short_flags(st, x) {
            Ok(s2) => short_flags(s2, y),
            Err(c) => Err(c),
        },
    decreases x.len(),
{
    if x.len() == 0 {
        assert(x + y == y);
    } else {
        assert((x + y)[0] == x[0]);
        assert((x + y).drop_first() == x.drop_first() + y);
        match short_action(st.op, x[0]) {
            Some(a) => lemma_short_flags_concat(apply_action(st, a), x.drop_first(), y),
            None => {},
        }
    }
}

/// Reading depends only on the arguments from the current one on.
proof fn lemma_parse_from_suffix(a1: Seq<Seq<char>>, i: int, a2: Seq<Seq<char>>, j: int, st: CliView)
    requires
        0 <= i <= a1.len(),
        0 <= j <= a2.len(),
        a1.skip(i) == a2.skip(j),
    ensures
        parse_from(a1, i, st) == parse_from(a2, j, st),
    decreases a1.len() - i,
{
    assert(a1.skip(i).len() == a1.len() - i);
    assert(a2.skip(j).len() == a2.len() - j);
    if i < a1.len() {
        assert(j < a2.len());
        assert(a1[i] == a1.skip(i)[0]);
        assert(a2[j] == a2.skip(j)[0]);
        assert(a1.skip(i + 1) == a1.skip(i).drop_first());
        assert(a2.skip(j + 1) == a2.skip(j).drop_first());
        let arg = a1[i];
        if i + 1 < a1.len() {
            assert(a1[i + 1] == a1.skip(i)[1]);
            assert(a2[j + 1] == a2.skip(j)[1]);
            assert(a1.skip(i + 2) == a1.skip(i + 1).drop_first());
            assert(a2.skip(j + 2) == a2.skip(j + 1).drop_first());
        }
        if starts_with_seq(arg, "--"@) {
            if arg == "--"@ {
            } else if let Some(v) = strip_prefix_seq(arg, "--color="@) {
                lemma_parse_from_suffix(a1, i + 1, a2, j + 1, set_value(st, ValueField::Color, v));
            } else {
                match value_field(arg) {
                    Some(f) => {
                        if i + 1 < a1.len() {
                            lemma_parse_from_suffix(a1, i + 2, a2, j + 2, set_value(st, f, a1[i + 1]));
                        }
                    },
                    None => match long_action(arg) {
                        Some(a) => lemma_parse_from_suffix(a1, i + 1, a2, j + 1, apply_action(st, a)),
                        None => {},
                    },
                }
            }
        } else if starts_with_seq(arg, "-"@) {
            match short_flags(st, arg.drop_first()) {
                Ok(st2) => lemma_parse_from_suffix(a1, i + 1, a2, j + 1, st2),
                Err(_) => {},
            }
        } else {
            lemma_parse_from_suffix(a1, i + 1, a2, j + 1, CliView { targets: st.targets.push(arg), ..st });
        }
    }
}

/// A cluster of short flags reads as its letters split over two clusters: `-Syu` gives
/// what `-Sy -u` gives, wherever it stands among the arguments.
pub proof fn law_cluster_splits(
    pre: Seq<Seq<char>>,
    a: Seq<char>,
    b: Seq<char>,
    rest: Seq<Seq<char>>,
    st: CliView,
)
    requires
        a.len() > 0,
        b.len() > 0,
        a[0] != '-',
        b[0] != '-',
    ensures
        parse_from(pre + seq![seq!['-'] + a + b] + rest, pre.len() as int, st) == parse_from(
            pre + seq![seq!['-'] + a, seq!['-'] + b] + rest,
            pre.len() as int,
            st,
        ),
{
    reveal_strlit("--");
    reveal_strlit("-");
    let one = pre + seq![seq!['-'] + a + b] + rest;
    let two = pre + seq![seq!['-'] + a, seq!['-'] + b] + rest;
    let i = pre.len() as int;
    let c = seq!['-'] + a + b;
    let ca = seq!['-'] + a;
    let cb = seq!['-'] + b;
    assert(one[i] == c);
    assert(two[i] == ca);
    assert(two[i + 1] == cb);
    assert(c[1] == a[0]);
    assert(ca[1] == a[0]);
    assert(cb[1] == b[0]);
    assert(!starts_with_seq(c, "--"@)) by {
        assert(c.subrange(0, 2)[1] == a[0]);
    }
    assert(!starts_with_seq(ca, "--"@)) by {
        if ca.len() >= 2 {
            assert(ca.subrange(0, 2)[1] == a[0]);
        }
    }
    assert(!starts_with_seq(cb, "--"@)) by {
        if cb.len() >= 2 {
            assert(cb.subrange(0, 2)[1] == b[0]);
        }
    }
    assert(starts_with_seq(c, "-"@)) by {
        assert(c.subrange(0, 1) =~= "-"@);
    }
    assert(starts_with_seq(ca, "-"@)) by {
        assert(ca.subrange(0, 1) =~= "-"@);
    }
    assert(starts_with_seq(cb, "-"@)) by {
        assert(cb.subrange(0, 1) =~= "-"@);
    }
    assert(c.drop_first() == a + b);
    assert(ca.drop_first() == a);
    assert(cb.drop_first() == b);
    lemma_short_flags_concat(st, a, b);
    assert(i < one.len() && i + 1 < two.len());
    match short_flags(st, a) {
        Ok(s1) => {
            assert(parse_from(two, i, st) == parse_from(two, i + 1, s1));
            match short_flags(s1, b) {
                Ok(s2) => {
                    assert(one.skip(i + 1) == rest);
                    assert(two.skip(i + 2) == rest);
                    lemma_parse_from_suffix(one, i + 1, two, i + 2, s2);
                    assert(parse_from(one, i, st) == parse_from(one, i + 1, s2));
                    assert(parse_from(two, i + 1, s1) == parse_from(two, i + 2, s2));
                },
                Err(ch) => {
                    assert(parse_from(one, i, st) == Err::<CliView, Seq<char>>("unsupported flag: -"@ + seq![ch]));
                    assert(parse_from(two, i + 1, s1) == Err::<CliView, Seq<char>>("unsupported flag: -"@ + seq![ch]));
                },
            }
        },
        Err(ch) => {
            assert(parse_from(one, i, st) == Err::<CliView, Seq<char>>("unsupported flag: -"@ + seq![ch]));
            assert(parse_from(two, i, st) == Err::<CliView, Seq<char>>("unsupported flag: -"@ + seq![ch]));
        },
    }
}

/// Applies the letters of the cluster `arg` (which starts with `-`).
fn apply_cluster(cli: Cli, arg: &str, Ghost(st): Ghost<CliView>) -> (r: Result<(Cli, Ghost<CliView>), char>)
    requires
        cli.models(st),
        arg@.len() > 0,
    ensures
        match short_flags(st, arg@.drop_first()) {
            Ok(st2) => r matches Ok(x) && x.1@ == st2 && x.0.models(st2),
            Err(c) => r matches Err(d) && d == c,
        },
{
    let cs = chars_of(arg);
    let mut cli = cli;
    let mut j: usize = 1;
    let ghost mut cur = st;
    assert(cs@.skip(1) == arg@.drop_first());
    while j < cs.len()
        invariant
            1 <= j <= cs.len(),
            cs@ == arg@,
            cli.models(cur),
            short_flags(st, arg@.drop_first()) == short_flags(cur, cs@.skip(j as int)),
        decreases cs.len() - j,
    {
        let c = cs[j];
        assert(cs@.skip(j as int)[0] == c);
        assert(cs@.skip(j as int).drop_first() == cs@.skip(j + 1));
        match short_action_exec(cli.op, c) {
            None => {
                return Err(c);
            },
            Some(a) => {
                cli = apply_action_exec(cli, a, Ghost(cur));
                proof {
                    cur = apply_action(cur, a);
                }
            },
        }
        j = j + 1;
    }
    assert(cs@.skip(j as int).len() == 0);
    Ok((cli, Ghost(cur)))
}

fn push_target(cli: Cli, t: String, Ghost(st): Ghost<CliView>) -> (r: Cli)
    requires
        cli.models(st),
    ensures
        r.models(CliView { targets: st.targets.push(t@), ..st }),
{
    let mut cli = cli;
    cli.targets.push(t);
    proof {
        reveal(vview);
        assert(views(cli.targets@) == st.targets.push(t@));
    }
    cli
}

fn set_plain(cli: Cli, p: bool, Ghost(st): Ghost<CliView>) -> (r: Cli)
    requires
        cli.models(st),
    ensures
        r.models(CliView { switches: Switches { plain: p, ..st.switches }, ..st }),
{
    let mut cli = cli;
    let mut s = cli.switches;
    s.plain = p;
    cli.switches = s;
    cli
}

/// Reads the argument at `i` (and, for a flag that takes a value, the one after it) and
/// says where reading goes on; after `--` that is the end of the arguments.
fn parse_step(cli: Cli, args: &Vec<String>, i: usize, Ghost(st): Ghost<CliView>) -> (r: Result<(Cli, usize, Ghost<CliView>), String>)
    requires
        cli.models(st),
        i < args.len(),
    ensures
        match r {
            Ok(x) => i < x.1 <= args.len() && x.0.models(x.2@) && parse_from(views(args@), i as int, st)
                == parse_from(views(args@), x.1 as int, x.2@),
            Err(m) => parse_from(views(args@), i as int, st) == Err::<CliView, Seq<char>>(m@),
        },
{
    let ghost argv = views(args@);
    assert(argv[i as int] == args@[i as int]@);
    let arg = args[i].as_str();
    if starts_with(arg, "--") {
        if str_eq(arg, "--") {
            let mut cli = cli;
            let mut k = i + 1;
            while k < args.len()
                invariant
                    i < k <= args.len(),
                    argv == views(args@),
                    cli.models(CliView { targets: st.targets + argv.subrange(i + 1, k as int), ..st }),
                decreases args.len() - k,
            {
                assert(argv[k as int] == args@[k as int]@);
                let ghost cur = CliView { targets: st.targets + argv.subrange(i + 1, k as int), ..st };
                cli = push_target(cli, args[k].clone(), Ghost(cur));
                assert(st.targets + argv.subrange(i + 1, k + 1) == (st.targets + argv.subrange(i + 1, k as int)).push(argv[k as int]));
                k = k + 1;
            }
            let ghost fin = CliView { targets: st.targets + argv.skip(i + 1), ..st };
            assert(argv.subrange(i + 1, args.len() as int) == argv.skip(i + 1));
            Ok((cli, args.len(), Ghost(fin)))
        } else if let Some(v) = strip_prefix(arg, "--color=") {
            let c = set_value_exec(cli, ValueField::Color, v, Ghost(st));
            Ok((c, i + 1, Ghost(set_value(st, ValueField::Color, v@))))
        } else {
            match value_field_exec(arg) {
                Some(f) => {
                    if i + 1 < args.len() {
                        assert(argv[i + 1] == args@[i + 1]@);
                        let c = set_value_exec(cli, f, args[i + 1].clone(), Ghost(st));
                        Ok((c, i + 2, Ghost(set_value(st, f, argv[i + 1]))))
                    } else {
                        let mut m = String::from_str("missing value for ");
                        m.append(arg);
                        assert(m@ == "missing value for "@ + arg@);
                        Err(m)
                    }
                },
                None => match long_action_exec(arg) {
                    Some(a) => {
                        let c = apply_action_exec(cli, a, Ghost(st));
                        Ok((c, i + 1, Ghost(apply_action(st, a))))
                    },
                    None => {
                        let mut m = String::from_str("unsupported flag: ");
                        m.append(arg);
                        assert(m@ == "unsupported flag: "@ + arg@);
                        Err(m)
                    },
                },
            }
        }
    } else if starts_with(arg, "-") {
        proof {
            reveal_strlit("-");
        }
        match apply_cluster(cli, arg, Ghost(st)) {
            Ok((c2, g)) => Ok((c2, i + 1, g)),
            Err(c) => {
                let mut m = String::from_str("unsupported flag: -");
                crate::text::push_char(&mut m, c);
                assert(m@ == "unsupported flag: -"@ + seq![c]);
                Err(m)
            },
        }
    } else {
        let c = push_target(cli, args[i].clone(), Ghost(st));
        Ok((c, i + 1, Ghost(CliView { targets: st.targets.push(argv[i as int]), ..st })))
    }
}

proof fn lemma_color_words()
    ensures
        "always"@ != "never"@,
        "always"@ != "auto"@,
        "never"@ != "auto"@,
{
    reveal_strlit("always");
    reveal_strlit("never");
    reveal_strlit("auto");
    assert("always"@[0] != "never"@[0]);
    assert("always"@[1] != "auto"@[1]);
    assert("never"@[0] != "auto"@[0]);
}

/// Whether output is plain for the `--color` value `c`, or the message refusing it.
fn color_plain(c: &str, stdout_is_terminal: bool) -> (r: Result<bool, String>)
    ensures
        match color_plain_seq(c@, stdout_is_terminal) {
            Ok(p) => r == Ok::<bool, String>(p),
            Err(e) => r matches Err(m) && m@ == e,
        },
{
    proof {
        lemma_color_words();
    }
    if str_eq(c, "always") {
        Ok(false)
    } else if str_eq(c, "never") {
        Ok(true)
    } else if str_eq(c, "auto") {
        Ok(!stdout_is_terminal)
    } else {
        let mut m = String::from_str("invalid value for --color: ");
        m.append(c);
        m.append(". Expected always, never, or auto");
        Err(m)
    }
}

/// Applies `--color` once every argument has been read.
fn finish_color(cli: Cli, Ghost(st): Ghost<CliView>, stdout_is_terminal: bool) -> (r: Result<Cli, String>)
    requires
        cli.models(st),
    ensures
        match apply_color(st, stdout_is_terminal) {
            Ok(v) => r matches Ok(c) && c.models(v),
            Err(e) => r matches Err(m) && m@ == e,
        },
{
    assert(opt_view(cli.values.color) == st.values.color) by {
        reveal(Values::models);
    }
    proof {
        lemma_color_words();
    }
    let color = match &cli.values.color {
        Some(c) => Some(c.clone()),
        None => None,
    };
    match color {
        None => Ok(cli),
        Some(c) => match color_plain(c.as_str(), stdout_is_terminal) {
            Ok(p) => Ok(set_plain(cli, p, Ghost(st))),
            Err(m) => Err(m),
        },
    }
}

/// Parses the command-line arguments (without the program name).
pub fn parse_args(args: &Vec<String>, stdout_is_terminal: bool) -> (r: Result<Cli, String>)
    ensures
        match parse_args_seq(views(args@), stdout_is_terminal) {
            Ok(v) => r matches Ok(c) && c.models(v),
            Err(e) => r matches Err(m) && m@ == e,
        },
{
    let ghost argv = views(args@);
    let mut cli = Cli::new(stdout_is_terminal);
    let ghost mut st = initial_view(stdout_is_terminal);
    let mut i: usize = 0;
    while i < args.len()
        invariant
            i <= args.len(),
            argv == views(args@),
            cli.models(st),
            parse_from(argv, 0, initial_view(stdout_is_terminal)) == parse_from(argv, i as int, st),
        decreases args.len() - i,
    {
        match parse_step(cli, args, i, Ghost(st)) {
            Ok((c, j, g)) => {
                cli = c;
                i = j;
                proof {
                    st = g@;
                }
            },
            Err(m) => {
                return Err(m);
            },
        }
    }
    finish_color(cli, Ghost(st), stdout_is_terminal)
}

/// A long flag that takes no value is read by `long_action`: `parse_from` applies what it
/// names and goes on with the next argument.
pub proof fn law_long_flag_step(args: Seq<Seq<char>>, i: int, st: CliView)
    requires
        0 <= i < args.len(),
        args[i].len() >= 3,
        args[i][0] == '-',
        args[i][1] == '-',
        args[i][2] != 'c' || args[i].len() < 8 || args[i][7] != '=',
        value_field(args[i]) is None,
        long_action(args[i]) is Some,
    ensures
        parse_from(args, i, st) == parse_from(args, i + 1, apply_action(st, long_action(args[i]).unwrap())),
{
    let arg = args[i];
    reveal_strlit("--");
    reveal_strlit("--color=");
    assert(arg.subrange(0, 2) =~= "--"@);
    assert(arg != "--"@) by {
        assert(arg.len() != "--"@.len());
    }
    if arg.len() >= 8 && arg.subrange(0, 8) == "--color="@ {
        assert(arg.subrange(0, 8)[2] == arg[2]);
        assert(arg.subrange(0, 8)[7] == arg[7]);
    }
}

/// The lengths of the long flags, by which most of them differ.
proof fn lemma_flag_lengths()
    ensures
        "--arch"@.len() == 6,
        "--deps"@.len() == 6,
        "--file"@.len() == 6,
        "--help"@.len() == 6,
        "--info"@.len() == 6,
        "--list"@.len() == 6,
        "--owns"@.len() == 6,
        "--root"@.len() == 6,
        "--sync"@.len() == 6,
        "--color"@.len() == 7,
        "--files"@.len() == 7,
        "--plain"@.len() == 7,
        "--print"@.len() == 7,
        "--query"@.len() == 7,
        "--quiet"@.len() == 7,
        "--asdeps"@.len() == 8,
        "--config"@.len() == 8,
        "--dbonly"@.len() == 8,
        "--dbpath"@.len() == 8,
        "--gpgdir"@.len() == 8,
        "--groups"@.len() == 8,
        "--ignore"@.len() == 8,
        "--native"@.len() == 8,
        "--needed"@.len() == 8,
        "--nodeps"@.len() == 8,
        "--nosave"@.len() == 8,
        "--remove"@.len() == 8,
        "--search"@.len() == 8,
        "--cascade"@.len() == 9,
        "--confirm"@.len() == 9,
        "--deptest"@.len() == 9,
        "--foreign"@.len() == 9,
        "--hookdir"@.len() == 9,
        "--logfile"@.len() == 9,
        "--refresh"@.len() == 9,
        "--upgrade"@.len() == 9,
        "--verbose"@.len() == 9,
        "--version"@.len() == 9,
        "--aur-only"@.len() == 10,
        "--cachedir"@.len() == 10,
        "--database"@.len() == 10,
        "--explicit"@.len() == 10,
        "--unneeded"@.len() == 10,
        "--upgrades"@.len() == 10,
        "--changelog"@.len() == 11,
        "--noconfirm"@.len() == 11,
        "--overwrite"@.len() == 11,
        "--recursive"@.len() == 11,
        "--sync-only"@.len() == 11,
        "--asexplicit"@.len() == 12,
        "--gen-config"@.len() == 12,
        "--sysupgrade"@.len() == 12,
        "--unrequired"@.len() == 12,
        "--declarative"@.len() == 13,
        "--ignoregroup"@.len() == 13,
        "--noscriptlet"@.len() == 13,
        "--check-config"@.len() == 14,
        "--downloadonly"@.len() == 14,
        "--print-format"@.len() == 14,
        "--install-local"@.len() == 15,
        "--noprogressbar"@.len() == 15,
        "--assume-installed"@.len() == 18,
{
    reveal_strlit("--arch");
    reveal_strlit("--deps");
    reveal_strlit("--file");
    reveal_strlit("--help");
    reveal_strlit("--info");
    reveal_strlit("--list");
    reveal_strlit("--owns");
    reveal_strlit("--root");
    reveal_strlit("--sync");
    reveal_strlit("--color");
    reveal_strlit("--files");
    reveal_strlit("--plain");
    reveal_strlit("--print");
    reveal_strlit("--query");
    reveal_strlit("--quiet");
    reveal_strlit("--asdeps");
    reveal_strlit("--config");
    reveal_strlit("--dbonly");
    reveal_strlit("--dbpath");
    reveal_strlit("--gpgdir");
    reveal_strlit("--groups");
    reveal_strlit("--ignore");
    reveal_strlit("--native");
    reveal_strlit("--needed");
    reveal_strlit("--nodeps");
    reveal_strlit("--nosave");
    reveal_strlit("--remove");
    reveal_strlit("--search");
    reveal_strlit("--cascade");
    reveal_strlit("--confirm");
    reveal_strlit("--deptest");
    reveal_strlit("--foreign");
    reveal_strlit("--hookdir");
    reveal_strlit("--logfile");
    reveal_strlit("--refresh");
    reveal_strlit("--upgrade");
    reveal_strlit("--verbose");
    reveal_strlit("--version");
    reveal_strlit("--aur-only");
    reveal_strlit("--cachedir");
    reveal_strlit("--database");
    reveal_strlit("--explicit");
    reveal_strlit("--unneeded");
    reveal_strlit("--upgrades");
    reveal_strlit("--changelog");
    reveal_strlit("--noconfirm");
    reveal_strlit("--overwrite");
    reveal_strlit("--recursive");
    reveal_strlit("--sync-only");
    reveal_strlit("--asexplicit");
    reveal_strlit("--gen-config");
    reveal_strlit("--sysupgrade");
    reveal_strlit("--unrequired");
    reveal_strlit("--declarative");
    reveal_strlit("--ignoregroup");
    reveal_strlit("--noscriptlet");
    reveal_strlit("--check-config");
    reveal_strlit("--downloadonly");
    reveal_strlit("--print-format");
    reveal_strlit("--install-local");
    reveal_strlit("--noprogressbar");
    reveal_strlit("--assume-installed");
}

proof fn lemma_long_sync()
    ensures
        value_field("--sync"@) is None,
        long_action("--sync"@) == Some(Action::SetOp(Op::Sync)),
        "--sync"@.len() >= 3 && "--sync"@[0] == '-' && "--sync"@[1] == '-',
        "--sync"@[2] != 'c' || "--sync"@.len() < 8 || "--sync"@[7] != '=',
{
    lemma_flag_lengths();
    reveal_strlit("--sync");
    reveal_strlit("--arch");
    assert("--sync"@[2] != "--arch"@[2]);
    reveal_strlit("--root");
    assert("--sync"@[2] != "--root"@[2]);
}

proof fn lemma_long_remove()
    ensures
        value_field("--remove"@) is None,
        long_action("--remove"@) == Some(Action::SetOp(Op::Remove)),
        "--remove"@.len() >= 3 && "--remove"@[0] == '-' && "--remove"@[1] == '-',
        "--remove"@[2] != 'c' || "--remove"@.len() < 8 || "--remove"@[7] != '=',
{
    lemma_flag_lengths();
    reveal_strlit("--remove");
    reveal_strlit("--config");
    assert("--remove"@[2] != "--config"@[2]);
    reveal_strlit("--dbpath");
    assert("--remove"@[2] != "--dbpath"@[2]);
    reveal_strlit("--gpgdir");
    assert("--remove"@[2] != "--gpgdir"@[2]);
    reveal_strlit("--ignore");
    assert("--remove"@[2] != "--ignore"@[2]);
}

proof fn lemma_long_upgrade()
    ensures
        value_field("--upgrade"@) is None,
        long_action("--upgrade"@) == Some(Action::SetOp(Op::Upgrade)),
        "--upgrade"@.len() >= 3 && "--upgrade"@[0] == '-' && "--upgrade"@[1] == '-',
        "--upgrade"@[2] != 'c' || "--upgrade"@.len() < 8 || "--upgrade"@[7] != '=',
{
    lemma_flag_lengths();
    reveal_strlit("--upgrade");
    reveal_strlit("--hookdir");
    assert("--upgrade"@[2] != "--hookdir"@[2]);
    reveal_strlit("--logfile");
    assert("--upgrade"@[2] != "--logfile"@[2]);
}

proof fn lemma_long_query()
    ensures
        value_field("--query"@) is None,
        long_action("--query"@) == Some(Action::SetOp(Op::Query)),
        "--query"@.len() >= 3 && "--query"@[0] == '-' && "--query"@[1] == '-',
        "--query"@[2] != 'c' || "--query"@.len() < 8 || "--query"@[7] != '=',
{
    lemma_flag_lengths();
    reveal_strlit("--query");
    reveal_strlit("--color");
    assert("--query"@[2] != "--color"@[2]);
}

proof fn lemma_long_database()
    ensures
        value_field("--database"@) is None,
        long_action("--database"@) == Some(Action::SetOp(Op::Database)),
        "--database"@.len() >= 3 && "--database"@[0] == '-' && "--database"@[1] == '-',
        "--database"@[2] != 'c' || "--database"@.len() < 8 || "--database"@[7] != '=',
{
    lemma_flag_lengths();
    reveal_strlit("--database");
    reveal_strlit("--cachedir");
    assert("--database"@[2] != "--cachedir"@[2]);
}

proof fn lemma_long_files()
    ensures
        value_field("--files"@) is None,
        long_action("--files"@) == Some(Action::SetOp(Op::Files)),
        "--files"@.len() >= 3 && "--files"@[0] == '-' && "--files"@[1] == '-',
        "--files"@[2] != 'c' || "--files"@.len() < 8 || "--files"@[7] != '=',
{
    lemma_flag_lengths();
    reveal_strlit("--files");
    reveal_strlit("--color");
    assert("--files"@[2] != "--color"@[2]);
    reveal_strlit("--query");
    assert("--files"@[2] != "--query"@[2]);
}

proof fn lemma_long_check_config()
    ensures
        value_field("--check-config"@) is None,
        long_action("--check-config"@) == Some(Action::SetOp(Op::CheckConfig)),
        "--check-config"@.len() >= 3 && "--check-config"@[0] == '-' && "--check-config"@[1] == '-',
        "--check-config"@[2] != 'c' || "--check-config"@.len() < 8 || "--check-config"@[7] != '=',
{
    lemma_flag_lengths();
    reveal_strlit("--check-config");
    reveal_strlit("--print-format");
    assert("--check-config"@[2] != "--print-format"@[2]);
}

proof fn lemma_long_gen_config()
    ensures
        value_field("--gen-config"@) is None,
        long_action("--gen-config"@) == Some(Action::SetOp(Op::GenConfig)),
        "--gen-config"@.len() >= 3 && "--gen-config"@[0] == '-' && "--gen-config"@[1] == '-',
        "--gen-config"@[2] != 'c' || "--gen-config"@.len() < 8 || "--gen-config"@[7] != '=',
{
    lemma_flag_lengths();
    reveal_strlit("--gen-config");
}

proof fn lemma_long_declarative()
    ensures
        value_field("--declarative"@) is None,
        long_action("--declarative"@) == Some(Action::SetOp(Op::Declarative)),
        "--declarative"@.len() >= 3 && "--declarative"@[0] == '-' && "--declarative"@[1] == '-',
        "--declarative"@[2] != 'c' || "--declarative"@.len() < 8 || "--declarative"@[7] != '=',
{
    lemma_flag_lengths();
    reveal_strlit("--declarative");
    reveal_strlit("--ignoregroup");
    assert("--declarative"@[2] != "--ignoregroup"@[2]);
}

proof fn lemma_long_refresh()
    ensures
        value_field("--refresh"@) is None,
        long_action("--refresh"@) == Some(Action::Count(Counter::Refresh)),
        "--refresh"@.len() >= 3 && "--refresh"@[0] == '-' && "--refresh"@[1] == '-',
        "--refresh"@[2] != 'c' || "--refresh"@.len() < 8 || "--refresh"@[7] != '=',
{
    lemma_flag_lengths();
    reveal_strlit("--refresh");
    reveal_strlit("--hookdir");
    assert("--refresh"@[2] != "--hookdir"@[2]);
    reveal_strlit("--logfile");
    assert("--refresh"@[2] != "--logfile"@[2]);
    reveal_strlit("--upgrade");
    assert("--refresh"@[2] != "--upgrade"@[2]);
}

proof fn lemma_long_sysupgrade()
    ensures
        value_field("--sysupgrade"@) is None,
        long_action("--sysupgrade"@) == Some(Action::Count(Counter::Sysupgrade)),
        "--sysupgrade"@.len() >= 3 && "--sysupgrade"@[0] == '-' && "--sysupgrade"@[1] == '-',
        "--sysupgrade"@[2] != 'c' || "--sysupgrade"@.len() < 8 || "--sysupgrade"@[7] != '=',
{
    lemma_flag_lengths();
    reveal_strlit("--sysupgrade");
    reveal_strlit("--gen-config");
    assert("--sysupgrade"@[2] != "--gen-config"@[2]);
}

proof fn lemma_long_downloadonly()
    ensures
        value_field("--downloadonly"@) is None,
        long_action("--downloadonly"@) == Some(Action::Enable(Flag::Downloadonly)),
        "--downloadonly"@.len() >= 3 && "--downloadonly"@[0] == '-' && "--downloadonly"@[1] == '-',
        "--downloadonly"@[2] != 'c' || "--downloadonly"@.len() < 8 || "--downloadonly"@[7] != '=',
{
    lemma_flag_lengths();
    reveal_strlit("--downloadonly");
    reveal_strlit("--check-config");
    assert("--downloadonly"@[2] != "--check-config"@[2]);
    reveal_strlit("--print-format");
    assert("--downloadonly"@[2] != "--print-format"@[2]);
}

proof fn lemma_long_nosave()
    ensures
        value_field("--nosave"@) is None,
        long_action("--nosave"@) == Some(Action::Enable(Flag::Nosave)),
        "--nosave"@.len() >= 3 && "--nosave"@[0] == '-' && "--nosave"@[1] == '-',
        "--nosave"@[2] != 'c' || "--nosave"@.len() < 8 || "--nosave"@[7] != '=',
{
    lemma_flag_lengths();
    reveal_strlit("--nosave");
    reveal_strlit("--config");
    assert("--nosave"@[2] != "--config"@[2]);
    reveal_strlit("--dbpath");
    assert("--nosave"@[2] != "--dbpath"@[2]);
    reveal_strlit("--gpgdir");
    assert("--nosave"@[2] != "--gpgdir"@[2]);
    reveal_strlit("--ignore");
    assert("--nosave"@[2] != "--ignore"@[2]);
    reveal_strlit("--remove");
    assert("--nosave"@[2] != "--remove"@[2]);
}

proof fn lemma_long_recursive()
    ensures
        value_field("--recursive"@) is None,
        long_action("--recursive"@) == Some(Action::Count(Counter::Recursive)),
        "--recursive"@.len() >= 3 && "--recursive"@[0] == '-' && "--recursive"@[1] == '-',
        "--recursive"@[2] != 'c' || "--recursive"@.len() < 8 || "--recursive"@[7] != '=',
{
    lemma_flag_lengths();
    reveal_strlit("--recursive");
    reveal_strlit("--overwrite");
    assert("--recursive"@[2] != "--overwrite"@[2]);
}

proof fn lemma_long_cascade()
    ensures
        value_field("--cascade"@) is None,
        long_action("--cascade"@) == Some(Action::Enable(Flag::Cascade)),
        "--cascade"@.len() >= 3 && "--cascade"@[0] == '-' && "--cascade"@[1] == '-',
        "--cascade"@[2] != 'c' || "--cascade"@.len() < 8 || "--cascade"@[7] != '=',
{
    lemma_flag_lengths();
    reveal_strlit("--cascade");
    reveal_strlit("--hookdir");
    assert("--cascade"@[2] != "--hookdir"@[2]);
    reveal_strlit("--logfile");
    assert("--cascade"@[2] != "--logfile"@[2]);
    reveal_strlit("--refresh");
    assert("--cascade"@[2] != "--refresh"@[2]);
    reveal_strlit("--upgrade");
    assert("--cascade"@[2] != "--upgrade"@[2]);
}

proof fn lemma_long_unneeded()
    ensures
        value_field("--unneeded"@) is None,
        long_action("--unneeded"@) == Some(Action::Enable(Flag::Unneeded)),
        "--unneeded"@.len() >= 3 && "--unneeded"@[0] == '-' && "--unneeded"@[1] == '-',
        "--unneeded"@[2] != 'c' || "--unneeded"@.len() < 8 || "--unneeded"@[7] != '=',
{
    lemma_flag_lengths();
    reveal_strlit("--unneeded");
    reveal_strlit("--cachedir");
    assert("--unneeded"@[2] != "--cachedir"@[2]);
    reveal_strlit("--database");
    assert("--unneeded"@[2] != "--database"@[2]);
}

proof fn lemma_long_info()
    ensures
        value_field("--info"@) is None,
        long_action("--info"@) == Some(Action::Enable(Flag::QInfo)),
        "--info"@.len() >= 3 && "--info"@[0] == '-' && "--info"@[1] == '-',
        "--info"@[2] != 'c' || "--info"@.len() < 8 || "--info"@[7] != '=',
{
    lemma_flag_lengths();
    reveal_strlit("--info");
    reveal_strlit("--arch");
    assert("--info"@[2] != "--arch"@[2]);
    reveal_strlit("--root");
    assert("--info"@[2] != "--root"@[2]);
    reveal_strlit("--sync");
    assert("--info"@[2] != "--sync"@[2]);
}

proof fn lemma_long_deps()
    ensures
        value_field("--deps"@) is None,
        long_action("--deps"@) == Some(Action::Enable(Flag::QDeps)),
        "--deps"@.len() >= 3 && "--deps"@[0] == '-' && "--deps"@[1] == '-',
        "--deps"@[2] != 'c' || "--deps"@.len() < 8 || "--deps"@[7] != '=',
{
    lemma_flag_lengths();
    reveal_strlit("--deps");
    reveal_strlit("--arch");
    assert("--deps"@[2] != "--arch"@[2]);
    reveal_strlit("--info");
    assert("--deps"@[2] != "--info"@[2]);
    reveal_strlit("--root");
    assert("--deps"@[2] != "--root"@[2]);
    reveal_strlit("--sync");
    assert("--deps"@[2] != "--sync"@[2]);
}

proof fn lemma_long_explicit()
    ensures
        value_field("--explicit"@) is None,
        long_action("--explicit"@) == Some(Action::Enable(Flag::QExplicit)),
        "--explicit"@.len() >= 3 && "--explicit"@[0] == '-' && "--explicit"@[1] == '-',
        "--explicit"@[2] != 'c' || "--explicit"@.len() < 8 || "--explicit"@[7] != '=',
{
    lemma_flag_lengths();
    reveal_strlit("--explicit");
    reveal_strlit("--cachedir");
    assert("--explicit"@[2] != "--cachedir"@[2]);
    reveal_strlit("--database");
    assert("--explicit"@[2] != "--database"@[2]);
    reveal_strlit("--unneeded");
    assert("--explicit"@[2] != "--unneeded"@[2]);
}

proof fn lemma_long_unrequired()
    ensures
        value_field("--unrequired"@) is None,
        long_action("--unrequired"@) == Some(Action::Enable(Flag::QUnreq)),
        "--unrequired"@.len() >= 3 && "--unrequired"@[0] == '-' && "--unrequired"@[1] == '-',
        "--unrequired"@[2] != 'c' || "--unrequired"@.len() < 8 || "--unrequired"@[7] != '=',
{
    lemma_flag_lengths();
    reveal_strlit("--unrequired");
    reveal_strlit("--gen-config");
    assert("--unrequired"@[2] != "--gen-config"@[2]);
    reveal_strlit("--sysupgrade");
    assert("--unrequired"@[2] != "--sysupgrade"@[2]);
}

proof fn lemma_long_upgrades()
    ensures
        value_field("--upgrades"@) is None,
        long_action("--upgrades"@) == Some(Action::Enable(Flag::QUpgrades)),
        "--upgrades"@.len() >= 3 && "--upgrades"@[0] == '-' && "--upgrades"@[1] == '-',
        "--upgrades"@[2] != 'c' || "--upgrades"@.len() < 8 || "--upgrades"@[7] != '=',
{
    lemma_flag_lengths();
    reveal_strlit("--upgrades");
    reveal_strlit("--cachedir");
    assert("--upgrades"@[2] != "--cachedir"@[2]);
    reveal_strlit("--database");
    assert("--upgrades"@[2] != "--database"@[2]);
    reveal_strlit("--explicit");
    assert("--upgrades"@[2] != "--explicit"@[2]);
    reveal_strlit("--unneeded");
    assert("--upgrades"@[3] != "--unneeded"@[3]);
}

proof fn lemma_long_quiet()
    ensures
        value_field("--quiet"@) is None,
        long_action("--quiet"@) == Some(Action::Enable(Flag::QQuiet)),
        "--quiet"@.len() >= 3 && "--quiet"@[0] == '-' && "--quiet"@[1] == '-',
        "--quiet"@[2] != 'c' || "--quiet"@.len() < 8 || "--quiet"@[7] != '=',
{
    lemma_flag_lengths();
    reveal_strlit("--quiet");
    reveal_strlit("--color");
    assert("--quiet"@[2] != "--color"@[2]);
    reveal_strlit("--files");
    assert("--quiet"@[2] != "--files"@[2]);
    reveal_strlit("--query");
    assert("--quiet"@[4] != "--query"@[4]);
}

proof fn lemma_long_owns()
    ensures
        value_field("--owns"@) is None,
        long_action("--owns"@) == Some(Action::Enable(Flag::QOwns)),
        "--owns"@.len() >= 3 && "--owns"@[0] == '-' && "--owns"@[1] == '-',
        "--owns"@[2] != 'c' || "--owns"@.len() < 8 || "--owns"@[7] != '=',
{
    lemma_flag_lengths();
    reveal_strlit("--owns");
    reveal_strlit("--arch");
    assert("--owns"@[2] != "--arch"@[2]);
    reveal_strlit("--deps");
    assert("--owns"@[2] != "--deps"@[2]);
    reveal_strlit("--info");
    assert("--owns"@[2] != "--info"@[2]);
    reveal_strlit("--root");
    assert("--owns"@[2] != "--root"@[2]);
    reveal_strlit("--sync");
    assert("--owns"@[2] != "--sync"@[2]);
}

proof fn lemma_long_search()
    ensures
        value_field("--search"@) is None,
        long_action("--search"@) == Some(Action::Enable(Flag::QSearch)),
        "--search"@.len() >= 3 && "--search"@[0] == '-' && "--search"@[1] == '-',
        "--search"@[2] != 'c' || "--search"@.len() < 8 || "--search"@[7] != '=',
{
    lemma_flag_lengths();
    reveal_strlit("--search");
    reveal_strlit("--config");
    assert("--search"@[2] != "--config"@[2]);
    reveal_strlit("--dbpath");
    assert("--search"@[2] != "--dbpath"@[2]);
    reveal_strlit("--gpgdir");
    assert("--search"@[2] != "--gpgdir"@[2]);
    reveal_strlit("--ignore");
    assert("--search"@[2] != "--ignore"@[2]);
    reveal_strlit("--nosave");
    assert("--search"@[2] != "--nosave"@[2]);
    reveal_strlit("--remove");
    assert("--search"@[2] != "--remove"@[2]);
}

proof fn lemma_long_foreign()
    ensures
        value_field("--foreign"@) is None,
        long_action("--foreign"@) == Some(Action::Enable(Flag::QForeign)),
        "--foreign"@.len() >= 3 && "--foreign"@[0] == '-' && "--foreign"@[1] == '-',
        "--foreign"@[2] != 'c' || "--foreign"@.len() < 8 || "--foreign"@[7] != '=',
{
    lemma_flag_lengths();
    reveal_strlit("--foreign");
    reveal_strlit("--cascade");
    assert("--foreign"@[2] != "--cascade"@[2]);
    reveal_strlit("--hookdir");
    assert("--foreign"@[2] != "--hookdir"@[2]);
    reveal_strlit("--logfile");
    assert("--foreign"@[2] != "--logfile"@[2]);
    reveal_strlit("--refresh");
    assert("--foreign"@[2] != "--refresh"@[2]);
    reveal_strlit("--upgrade");
    assert("--foreign"@[2] != "--upgrade"@[2]);
}

proof fn lemma_long_native()
    ensures
        value_field("--native"@) is None,
        long_action("--native"@) == Some(Action::Enable(Flag::QNative)),
        "--native"@.len() >= 3 && "--native"@[0] == '-' && "--native"@[1] == '-',
        "--native"@[2] != 'c' || "--native"@.len() < 8 || "--native"@[7] != '=',
{
    lemma_flag_lengths();
    reveal_strlit("--native");
    reveal_strlit("--config");
    assert("--native"@[2] != "--config"@[2]);
    reveal_strlit("--dbpath");
    assert("--native"@[2] != "--dbpath"@[2]);
    reveal_strlit("--gpgdir");
    assert("--native"@[2] != "--gpgdir"@[2]);
    reveal_strlit("--ignore");
    assert("--native"@[2] != "--ignore"@[2]);
    reveal_strlit("--nosave");
    assert("--native"@[3] != "--nosave"@[3]);
    reveal_strlit("--remove");
    assert("--native"@[2] != "--remove"@[2]);
    reveal_strlit("--search");
    assert("--native"@[2] != "--search"@[2]);
}

proof fn lemma_long_list()
    ensures
        value_field("--list"@) is None,
        long_action("--list"@) == Some(Action::Enable(Flag::QList)),
        "--list"@.len() >= 3 && "--list"@[0] == '-' && "--list"@[1] == '-',
        "--list"@[2] != 'c' || "--list"@.len() < 8 || "--list"@[7] != '=',
{
    lemma_flag_lengths();
    reveal_strlit("--list");
    reveal_strlit("--arch");
    assert("--list"@[2] != "--arch"@[2]);
    reveal_strlit("--deps");
    assert("--list"@[2] != "--deps"@[2]);
    reveal_strlit("--info");
    assert("--list"@[2] != "--info"@[2]);
    reveal_strlit("--owns");
    assert("--list"@[2] != "--owns"@[2]);
    reveal_strlit("--root");
    assert("--list"@[2] != "--root"@[2]);
    reveal_strlit("--sync");
    assert("--list"@[2] != "--sync"@[2]);
}

proof fn lemma_long_groups()
    ensures
        value_field("--groups"@) is None,
        long_action("--groups"@) == Some(Action::Enable(Flag::QGroups)),
        "--groups"@.len() >= 3 && "--groups"@[0] == '-' && "--groups"@[1] == '-',
        "--groups"@[2] != 'c' || "--groups"@.len() < 8 || "--groups"@[7] != '=',
{
    lemma_flag_lengths();
    reveal_strlit("--groups");
    reveal_strlit("--config");
    assert("--groups"@[2] != "--config"@[2]);
    reveal_strlit("--dbpath");
    assert("--groups"@[2] != "--dbpath"@[2]);
    reveal_strlit("--gpgdir");
    assert("--groups"@[3] != "--gpgdir"@[3]);
    reveal_strlit("--ignore");
    assert("--groups"@[2] != "--ignore"@[2]);
    reveal_strlit("--native");
    assert("--groups"@[2] != "--native"@[2]);
    reveal_strlit("--nosave");
    assert("--groups"@[2] != "--nosave"@[2]);
    reveal_strlit("--remove");
    assert("--groups"@[2] != "--remove"@[2]);
    reveal_strlit("--search");
    assert("--groups"@[2] != "--search"@[2]);
}

proof fn lemma_long_changelog()
    ensures
        value_field("--changelog"@) is None,
        long_action("--changelog"@) == Some(Action::Enable(Flag::QChangelog)),
        "--changelog"@.len() >= 3 && "--changelog"@[0] == '-' && "--changelog"@[1] == '-',
        "--changelog"@[2] != 'c' || "--changelog"@.len() < 8 || "--changelog"@[7] != '=',
{
    lemma_flag_lengths();
    reveal_strlit("--changelog");
    reveal_strlit("--overwrite");
    assert("--changelog"@[2] != "--overwrite"@[2]);
    reveal_strlit("--recursive");
    assert("--changelog"@[2] != "--recursive"@[2]);
}

proof fn lemma_long_file()
    ensures
        value_field("--file"@) is None,
        long_action("--file"@) == Some(Action::Enable(Flag::QFileQuery)),
        "--file"@.len() >= 3 && "--file"@[0] == '-' && "--file"@[1] == '-',
        "--file"@[2] != 'c' || "--file"@.len() < 8 || "--file"@[7] != '=',
{
    lemma_flag_lengths();
    reveal_strlit("--file");
    reveal_strlit("--arch");
    assert("--file"@[2] != "--arch"@[2]);
    reveal_strlit("--deps");
    assert("--file"@[2] != "--deps"@[2]);
    reveal_strlit("--info");
    assert("--file"@[2] != "--info"@[2]);
    reveal_strlit("--list");
    assert("--file"@[2] != "--list"@[2]);
    reveal_strlit("--owns");
    assert("--file"@[2] != "--owns"@[2]);
    reveal_strlit("--root");
    assert("--file"@[2] != "--root"@[2]);
    reveal_strlit("--sync");
    assert("--file"@[2] != "--sync"@[2]);
}

proof fn lemma_long_noconfirm()
    ensures
        value_field("--noconfirm"@) is None,
        long_action("--noconfirm"@) == Some(Action::Enable(Flag::Noconfirm)),
        "--noconfirm"@.len() >= 3 && "--noconfirm"@[0] == '-' && "--noconfirm"@[1] == '-',
        "--noconfirm"@[2] != 'c' || "--noconfirm"@.len() < 8 || "--noconfirm"@[7] != '=',
{
    lemma_flag_lengths();
    reveal_strlit("--noconfirm");
    reveal_strlit("--changelog");
    assert("--noconfirm"@[2] != "--changelog"@[2]);
    reveal_strlit("--overwrite");
    assert("--noconfirm"@[2] != "--overwrite"@[2]);
    reveal_strlit("--recursive");
    assert("--noconfirm"@[2] != "--recursive"@[2]);
}

proof fn lemma_long_asdeps()
    ensures
        value_field("--asdeps"@) is None,
        long_action("--asdeps"@) == Some(Action::Enable(Flag::Asdeps)),
        "--asdeps"@.len() >= 3 && "--asdeps"@[0] == '-' && "--asdeps"@[1] == '-',
        "--asdeps"@[2] != 'c' || "--asdeps"@.len() < 8 || "--asdeps"@[7] != '=',
{
    lemma_flag_lengths();
    reveal_strlit("--asdeps");
    reveal_strlit("--config");
    assert("--asdeps"@[2] != "--config"@[2]);
    reveal_strlit("--dbpath");
    assert("--asdeps"@[2] != "--dbpath"@[2]);
    reveal_strlit("--gpgdir");
    assert("--asdeps"@[2] != "--gpgdir"@[2]);
    reveal_strlit("--groups");
    assert("--asdeps"@[2] != "--groups"@[2]);
    reveal_strlit("--ignore");
    assert("--asdeps"@[2] != "--ignore"@[2]);
    reveal_strlit("--native");
    assert("--asdeps"@[2] != "--native"@[2]);
    reveal_strlit("--nosave");
    assert("--asdeps"@[2] != "--nosave"@[2]);
    reveal_strlit("--remove");
    assert("--asdeps"@[2] != "--remove"@[2]);
    reveal_strlit("--search");
    assert("--asdeps"@[2] != "--search"@[2]);
}

proof fn lemma_long_asexplicit()
    ensures
        value_field("--asexplicit"@) is None,
        long_action("--asexplicit"@) == Some(Action::Enable(Flag::Asexplicit)),
        "--asexplicit"@.len() >= 3 && "--asexplicit"@[0] == '-' && "--asexplicit"@[1] == '-',
        "--asexplicit"@[2] != 'c' || "--asexplicit"@.len() < 8 || "--asexplicit"@[7] != '=',
{
    lemma_flag_lengths();
    reveal_strlit("--asexplicit");
    reveal_strlit("--gen-config");
    assert("--asexplicit"@[2] != "--gen-config"@[2]);
    reveal_strlit("--sysupgrade");
    assert("--asexplicit"@[2] != "--sysupgrade"@[2]);
    reveal_strlit("--unrequired");
    assert("--asexplicit"@[2] != "--unrequired"@[2]);
}

proof fn lemma_long_plain()
    ensures
        value_field("--plain"@) is None,
        long_action("--plain"@) == Some(Action::Enable(Flag::Plain)),
        "--plain"@.len() >= 3 && "--plain"@[0] == '-' && "--plain"@[1] == '-',
        "--plain"@[2] != 'c' || "--plain"@.len() < 8 || "--plain"@[7] != '=',
{
    lemma_flag_lengths();
    reveal_strlit("--plain");
    reveal_strlit("--color");
    assert("--plain"@[2] != "--color"@[2]);
    reveal_strlit("--files");
    assert("--plain"@[2] != "--files"@[2]);
    reveal_strlit("--query");
    assert("--plain"@[2] != "--query"@[2]);
    reveal_strlit("--quiet");
    assert("--plain"@[2] != "--quiet"@[2]);
}

proof fn lemma_long_version()
    ensures
        value_field("--version"@) is None,
        long_action("--version"@) == Some(Action::Enable(Flag::Version)),
        "--version"@.len() >= 3 && "--version"@[0] == '-' && "--version"@[1] == '-',
        "--version"@[2] != 'c' || "--version"@.len() < 8 || "--version"@[7] != '=',
{
    lemma_flag_lengths();
    reveal_strlit("--version");
    reveal_strlit("--cascade");
    assert("--version"@[2] != "--cascade"@[2]);
    reveal_strlit("--foreign");
    assert("--version"@[2] != "--foreign"@[2]);
    reveal_strlit("--hookdir");
    assert("--version"@[2] != "--hookdir"@[2]);
    reveal_strlit("--logfile");
    assert("--version"@[2] != "--logfile"@[2]);
    reveal_strlit("--refresh");
    assert("--version"@[2] != "--refresh"@[2]);
    reveal_strlit("--upgrade");
    assert("--version"@[2] != "--upgrade"@[2]);
}

proof fn lemma_long_help()
    ensures
        value_field("--help"@) is None,
        long_action("--help"@) == Some(Action::Enable(Flag::Help)),
        "--help"@.len() >= 3 && "--help"@[0] == '-' && "--help"@[1] == '-',
        "--help"@[2] != 'c' || "--help"@.len() < 8 || "--help"@[7] != '=',
{
    lemma_flag_lengths();
    reveal_strlit("--help");
    reveal_strlit("--arch");
    assert("--help"@[2] != "--arch"@[2]);
    reveal_strlit("--deps");
    assert("--help"@[2] != "--deps"@[2]);
    reveal_strlit("--file");
    assert("--help"@[2] != "--file"@[2]);
    reveal_strlit("--info");
    assert("--help"@[2] != "--info"@[2]);
    reveal_strlit("--list");
    assert("--help"@[2] != "--list"@[2]);
    reveal_strlit("--owns");
    assert("--help"@[2] != "--owns"@[2]);
    reveal_strlit("--root");
    assert("--help"@[2] != "--root"@[2]);
    reveal_strlit("--sync");
    assert("--help"@[2] != "--sync"@[2]);
}

proof fn lemma_long_needed()
    ensures
        value_field("--needed"@) is None,
        long_action("--needed"@) == Some(Action::Enable(Flag::Needed)),
        "--needed"@.len() >= 3 && "--needed"@[0] == '-' && "--needed"@[1] == '-',
        "--needed"@[2] != 'c' || "--needed"@.len() < 8 || "--needed"@[7] != '=',
{
    lemma_flag_lengths();
    reveal_strlit("--needed");
    reveal_strlit("--asdeps");
    assert("--needed"@[2] != "--asdeps"@[2]);
    reveal_strlit("--config");
    assert("--needed"@[2] != "--config"@[2]);
    reveal_strlit("--dbpath");
    assert("--needed"@[2] != "--dbpath"@[2]);
    reveal_strlit("--gpgdir");
    assert("--needed"@[2] != "--gpgdir"@[2]);
    reveal_strlit("--groups");
    assert("--needed"@[2] != "--groups"@[2]);
    reveal_strlit("--ignore");
    assert("--needed"@[2] != "--ignore"@[2]);
    reveal_strlit("--native");
    assert("--needed"@[3] != "--native"@[3]);
    reveal_strlit("--nosave");
    assert("--needed"@[3] != "--nosave"@[3]);
    reveal_strlit("--remove");
    assert("--needed"@[2] != "--remove"@[2]);
    reveal_strlit("--search");
    assert("--needed"@[2] != "--search"@[2]);
}

proof fn lemma_long_noprogressbar()
    ensures
        value_field("--noprogressbar"@) is None,
        long_action("--noprogressbar"@) == Some(Action::Enable(Flag::Noprogressbar)),
        "--noprogressbar"@.len() >= 3 && "--noprogressbar"@[0] == '-' && "--noprogressbar"@[1] == '-',
        "--noprogressbar"@[2] != 'c' || "--noprogressbar"@.len() < 8 || "--noprogressbar"@[7] != '=',
{
    lemma_flag_lengths();
    reveal_strlit("--noprogressbar");
    reveal_strlit("--install-local");
    assert("--noprogressbar"@[2] != "--install-local"@[2]);
}

proof fn lemma_long_nodeps()
    ensures
        value_field("--nodeps"@) is None,
        long_action("--nodeps"@) == Some(Action::Count(Counter::Nodeps)),
        "--nodeps"@.len() >= 3 && "--nodeps"@[0] == '-' && "--nodeps"@[1] == '-',
        "--nodeps"@[2] != 'c' || "--nodeps"@.len() < 8 || "--nodeps"@[7] != '=',
{
    lemma_flag_lengths();
    reveal_strlit("--nodeps");
    reveal_strlit("--asdeps");
    assert("--nodeps"@[2] != "--asdeps"@[2]);
    reveal_strlit("--config");
    assert("--nodeps"@[2] != "--config"@[2]);
    reveal_strlit("--dbpath");
    assert("--nodeps"@[2] != "--dbpath"@[2]);
    reveal_strlit("--gpgdir");
    assert("--nodeps"@[2] != "--gpgdir"@[2]);
    reveal_strlit("--groups");
    assert("--nodeps"@[2] != "--groups"@[2]);
    reveal_strlit("--ignore");
    assert("--nodeps"@[2] != "--ignore"@[2]);
    reveal_strlit("--native");
    assert("--nodeps"@[3] != "--native"@[3]);
    reveal_strlit("--needed");
    assert("--nodeps"@[3] != "--needed"@[3]);
    reveal_strlit("--nosave");
    assert("--nodeps"@[4] != "--nosave"@[4]);
    reveal_strlit("--remove");
    assert("--nodeps"@[2] != "--remove"@[2]);
    reveal_strlit("--search");
    assert("--nodeps"@[2] != "--search"@[2]);
}

proof fn lemma_long_dbonly()
    ensures
        value_field("--dbonly"@) is None,
        long_action("--dbonly"@) == Some(Action::Enable(Flag::Dbonly)),
        "--dbonly"@.len() >= 3 && "--dbonly"@[0] == '-' && "--dbonly"@[1] == '-',
        "--dbonly"@[2] != 'c' || "--dbonly"@.len() < 8 || "--dbonly"@[7] != '=',
{
    lemma_flag_lengths();
    reveal_strlit("--dbonly");
    reveal_strlit("--asdeps");
    assert("--dbonly"@[2] != "--asdeps"@[2]);
    reveal_strlit("--config");
    assert("--dbonly"@[2] != "--config"@[2]);
    reveal_strlit("--dbpath");
    assert("--dbonly"@[4] != "--dbpath"@[4]);
    reveal_strlit("--gpgdir");
    assert("--dbonly"@[2] != "--gpgdir"@[2]);
    reveal_strlit("--groups");
    assert("--dbonly"@[2] != "--groups"@[2]);
    reveal_strlit("--ignore");
    assert("--dbonly"@[2] != "--ignore"@[2]);
    reveal_strlit("--native");
    assert("--dbonly"@[2] != "--native"@[2]);
    reveal_strlit("--needed");
    assert("--dbonly"@[2] != "--needed"@[2]);
    reveal_strlit("--nodeps");
    assert("--dbonly"@[2] != "--nodeps"@[2]);
    reveal_strlit("--nosave");
    assert("--dbonly"@[2] != "--nosave"@[2]);
    reveal_strlit("--remove");
    assert("--dbonly"@[2] != "--remove"@[2]);
    reveal_strlit("--search");
    assert("--dbonly"@[2] != "--search"@[2]);
}

proof fn lemma_long_noscriptlet()
    ensures
        value_field("--noscriptlet"@) is None,
        long_action("--noscriptlet"@) == Some(Action::Enable(Flag::Noscriptlet)),
        "--noscriptlet"@.len() >= 3 && "--noscriptlet"@[0] == '-' && "--noscriptlet"@[1] == '-',
        "--noscriptlet"@[2] != 'c' || "--noscriptlet"@.len() < 8 || "--noscriptlet"@[7] != '=',
{
    lemma_flag_lengths();
    reveal_strlit("--noscriptlet");
    reveal_strlit("--declarative");
    assert("--noscriptlet"@[2] != "--declarative"@[2]);
    reveal_strlit("--ignoregroup");
    assert("--noscriptlet"@[2] != "--ignoregroup"@[2]);
}

proof fn lemma_long_aur_only()
    ensures
        value_field("--aur-only"@) is None,
        long_action("--aur-only"@) == Some(Action::Enable(Flag::SAurOnly)),
        "--aur-only"@.len() >= 3 && "--aur-only"@[0] == '-' && "--aur-only"@[1] == '-',
        "--aur-only"@[2] != 'c' || "--aur-only"@.len() < 8 || "--aur-only"@[7] != '=',
{
    lemma_flag_lengths();
    reveal_strlit("--aur-only");
    reveal_strlit("--cachedir");
    assert("--aur-only"@[2] != "--cachedir"@[2]);
    reveal_strlit("--database");
    assert("--aur-only"@[2] != "--database"@[2]);
    reveal_strlit("--explicit");
    assert("--aur-only"@[2] != "--explicit"@[2]);
    reveal_strlit("--unneeded");
    assert("--aur-only"@[2] != "--unneeded"@[2]);
    reveal_strlit("--upgrades");
    assert("--aur-only"@[2] != "--upgrades"@[2]);
}

proof fn lemma_long_sync_only()
    ensures
        value_field("--sync-only"@) is None,
        long_action("--sync-only"@) == Some(Action::Enable(Flag::SSyncOnly)),
        "--sync-only"@.len() >= 3 && "--sync-only"@[0] == '-' && "--sync-only"@[1] == '-',
        "--sync-only"@[2] != 'c' || "--sync-only"@.len() < 8 || "--sync-only"@[7] != '=',
{
    lemma_flag_lengths();
    reveal_strlit("--sync-only");
    reveal_strlit("--changelog");
    assert("--sync-only"@[2] != "--changelog"@[2]);
    reveal_strlit("--noconfirm");
    assert("--sync-only"@[2] != "--noconfirm"@[2]);
    reveal_strlit("--overwrite");
    assert("--sync-only"@[2] != "--overwrite"@[2]);
    reveal_strlit("--recursive");
    assert("--sync-only"@[2] != "--recursive"@[2]);
}

proof fn lemma_long_deptest()
    ensures
        value_field("--deptest"@) is None,
        long_action("--deptest"@) == Some(Action::Enable(Flag::Deptest)),
        "--deptest"@.len() >= 3 && "--deptest"@[0] == '-' && "--deptest"@[1] == '-',
        "--deptest"@[2] != 'c' || "--deptest"@.len() < 8 || "--deptest"@[7] != '=',
{
    lemma_flag_lengths();
    reveal_strlit("--deptest");
    reveal_strlit("--cascade");
    assert("--deptest"@[2] != "--cascade"@[2]);
    reveal_strlit("--foreign");
    assert("--deptest"@[2] != "--foreign"@[2]);
    reveal_strlit("--hookdir");
    assert("--deptest"@[2] != "--hookdir"@[2]);
    reveal_strlit("--logfile");
    assert("--deptest"@[2] != "--logfile"@[2]);
    reveal_strlit("--refresh");
    assert("--deptest"@[2] != "--refresh"@[2]);
    reveal_strlit("--upgrade");
    assert("--deptest"@[2] != "--upgrade"@[2]);
    reveal_strlit("--version");
    assert("--deptest"@[2] != "--version"@[2]);
}

proof fn lemma_long_print()
    ensures
        value_field("--print"@) is None,
        long_action("--print"@) == Some(Action::Enable(Flag::Print)),
        "--print"@.len() >= 3 && "--print"@[0] == '-' && "--print"@[1] == '-',
        "--print"@[2] != 'c' || "--print"@.len() < 8 || "--print"@[7] != '=',
{
    lemma_flag_lengths();
    reveal_strlit("--print");
    reveal_strlit("--color");
    assert("--print"@[2] != "--color"@[2]);
    reveal_strlit("--files");
    assert("--print"@[2] != "--files"@[2]);
    reveal_strlit("--plain");
    assert("--print"@[3] != "--plain"@[3]);
    reveal_strlit("--query");
    assert("--print"@[2] != "--query"@[2]);
    reveal_strlit("--quiet");
    assert("--print"@[2] != "--quiet"@[2]);
}

proof fn lemma_long_verbose()
    ensures
        value_field("--verbose"@) is None,
        long_action("--verbose"@) == Some(Action::Count(Counter::Verbose)),
        "--verbose"@.len() >= 3 && "--verbose"@[0] == '-' && "--verbose"@[1] == '-',
        "--verbose"@[2] != 'c' || "--verbose"@.len() < 8 || "--verbose"@[7] != '=',
{
    lemma_flag_lengths();
    reveal_strlit("--verbose");
    reveal_strlit("--cascade");
    assert("--verbose"@[2] != "--cascade"@[2]);
    reveal_strlit("--deptest");
    assert("--verbose"@[2] != "--deptest"@[2]);
    reveal_strlit("--foreign");
    assert("--verbose"@[2] != "--foreign"@[2]);
    reveal_strlit("--hookdir");
    assert("--verbose"@[2] != "--hookdir"@[2]);
    reveal_strlit("--logfile");
    assert("--verbose"@[2] != "--logfile"@[2]);
    reveal_strlit("--refresh");
    assert("--verbose"@[2] != "--refresh"@[2]);
    reveal_strlit("--upgrade");
    assert("--verbose"@[2] != "--upgrade"@[2]);
    reveal_strlit("--version");
    assert("--verbose"@[5] != "--version"@[5]);
}

proof fn lemma_long_confirm()
    ensures
        value_field("--confirm"@) is None,
        long_action("--confirm"@) == Some(Action::Enable(Flag::Confirm)),
        "--confirm"@.len() >= 3 && "--confirm"@[0] == '-' && "--confirm"@[1] == '-',
        "--confirm"@[2] != 'c' || "--confirm"@.len() < 8 || "--confirm"@[7] != '=',
{
    lemma_flag_lengths();
    reveal_strlit("--confirm");
    reveal_strlit("--cascade");
    assert("--confirm"@[3] != "--cascade"@[3]);
    reveal_strlit("--deptest");
    assert("--confirm"@[2] != "--deptest"@[2]);
    reveal_strlit("--foreign");
    assert("--confirm"@[2] != "--foreign"@[2]);
    reveal_strlit("--hookdir");
    assert("--confirm"@[2] != "--hookdir"@[2]);
    reveal_strlit("--logfile");
    assert("--confirm"@[2] != "--logfile"@[2]);
    reveal_strlit("--refresh");
    assert("--confirm"@[2] != "--refresh"@[2]);
    reveal_strlit("--upgrade");
    assert("--confirm"@[2] != "--upgrade"@[2]);
    reveal_strlit("--verbose");
    assert("--confirm"@[2] != "--verbose"@[2]);
    reveal_strlit("--version");
    assert("--confirm"@[2] != "--version"@[2]);
}

/// A long operation flag (`--sync`, `--remove`, ...) selects its operation and changes
/// nothing else; with `law_long_flag_step` this is what `parse_from` does with it.
pub proof fn law_long_operations(st: CliView)
    ensures
        long_action("--sync"@) is Some && apply_action(st, long_action("--sync"@).unwrap()) == (CliView { op: Op::Sync, ..st }),
        long_action("--remove"@) is Some && apply_action(st, long_action("--remove"@).unwrap()) == (CliView { op: Op::Remove, ..st }),
        long_action("--upgrade"@) is Some && apply_action(st, long_action("--upgrade"@).unwrap()) == (CliView { op: Op::Upgrade, ..st }),
        long_action("--query"@) is Some && apply_action(st, long_action("--query"@).unwrap()) == (CliView { op: Op::Query, ..st }),
        long_action("--database"@) is Some && apply_action(st, long_action("--database"@).unwrap()) == (CliView { op: Op::Database, ..st }),
        long_action("--files"@) is Some && apply_action(st, long_action("--files"@).unwrap()) == (CliView { op: Op::Files, ..st }),
        long_action("--check-config"@) is Some && apply_action(st, long_action("--check-config"@).unwrap()) == (CliView { op: Op::CheckConfig, ..st }),
        long_action("--gen-config"@) is Some && apply_action(st, long_action("--gen-config"@).unwrap()) == (CliView { op: Op::GenConfig, ..st }),
        long_action("--declarative"@) is Some && apply_action(st, long_action("--declarative"@).unwrap()) == (CliView { op: Op::Declarative, ..st }),
{
    lemma_long_sync();
    lemma_long_remove();
    lemma_long_upgrade();
    lemma_long_query();
    lemma_long_database();
    lemma_long_files();
    lemma_long_check_config();
    lemma_long_gen_config();
    lemma_long_declarative();
}

/// A long counting flag (`--refresh`, `--sysupgrade`, `--recursive`, `--nodeps`, `--verbose`)
/// adds one to its own counter (which wraps at 255) and changes nothing else.
pub proof fn law_long_counters(st: CliView)
    ensures
        long_action("--refresh"@) is Some && apply_action(st, long_action("--refresh"@).unwrap()) == (CliView { switches: (Switches { refresh: inc(st.switches.refresh), ..st.switches }), ..st }),
        long_action("--sysupgrade"@) is Some && apply_action(st, long_action("--sysupgrade"@).unwrap()) == (CliView { switches: (Switches { sysupgrade: inc(st.switches.sysupgrade), ..st.switches }), ..st }),
        long_action("--recursive"@) is Some && apply_action(st, long_action("--recursive"@).unwrap()) == (CliView { switches: (Switches { recursive: inc(st.switches.recursive), ..st.switches }), ..st }),
        long_action("--nodeps"@) is Some && apply_action(st, long_action("--nodeps"@).unwrap()) == (CliView { switches: (Switches { nodeps: inc(st.switches.nodeps), ..st.switches }), ..st }),
        long_action("--verbose"@) is Some && apply_action(st, long_action("--verbose"@).unwrap()) == (CliView { switches: (Switches { verbose: inc(st.switches.verbose), ..st.switches }), ..st }),
{
    lemma_long_refresh();
    lemma_long_sysupgrade();
    lemma_long_recursive();
    lemma_long_nodeps();
    lemma_long_verbose();
}

/// A long switch (`--asdeps`, `--noconfirm`, ...) turns on the switch of its own name and
/// changes nothing else: `--asdeps` sets `asdeps` and leaves `asexplicit` as it was.
pub proof fn law_long_switches(st: CliView)
    ensures
        long_action("--downloadonly"@) is Some && apply_action(st, long_action("--downloadonly"@).unwrap()) == (CliView { switches: (Switches { downloadonly: true, ..st.switches }), ..st }),
        long_action("--nosave"@) is Some && apply_action(st, long_action("--nosave"@).unwrap()) == (CliView { switches: (Switches { nosave: true, ..st.switches }), ..st }),
        long_action("--cascade"@) is Some && apply_action(st, long_action("--cascade"@).unwrap()) == (CliView { switches: (Switches { cascade: true, ..st.switches }), ..st }),
        long_action("--unneeded"@) is Some && apply_action(st, long_action("--unneeded"@).unwrap()) == (CliView { switches: (Switches { unneeded: true, ..st.switches }), ..st }),
        long_action("--info"@) is Some && apply_action(st, long_action("--info"@).unwrap()) == (CliView { switches: (Switches { q_info: true, ..st.switches }), ..st }),
        long_action("--deps"@) is Some && apply_action(st, long_action("--deps"@).unwrap()) == (CliView { switches: (Switches { q_deps: true, ..st.switches }), ..st }),
        long_action("--explicit"@) is Some && apply_action(st, long_action("--explicit"@).unwrap()) == (CliView { switches: (Switches { q_explicit: true, ..st.switches }), ..st }),
        long_action("--unrequired"@) is Some && apply_action(st, long_action("--unrequired"@).unwrap()) == (CliView { switches: (Switches { q_unreq: true, ..st.switches }), ..st }),
        long_action("--upgrades"@) is Some && apply_action(st, long_action("--upgrades"@).unwrap()) == (CliView { switches: (Switches { q_upgrades: true, ..st.switches }), ..st }),
        long_action("--quiet"@) is Some && apply_action(st, long_action("--quiet"@).unwrap()) == (CliView { switches: (Switches { q_quiet: true, ..st.switches }), ..st }),
        long_action("--owns"@) is Some && apply_action(st, long_action("--owns"@).unwrap()) == (CliView { switches: (Switches { q_owns: true, ..st.switches }), ..st }),
        long_action("--search"@) is Some && apply_action(st, long_action("--search"@).unwrap()) == (CliView { switches: (Switches { q_search: true, ..st.switches }), ..st }),
        long_action("--foreign"@) is Some && apply_action(st, long_action("--foreign"@).unwrap()) == (CliView { switches: (Switches { q_foreign: true, ..st.switches }), ..st }),
        long_action("--native"@) is Some && apply_action(st, long_action("--native"@).unwrap()) == (CliView { switches: (Switches { q_native: true, ..st.switches }), ..st }),
        long_action("--list"@) is Some && apply_action(st, long_action("--list"@).unwrap()) == (CliView { switches: (Switches { q_list: true, ..st.switches }), ..st }),
        long_action("--groups"@) is Some && apply_action(st, long_action("--groups"@).unwrap()) == (CliView { switches: (Switches { q_groups: true, ..st.switches }), ..st }),
        long_action("--changelog"@) is Some && apply_action(st, long_action("--changelog"@).unwrap()) == (CliView { switches: (Switches { q_changelog: true, ..st.switches }), ..st }),
        long_action("--file"@) is Some && apply_action(st, long_action("--file"@).unwrap()) == (CliView { switches: (Switches { q_file_query: true, ..st.switches }), ..st }),
        long_action("--noconfirm"@) is Some && apply_action(st, long_action("--noconfirm"@).unwrap()) == (CliView { switches: (Switches { noconfirm: true, ..st.switches }), ..st }),
        long_action("--asdeps"@) is Some && apply_action(st, long_action("--asdeps"@).unwrap()) == (CliView { switches: (Switches { asdeps: true, ..st.switches }), ..st }),
        long_action("--asexplicit"@) is Some && apply_action(st, long_action("--asexplicit"@).unwrap()) == (CliView { switches: (Switches { asexplicit: true, ..st.switches }), ..st }),
        long_action("--plain"@) is Some && apply_action(st, long_action("--plain"@).unwrap()) == (CliView { switches: (Switches { plain: true, ..st.switches }), ..st }),
        long_action("--version"@) is Some && apply_action(st, long_action("--version"@).unwrap()) == (CliView { switches: (Switches { version: true, ..st.switches }), ..st }),
        long_action("--help"@) is Some && apply_action(st, long_action("--help"@).unwrap()) == (CliView { switches: (Switches { help: true, ..st.switches }), ..st }),
        long_action("--needed"@) is Some && apply_action(st, long_action("--needed"@).unwrap()) == (CliView { switches: (Switches { needed: true, ..st.switches }), ..st }),
        long_action("--noprogressbar"@) is Some && apply_action(st, long_action("--noprogressbar"@).unwrap()) == (CliView { switches: (Switches { noprogressbar: true, ..st.switches }), ..st }),
        long_action("--dbonly"@) is Some && apply_action(st, long_action("--dbonly"@).unwrap()) == (CliView { switches: (Switches { dbonly: true, ..st.switches }), ..st }),
        long_action("--noscriptlet"@) is Some && apply_action(st, long_action("--noscriptlet"@).unwrap()) == (CliView { switches: (Switches { noscriptlet: true, ..st.switches }), ..st }),
        long_action("--aur-only"@) is Some && apply_action(st, long_action("--aur-only"@).unwrap()) == (CliView { switches: (Switches { s_aur_only: true, ..st.switches }), ..st }),
        long_action("--sync-only"@) is Some && apply_action(st, long_action("--sync-only"@).unwrap()) == (CliView { switches: (Switches { s_sync_only: true, ..st.switches }), ..st }),
        long_action("--deptest"@) is Some && apply_action(st, long_action("--deptest"@).unwrap()) == (CliView { switches: (Switches { deptest: true, ..st.switches }), ..st }),
        long_action("--print"@) is Some && apply_action(st, long_action("--print"@).unwrap()) == (CliView { switches: (Switches { print: true, ..st.switches }), ..st }),
        long_action("--confirm"@) is Some && apply_action(st, long_action("--confirm"@).unwrap()) == (CliView { switches: (Switches { confirm: true, ..st.switches }), ..st }),
{
    lemma_long_downloadonly();
    lemma_long_nosave();
    lemma_long_cascade();
    lemma_long_unneeded();
    lemma_long_info();
    lemma_long_deps();
    lemma_long_explicit();
    lemma_long_unrequired();
    lemma_long_upgrades();
    lemma_long_quiet();
    lemma_long_owns();
    lemma_long_search();
    lemma_long_foreign();
    lemma_long_native();
    lemma_long_list();
    lemma_long_groups();
    lemma_long_changelog();
    lemma_long_file();
    lemma_long_noconfirm();
    lemma_long_asdeps();
    lemma_long_asexplicit();
    lemma_long_plain();
    lemma_long_version();
    lemma_long_help();
    lemma_long_needed();
    lemma_long_noprogressbar();
    lemma_long_dbonly();
    lemma_long_noscriptlet();
    lemma_long_aur_only();
    lemma_long_sync_only();
    lemma_long_deptest();
    lemma_long_print();
    lemma_long_confirm();
}

/// A letter of a short-flag cluster is read by `short_action` for the operation chosen so
/// far, and the rest of the cluster goes on from the state it leaves.
pub proof fn law_short_flag_step(st: CliView, c: char, rest: Seq<char>)
    requires
        short_action(st.op, c) is Some,
    ensures
        short_flags(st, seq![c] + rest) == short_flags(apply_action(st, short_action(st.op, c).unwrap()), rest),
{
    let cs = seq![c] + rest;
    assert(cs[0] == c);
    assert(cs.drop_first() =~= rest);
}

/// What each letter of a short-flag cluster does for the operation chosen so far: `-S`
/// selects the sync operation, `-y` counts one more refresh, `-u` asks for upgrades under
/// `-Q`, unneeded packages under `-R` and a system upgrade otherwise, and so on; a letter
/// that means nothing for the operation changes nothing.
#[verifier::rlimit(100)]
pub proof fn law_short_letters(st: CliView)
    ensures
        short_action(st.op, 'S') is Some && apply_action(st, short_action(st.op, 'S').unwrap()) == (CliView { op: Op::Sync, ..st }),
        short_action(st.op, 'R') is Some && apply_action(st, short_action(st.op, 'R').unwrap()) == (CliView { op: Op::Remove, ..st }),
        short_action(st.op, 'U') is Some && apply_action(st, short_action(st.op, 'U').unwrap()) == (CliView { op: Op::Upgrade, ..st }),
        short_action(st.op, 'Q') is Some && apply_action(st, short_action(st.op, 'Q').unwrap()) == (CliView { op: Op::Query, ..st }),
        short_action(st.op, 'D') is Some && apply_action(st, short_action(st.op, 'D').unwrap()) == (CliView { op: Op::Database, ..st }),
        short_action(st.op, 'F') is Some && apply_action(st, short_action(st.op, 'F').unwrap()) == (CliView { op: Op::Files, ..st }),
        short_action(st.op, 'y') is Some && apply_action(st, short_action(st.op, 'y').unwrap()) == (CliView { switches: (Switches { refresh: inc(st.switches.refresh), ..st.switches }), ..st }),
        st.op == Op::Query ==> short_action(st.op, 'u') is Some && apply_action(st, short_action(st.op, 'u').unwrap()) == (CliView { switches: (Switches { q_upgrades: true, ..st.switches }), ..st }),
        st.op == Op::Remove ==> short_action(st.op, 'u') is Some && apply_action(st, short_action(st.op, 'u').unwrap()) == (CliView { switches: (Switches { unneeded: true, ..st.switches }), ..st }),
        st.op != Op::Query && st.op != Op::Remove ==> short_action(st.op, 'u') is Some && apply_action(st, short_action(st.op, 'u').unwrap()) == (CliView { switches: (Switches { sysupgrade: inc(st.switches.sysupgrade), ..st.switches }), ..st }),
        short_action(st.op, 'w') is Some && apply_action(st, short_action(st.op, 'w').unwrap()) == (CliView { switches: (Switches { downloadonly: true, ..st.switches }), ..st }),
        st.op == Op::Query ==> short_action(st.op, 'n') is Some && apply_action(st, short_action(st.op, 'n').unwrap()) == (CliView { switches: (Switches { q_native: true, ..st.switches }), ..st }),
        st.op != Op::Query ==> short_action(st.op, 'n') is Some && apply_action(st, short_action(st.op, 'n').unwrap()) == (CliView { switches: (Switches { nosave: true, ..st.switches }), ..st }),
        st.op == Op::Remove ==> short_action(st.op, 's') is Some && apply_action(st, short_action(st.op, 's').unwrap()) == (CliView { switches: (Switches { recursive: inc(st.switches.recursive), ..st.switches }), ..st }),
        st.op == Op::Sync ==> short_action(st.op, 's') is Some && apply_action(st, short_action(st.op, 's').unwrap()) == (CliView { switches: (Switches { s_search: true, ..st.switches }), ..st }),
        st.op == Op::Query ==> short_action(st.op, 's') is Some && apply_action(st, short_action(st.op, 's').unwrap()) == (CliView { switches: (Switches { q_search: true, ..st.switches }), ..st }),
        st.op != Op::Remove && st.op != Op::Sync && st.op != Op::Query ==> short_action(st.op, 's') is Some && apply_action(st, short_action(st.op, 's').unwrap()) == st,
        st.op == Op::Sync ==> short_action(st.op, 'i') is Some && apply_action(st, short_action(st.op, 'i').unwrap()) == (CliView { switches: (Switches { s_info: true, ..st.switches }), ..st }),
        st.op == Op::Query ==> short_action(st.op, 'i') is Some && apply_action(st, short_action(st.op, 'i').unwrap()) == (CliView { switches: (Switches { q_info: true, ..st.switches }), ..st }),
        st.op != Op::Sync && st.op != Op::Query ==> short_action(st.op, 'i') is Some && apply_action(st, short_action(st.op, 'i').unwrap()) == st,
        st.op == Op::Sync ==> short_action(st.op, 'l') is Some && apply_action(st, short_action(st.op, 'l').unwrap()) == (CliView { switches: (Switches { s_list: true, ..st.switches }), ..st }),
        st.op == Op::Query ==> short_action(st.op, 'l') is Some && apply_action(st, short_action(st.op, 'l').unwrap()) == (CliView { switches: (Switches { q_list: true, ..st.switches }), ..st }),
        st.op != Op::Sync && st.op != Op::Query ==> short_action(st.op, 'l') is Some && apply_action(st, short_action(st.op, 'l').unwrap()) == st,
        st.op == Op::Sync ==> short_action(st.op, 'c') is Some && apply_action(st, short_action(st.op, 'c').unwrap()) == (CliView { switches: (Switches { s_clean: true, ..st.switches }), ..st }),
        st.op == Op::Query ==> short_action(st.op, 'c') is Some && apply_action(st, short_action(st.op, 'c').unwrap()) == (CliView { switches: (Switches { q_changelog: true, ..st.switches }), ..st }),
        st.op == Op::Remove ==> short_action(st.op, 'c') is Some && apply_action(st, short_action(st.op, 'c').unwrap()) == (CliView { switches: (Switches { cascade: true, ..st.switches }), ..st }),
        st.op != Op::Sync && st.op != Op::Query && st.op != Op::Remove ==> short_action(st.op, 'c') is Some && apply_action(st, short_action(st.op, 'c').unwrap()) == st,
        st.op == Op::Sync ==> short_action(st.op, 'g') is Some && apply_action(st, short_action(st.op, 'g').unwrap()) == (CliView { switches: (Switches { s_groups: true, ..st.switches }), ..st }),
        st.op == Op::Query ==> short_action(st.op, 'g') is Some && apply_action(st, short_action(st.op, 'g').unwrap()) == (CliView { switches: (Switches { q_groups: true, ..st.switches }), ..st }),
        st.op != Op::Sync && st.op != Op::Query ==> short_action(st.op, 'g') is Some && apply_action(st, short_action(st.op, 'g').unwrap()) == st,
        st.op == Op::Query ==> short_action(st.op, 'd') is Some && apply_action(st, short_action(st.op, 'd').unwrap()) == (CliView { switches: (Switches { q_deps: true, ..st.switches }), ..st }),
        st.op == Op::Sync || st.op == Op::Upgrade || st.op == Op::Remove ==> short_action(st.op, 'd') is Some && apply_action(st, short_action(st.op, 'd').unwrap()) == (CliView { switches: (Switches { nodeps: inc(st.switches.nodeps), ..st.switches }), ..st }),
        st.op != Op::Query && st.op != Op::Sync && st.op != Op::Upgrade && st.op != Op::Remove ==> short_action(st.op, 'd') is Some && apply_action(st, short_action(st.op, 'd').unwrap()) == st,
        st.op == Op::Query ==> short_action(st.op, 'e') is Some && apply_action(st, short_action(st.op, 'e').unwrap()) == (CliView { switches: (Switches { q_explicit: true, ..st.switches }), ..st }),
        st.op != Op::Query ==> short_action(st.op, 'e') is Some && apply_action(st, short_action(st.op, 'e').unwrap()) == st,
        st.op == Op::Query ==> short_action(st.op, 't') is Some && apply_action(st, short_action(st.op, 't').unwrap()) == (CliView { switches: (Switches { q_unreq: true, ..st.switches }), ..st }),
        st.op != Op::Query ==> short_action(st.op, 't') is Some && apply_action(st, short_action(st.op, 't').unwrap()) == st,
        st.op == Op::Query ==> short_action(st.op, 'k') is Some && apply_action(st, short_action(st.op, 'k').unwrap()) == (CliView { switches: (Switches { q_file_check: true, ..st.switches }), ..st }),
        st.op == Op::Database ==> short_action(st.op, 'k') is Some && apply_action(st, short_action(st.op, 'k').unwrap()) == (CliView { switches: (Switches { db_check: true, ..st.switches }), ..st }),
        st.op != Op::Query && st.op != Op::Database ==> short_action(st.op, 'k') is Some && apply_action(st, short_action(st.op, 'k').unwrap()) == st,
        st.op == Op::Sync ==> short_action(st.op, 'q') is Some && apply_action(st, short_action(st.op, 'q').unwrap()) == (CliView { switches: (Switches { s_quiet: true, ..st.switches }), ..st }),
        st.op == Op::Query || st.op == Op::Database ==> short_action(st.op, 'q') is Some && apply_action(st, short_action(st.op, 'q').unwrap()) == (CliView { switches: (Switches { q_quiet: true, ..st.switches }), ..st }),
        st.op != Op::Sync && st.op != Op::Query && st.op != Op::Database ==> short_action(st.op, 'q') is Some && apply_action(st, short_action(st.op, 'q').unwrap()) == st,
        st.op == Op::Query ==> short_action(st.op, 'o') is Some && apply_action(st, short_action(st.op, 'o').unwrap()) == (CliView { switches: (Switches { q_owns: true, ..st.switches }), ..st }),
        st.op != Op::Query ==> short_action(st.op, 'o') is Some && apply_action(st, short_action(st.op, 'o').unwrap()) == st,
        st.op == Op::Query ==> short_action(st.op, 'm') is Some && apply_action(st, short_action(st.op, 'm').unwrap()) == (CliView { switches: (Switches { q_foreign: true, ..st.switches }), ..st }),
        st.op != Op::Query ==> short_action(st.op, 'm') is Some && apply_action(st, short_action(st.op, 'm').unwrap()) == st,
        st.op == Op::Query ==> short_action(st.op, 'p') is Some && apply_action(st, short_action(st.op, 'p').unwrap()) == (CliView { switches: (Switches { q_file_query: true, ..st.switches }), ..st }),
        st.op != Op::Query ==> short_action(st.op, 'p') is Some && apply_action(st, short_action(st.op, 'p').unwrap()) == (CliView { switches: (Switches { print: true, ..st.switches }), ..st }),
        short_action(st.op, 'v') is Some && apply_action(st, short_action(st.op, 'v').unwrap()) == (CliView { switches: (Switches { verbose: inc(st.switches.verbose), ..st.switches }), ..st }),
        short_action(st.op, 'V') is Some && apply_action(st, short_action(st.op, 'V').unwrap()) == (CliView { switches: (Switches { version: true, ..st.switches }), ..st }),
        short_action(st.op, 'h') is Some && apply_action(st, short_action(st.op, 'h').unwrap()) == (CliView { switches: (Switches { help: true, ..st.switches }), ..st }),
        short_action(st.op, 'T') is Some && apply_action(st, short_action(st.op, 'T').unwrap()) == (CliView { switches: (Switches { deptest: true, ..st.switches }), ..st }),
{
}

} // verus!
