use vstd::prelude::*;
use vstd::string::*;
use crate::text::{
    lower_text, parse_unsigned, parse_unsigned_seq, replace, replace_seq, split_whitespace,
    split_ws_seq, strip_prefix, strip_prefix_seq, to_lowercase, trim, trim_seq, trim_start,
    trim_start_seq, views, chars_of, str_eq,
};

verus! {

/// The value of a `key = value` line of `pacman.conf`: the line starts with `key`, then
/// optional white space, `=`, and the value, which is trimmed.
pub open spec fn conf_value_seq(line: Seq<char>, key: Seq<char>) -> Option<Seq<char>> {
    match strip_prefix_seq(line, key) {
        None => None,
        Some(rest) => match strip_prefix_seq(trim_start_seq(rest), "="@) {
            None => None,
            Some(v) => Some(trim_seq(v)),
        },
    }
}

/// The value of `key` on `line`, when the line sets it.
pub fn conf_value(line: &str, key: &str) -> (r: Option<String>)
    ensures
        match conf_value_seq(line@, key@) {
            Some(v) => r matches Some(s) && s@ == v,
            None => r is None,
        },
{
    match strip_prefix(line, key) {
        None => None,
        Some(rest) => {
            let rest = trim_start(rest.as_str());
            match strip_prefix(rest.as_str(), "=") {
                None => None,
                Some(v) => Some(trim(v.as_str())),
            }
        },
    }
}

/// The name of a section header `[name]` (the line already trimmed).
pub open spec fn section_name(t: Seq<char>) -> Option<Seq<char>> {
    if t.len() >= 2 && t[0] == '[' && t.last() == ']' {
        Some(t.subrange(1, t.len() - 1))
    } else {
        None
    }
}

/// The section header name of `t`, if `t` is one.
fn section_name_exec(t: &Vec<char>) -> (r: Option<String>)
    ensures
        match section_name(t@) {
            Some(n) => r matches Some(s) && s@ == n,
            None => r is None,
        },
{
    let n = t.len();
    if n >= 2 && t[0] == '[' && t[n - 1] == ']' {
        Some(crate::text::slice_string(t, 1, n - 1))
    } else {
        None
    }
}

/// A line that says nothing: empty, or a comment (the line already trimmed).
pub open spec fn is_blank_or_comment(t: Seq<char>) -> bool {
    t.len() == 0 || t[0] == '#'
}

/// Whether the first `n` lines leave the reader inside the `[options]` section.
pub open spec fn in_options_after(lines: Seq<Seq<char>>, n: int) -> bool
    decreases n,
{
    if n <= 0 {
        false
    } else {
        match section_name(trim_seq(lines[n - 1])) {
            Some(name) => name == "options"@,
            None => in_options_after(lines, n - 1),
        }
    }
}

/// The values that the first `n` lines give to `key` inside `[options]`: each value is
/// split at white space, and repeated lines add up.
pub open spec fn option_list_upto(lines: Seq<Seq<char>>, key: Seq<char>, n: int) -> Seq<Seq<char>>
    decreases n,
{
    if n <= 0 {
        seq![]
    } else {
        let prev = option_list_upto(lines, key, n - 1);
        let t = trim_seq(lines[n - 1]);
        if section_name(t) is Some || !in_options_after(lines, n - 1) || is_blank_or_comment(t) {
            prev
        } else {
            match conf_value_seq(t, key) {
                Some(v) => prev + split_ws_seq(v),
                None => prev,
            }
        }
    }
}

/// A list option of `[options]` (such as `IgnorePkg`), over all its lines.
pub open spec fn option_list(lines: Seq<Seq<char>>, key: Seq<char>) -> Seq<Seq<char>> {
    option_list_upto(lines, key, lines.len() as int)
}

/// Collects the values of the list option `key` of the `[options]` section.
pub fn collect_option_list(lines: &Vec<String>, key: &str) -> (r: Vec<String>)
    ensures
        views(r@) == option_list(views(lines@), key@),
{
    let ghost ls = views(lines@);
    let mut out: Vec<String> = Vec::new();
    let mut in_options = false;
    let mut i: usize = 0;
    while i < lines.len()
        invariant
            i <= lines.len(),
            ls == views(lines@),
            in_options == in_options_after(ls, i as int),
            views(out@) == option_list_upto(ls, key@, i as int),
        decreases lines.len() - i,
    {
        assert(ls[i as int] == lines@[i as int]@);
        let t = trim(lines[i].as_str());
        let tv = chars_of(t.as_str());
        match section_name_exec(&tv) {
            Some(name) => {
                in_options = str_eq(name.as_str(), "options");
            },
            None => {
                if in_options && tv.len() > 0 && tv[0] != '#' {
                    match conf_value(t.as_str(), key) {
                        Some(v) => {
                            let words = split_whitespace(v.as_str());
                            let ghost before = views(out@);
                            let mut k: usize = 0;
                            while k < words.len()
                                invariant
                                    k <= words.len(),
                                    views(out@) == before + views(words@).take(k as int),
                                decreases words.len() - k,
                            {
                                let w = words[k].clone();
                                let ghost prev = out@;
                                out.push(w);
                                assert(views(out@) == views(prev).push(w@));
                                assert(views(words@).take(k + 1) == views(words@).take(k as int).push(
                                    words@[k as int]@,
                                ));
                                assert(views(out@) == before + views(words@).take(k + 1));
                                k = k + 1;
                            }
                            assert(views(words@).take(k as int) == views(words@));
                        },
                        None => {},
                    }
                }
            },
        }
        i = i + 1;
    }
    out
}

/// The value that the first line setting `key` gives it, over lines `i..` (the lines are
/// not trimmed: a line setting it starts with the key).
pub open spec fn first_value_from(lines: Seq<Seq<char>>, key: Seq<char>, i: int) -> Option<Seq<char>>
    decreases lines.len() - i,
{
    if i < 0 || i >= lines.len() {
        None
    } else {
        match conf_value_seq(lines[i], key) {
            Some(v) => Some(v),
            None => first_value_from(lines, key, i + 1),
        }
    }
}

/// The value of the first line anywhere in the file that sets `key`.
pub open spec fn first_value(lines: Seq<Seq<char>>, key: Seq<char>) -> Option<Seq<char>> {
    first_value_from(lines, key, 0)
}

/// Finds the value of the first line that sets `key`.
pub fn find_first_value(lines: &Vec<String>, key: &str) -> (r: Option<String>)
    ensures
        match first_value(views(lines@), key@) {
            Some(v) => r matches Some(s) && s@ == v,
            None => r is None,
        },
{
    let ghost ls = views(lines@);
    let mut i: usize = 0;
    while i < lines.len()
        invariant
            i <= lines.len(),
            ls == views(lines@),
            first_value(ls, key@) == first_value_from(ls, key@, i as int),
        decreases lines.len() - i,
    {
        assert(ls[i as int] == lines@[i as int]@);
        match conf_value(lines[i].as_str(), key) {
            Some(v) => {
                return Some(v);
            },
            None => {},
        }
        i = i + 1;
    }
    None
}

/// A line of a repository section (or of a file it includes) that matters.
pub enum ConfEntry {
    /// `Server = url`.
    Server(String),
    /// `Include = path`.
    Include(String),
}

/// An entry as a value: `(true, url)` for a server, `(false, path)` for an include.
pub open spec fn entry_view(e: ConfEntry) -> (bool, Seq<char>) {
    match e {
        ConfEntry::Server(u) => (true, u@),
        ConfEntry::Include(p) => (false, p@),
    }
}

/// The server and include lines from line `i` on. Where `stop_at_section`, the next line
/// that starts with `[` ends the section; in an included file nothing ends it.
pub open spec fn entries_from(lines: Seq<Seq<char>>, i: int, stop_at_section: bool) -> Seq<(bool, Seq<char>)>
    decreases lines.len() - i,
{
    if i < 0 || i >= lines.len() {
        seq![]
    } else {
        let t = trim_seq(lines[i]);
        let rest = entries_from(lines, i + 1, stop_at_section);
        if stop_at_section && t.len() > 0 && t[0] == '[' {
            seq![]
        } else if is_blank_or_comment(t) {
            rest
        } else {
            match conf_value_seq(t, "Server"@) {
                Some(u) => seq![(true, u)] + rest,
                None => match conf_value_seq(t, "Include"@) {
                    Some(p) => seq![(false, p)] + rest,
                    None => rest,
                },
            }
        }
    }
}

/// The server and include lines of a section that starts at line `start`, or of an included
/// file (`stop_at_section` false, `start` 0).
pub fn section_entries(lines: &Vec<String>, start: usize, stop_at_section: bool) -> (r: Vec<ConfEntry>)
    ensures
        r@.map_values(|e: ConfEntry| entry_view(e)) == entries_from(views(lines@), start as int, stop_at_section),
{
    let ghost ls = views(lines@);
    let mut out: Vec<ConfEntry> = Vec::new();
    let mut i: usize = start;
    while i < lines.len()
        invariant
            ls == views(lines@),
            out@.map_values(|e: ConfEntry| entry_view(e)) + entries_from(ls, i as int, stop_at_section)
                == entries_from(ls, start as int, stop_at_section),
        decreases lines.len() - i,
    {
        assert(ls[i as int] == lines@[i as int]@);
        let ghost before = out@.map_values(|e: ConfEntry| entry_view(e));
        let t = trim(lines[i].as_str());
        let tv = chars_of(t.as_str());
        if stop_at_section && tv.len() > 0 && tv[0] == '[' {
            assert(before + entries_from(ls, i as int, stop_at_section) == before);
            return out;
        }
        if tv.len() > 0 && tv[0] != '#' {
            match conf_value(t.as_str(), "Server") {
                Some(u) => {
                    out.push(ConfEntry::Server(u));
                    assert(out@.map_values(|e: ConfEntry| entry_view(e)) == before.push(
                        entry_view(out@.last()),
                    ));
                },
                None => match conf_value(t.as_str(), "Include") {
                    Some(p) => {
                        out.push(ConfEntry::Include(p));
                        assert(out@.map_values(|e: ConfEntry| entry_view(e)) == before.push(
                            entry_view(out@.last()),
                        ));
                    },
                    None => {},
                },
            }
        }
        i = i + 1;
    }
    assert(entries_from(ls, i as int, stop_at_section) == Seq::<(bool, Seq<char>)>::empty());
    out
}

/// A server line's URL with `$repo` and `$arch` filled in.
pub open spec fn expand_server_seq(url: Seq<char>, repo: Seq<char>, arch: Seq<char>) -> Seq<char> {
    replace_seq(replace_seq(url, "$repo"@, repo), "$arch"@, arch)
}

/// Fills `$repo` and `$arch` into a server URL.
pub fn expand_server(url: &str, repo: &str, arch: &str) -> (r: String)
    ensures
        r@ == expand_server_seq(url@, repo@, arch@),
{
    proof {
        reveal_strlit("$repo");
        reveal_strlit("$arch");
    }
    let a = replace(url, "$repo", repo);
    replace(a.as_str(), "$arch", arch)
}

/// The repository sections up to line `n`: each header `[name]` other than `[options]`,
/// with the index of the line after it.
pub open spec fn repos_upto(lines: Seq<Seq<char>>, n: int) -> Seq<(Seq<char>, int)>
    decreases n,
{
    if n <= 0 {
        seq![]
    } else {
        let prev = repos_upto(lines, n - 1);
        match section_name(trim_seq(lines[n - 1])) {
            Some(name) => if name == "options"@ {
                prev
            } else {
                prev.push((name, n))
            },
            None => prev,
        }
    }
}

/// A repository section of `pacman.conf`.
pub struct RepoSection {
    pub name: String,
    /// Index of the line after the header.
    pub first_line: usize,
}

/// What `pacman.conf` sets that the package manager applies.
pub struct PacmanOptions {
    pub ignore_pkg: Vec<String>,
    pub ignore_group: Vec<String>,
    pub no_upgrade: Vec<String>,
    pub no_extract: Vec<String>,
    /// `ParallelDownloads`, when its first line holds a number that fits.
    pub parallel_downloads: Option<u32>,
    /// `CheckSpace`, when set: whether its value is `yes` in any case.
    pub check_space: Option<bool>,
    /// `DisableDownloadTimeout`, when set: whether its value is `yes` in any case.
    pub disable_download_timeout: Option<bool>,
    /// Whether the first `SigLevel` line says `none` in any case.
    pub siglevel_none: bool,
    pub repos: Vec<RepoSection>,
}

/// A yes/no setting: `yes` in any case is yes.
pub open spec fn yes_setting(v: Option<Seq<char>>) -> Option<bool> {
    match v {
        Some(x) => Some(lower_text(x) == "yes"@),
        None => None,
    }
}

/// `ParallelDownloads`: the first value, read as a `u32`.
pub open spec fn parallel_setting(v: Option<Seq<char>>) -> Option<nat> {
    match v {
        Some(x) => parse_unsigned_seq(x, 10, u32::MAX as nat),
        None => None,
    }
}

/// `SigLevel`: whether the first value is `none` in any case.
pub open spec fn siglevel_none_setting(v: Option<Seq<char>>) -> bool {
    match v {
        Some(x) => lower_text(x) == "none"@,
        None => false,
    }
}

impl PacmanOptions {
    /// The settings as read from the lines `lines`.
    pub open spec fn read_from(&self, lines: Seq<Seq<char>>) -> bool {
        &&& views(self.ignore_pkg@) == option_list(lines, "IgnorePkg"@)
        &&& views(self.ignore_group@) == option_list(lines, "IgnoreGroup"@)
        &&& views(self.no_upgrade@) == option_list(lines, "NoUpgrade"@)
        &&& views(self.no_extract@) == option_list(lines, "NoExtract"@)
        &&& match parallel_setting(first_value(lines, "ParallelDownloads"@)) {
            Some(n) => self.parallel_downloads == Some(n as u32),
            None => self.parallel_downloads is None,
        }
        &&& self.check_space == yes_setting(first_value(lines, "CheckSpace"@))
        &&& self.disable_download_timeout == yes_setting(first_value(lines, "DisableDownloadTimeout"@))
        &&& self.siglevel_none == siglevel_none_setting(first_value(lines, "SigLevel"@))
        &&& self.repos@.map_values(|r: RepoSection| (r.name@, r.first_line as int)) == repos_upto(
            lines,
            lines.len() as int,
        )
    }
}

/// Whether the optional value, lowercased, is `word`.
fn lower_is(v: &Option<String>, word: &str) -> (r: Option<bool>)
    ensures
        match v {
            Some(x) => r == Some(lower_text(x@) == word@),
            None => r is None,
        },
{
    match v {
        Some(x) => {
            let l = to_lowercase(x.as_str());
            Some(str_eq(l.as_str(), word))
        },
        None => None,
    }
}

/// The repository sections of the file, in order.
pub fn repo_sections(lines: &Vec<String>) -> (r: Vec<RepoSection>)
    ensures
        r@.map_values(|r: RepoSection| (r.name@, r.first_line as int)) == repos_upto(
            views(lines@),
            lines.len() as int,
        ),
{
    let ghost ls = views(lines@);
    let mut out: Vec<RepoSection> = Vec::new();
    let mut i: usize = 0;
    while i < lines.len()
        invariant
            i <= lines.len(),
            ls == views(lines@),
            out@.map_values(|r: RepoSection| (r.name@, r.first_line as int)) == repos_upto(ls, i as int),
        decreases lines.len() - i,
    {
        assert(ls[i as int] == lines@[i as int]@);
        let t = trim(lines[i].as_str());
        let tv = chars_of(t.as_str());
        match section_name_exec(&tv) {
            Some(name) => {
                if !str_eq(name.as_str(), "options") {
                    let ghost prev = out@;
                    out.push(RepoSection { name, first_line: i + 1 });
                    assert(out@.map_values(|r: RepoSection| (r.name@, r.first_line as int))
                        == prev.map_values(|r: RepoSection| (r.name@, r.first_line as int)).push(
                        (out@.last().name@, out@.last().first_line as int),
                    ));
                }
            },
            None => {},
        }
        i = i + 1;
    }
    out
}

/// Reads the settings of `pacman.conf` (given as its lines) that the package manager applies.
pub fn read_pacman_conf(lines: &Vec<String>) -> (r: PacmanOptions)
    ensures
        r.read_from(views(lines@)),
{
    let parallel = match find_first_value(lines, "ParallelDownloads") {
        Some(v) => {
            let cs = chars_of(v.as_str());
            match parse_unsigned(&cs, 10, 4294967295) {
                Some(n) => Some(n as u32),
                None => None,
            }
        },
        None => None,
    };
    let check_space = lower_is(&find_first_value(lines, "CheckSpace"), "yes");
    let timeout = lower_is(&find_first_value(lines, "DisableDownloadTimeout"), "yes");
    let sig = match lower_is(&find_first_value(lines, "SigLevel"), "none") {
        Some(b) => b,
        None => false,
    };
    PacmanOptions {
        ignore_pkg: collect_option_list(lines, "IgnorePkg"),
        ignore_group: collect_option_list(lines, "IgnoreGroup"),
        no_upgrade: collect_option_list(lines, "NoUpgrade"),
        no_extract: collect_option_list(lines, "NoExtract"),
        parallel_downloads: parallel,
        check_space,
        disable_download_timeout: timeout,
        siglevel_none: sig,
        repos: repo_sections(lines),
    }
}

/// How deep `Include` lines are followed into included files.
pub const MAX_INCLUDE_DEPTH: u8 = 10;

/// A file being read for servers: its entries as values, the index of the next one, and
/// how many `Include`s deep it lies.
pub type FrameView = (Seq<(bool, Seq<char>)>, int, nat);

/// What one step of collecting servers asks for.
pub enum WalkStep {
    /// Keep stepping.
    Continue,
    /// Read the file that this `Include` value names and hand its lines to `feed`
    /// (or nothing, when it cannot be read).
    Include(String),
    /// Every server has been collected.
    Done,
}

/// A step as a value: `None` when done, `Some(None)` to keep stepping, `Some(Some(p))` for
/// an include to read.
pub open spec fn step_view(s: WalkStep) -> Option<Option<Seq<char>>> {
    match s {
        WalkStep::Continue => Some(None),
        WalkStep::Include(p) => Some(Some(p@)),
        WalkStep::Done => None,
    }
}

/// One step of collecting the servers of a section, with `fr` the files being read (the
/// innermost last) and `sv` the servers found so far: the next entry of the innermost file
/// is taken; a server is added with `$repo` and `$arch` filled in; an include is asked for
/// when it lies no deeper than `MAX_INCLUDE_DEPTH`, and skipped otherwise; a file with no
/// entry left is closed.
pub open spec fn walk_step(fr: Seq<FrameView>, sv: Seq<Seq<char>>, repo: Seq<char>, arch: Seq<char>) -> (
    Seq<FrameView>,
    Seq<Seq<char>>,
    Option<Option<Seq<char>>>,
) {
    if fr.len() == 0 {
        (fr, sv, None)
    } else {
        let k = fr.len() - 1;
        let es = fr[k].0;
        let n = fr[k].1;
        let d = fr[k].2;
        if n < 0 || n >= es.len() {
            (fr.drop_last(), sv, Some(None))
        } else {
            let fr2 = fr.update(k, (es, n + 1, d));
            if es[n].0 {
                (fr2, sv.push(expand_server_seq(es[n].1, repo, arch)), Some(None))
            } else if d + 1 <= MAX_INCLUDE_DEPTH {
                (fr2, sv, Some(Some(es[n].1)))
            } else {
                (fr2, sv, Some(None))
            }
        }
    }
}

/// The frames after the lines of an included file are handed in: read as a file one level
/// below the innermost one, when that level is allowed.
pub open spec fn walk_feed(fr: Seq<FrameView>, lines: Seq<Seq<char>>) -> Seq<FrameView> {
    if fr.len() > 0 && fr.last().2 < MAX_INCLUDE_DEPTH {
        fr.push((entries_from(lines, 0, false), 0, (fr.last().2 + 1) as nat))
    } else {
        fr
    }
}

/// Collecting the servers of a repository section, following `Include` lines into the files
/// they name; the reading of those files is left to the caller.
pub struct ServerWalk {
    servers: Vec<String>,
    entries: Vec<Vec<ConfEntry>>,
    next: Vec<usize>,
    depth: Vec<u8>,
}

impl ServerWalk {
    /// The servers found so far.
    pub closed spec fn found(&self) -> Seq<Seq<char>> {
        views(self.servers@)
    }

    /// The servers found, once the walk is done.
    pub fn into_servers(self) -> (r: Vec<String>)
        ensures
            views(r@) == self.found(),
    {
        self.servers
    }

    /// The files being read, innermost last.
    pub closed spec fn frames(&self) -> Seq<FrameView> {
        Seq::new(
            self.next@.len(),
            |k: int|
                (
                    self.entries@[k]@.map_values(|e: ConfEntry| entry_view(e)),
                    self.next@[k] as int,
                    self.depth@[k] as nat,
                ),
        )
    }

    /// The three stacks have one entry per file.
    pub closed spec fn wf(&self) -> bool {
        &&& self.entries@.len() == self.next@.len()
        &&& self.depth@.len() == self.next@.len()
    }

    /// Starts with the section whose entries begin at line `start` of `pacman.conf` (the
    /// line after its header).
    pub fn new(lines: &Vec<String>, start: usize) -> (r: Self)
        ensures
            r.wf(),
            r.found() == Seq::<Seq<char>>::empty(),
            r.frames() == seq![(entries_from(views(lines@), start as int, true), 0int, 0nat)],
    {
        let es = section_entries(lines, start, true);
        let r = ServerWalk { servers: Vec::new(), entries: vec![es], next: vec![0], depth: vec![0] };
        assert(r.frames() =~= seq![(entries_from(views(lines@), start as int, true), 0int, 0nat)]);
        r
    }

    /// Takes one step (see `walk_step`).
    pub fn step(&mut self, repo: &str, arch: &str) -> (s: WalkStep)
        requires
            old(self).wf(),
        ensures
            final(self).wf(),
            (final(self).frames(), final(self).found(), step_view(s)) == walk_step(
                old(self).frames(),
                old(self).found(),
                repo@,
                arch@,
            ),
    {
        let ghost fr = self.frames();
        let ghost sv = views(self.servers@);
        let len = self.next.len();
        if len == 0 {
            return WalkStep::Done;
        }
        let k = len - 1;
        let n = self.next[k];
        assert(fr[k as int].1 == n as int);
        if n >= self.entries[k].len() {
            self.entries.pop();
            self.next.pop();
            self.depth.pop();
            assert(self.frames() =~= fr.drop_last()) by {
                assert forall|j: int| 0 <= j < self.frames().len() implies self.frames()[j] == fr.drop_last()[j] by {
                    assert(self.entries@[j] == old(self).entries@[j]);
                }
            }
            return WalkStep::Continue;
        }
        let d = self.depth[k];
        self.next.set(k, n + 1);
        let ghost es = fr[k as int].0;
        assert(self.frames() =~= fr.update(k as int, (es, n + 1, d as nat)));
        assert(es[n as int] == entry_view(self.entries@[k as int]@[n as int]));
        match &self.entries[k][n] {
            ConfEntry::Server(u) => {
                let url = expand_server(u.as_str(), repo, arch);
                self.servers.push(url);
                assert(views(self.servers@) == sv.push(url@));
                WalkStep::Continue
            },
            ConfEntry::Include(p) => {
                if d < MAX_INCLUDE_DEPTH {
                    WalkStep::Include(p.clone())
                } else {
                    WalkStep::Continue
                }
            },
        }
    }

    /// Hands in the lines of the file that the last `Include` step asked for.
    pub fn feed(&mut self, lines: &Vec<String>)
        requires
            old(self).wf(),
        ensures
            final(self).wf(),
            final(self).frames() == walk_feed(old(self).frames(), views(lines@)),
            final(self).found() == old(self).found(),
    {
        let ghost fr = self.frames();
        let len = self.next.len();
        if len > 0 && self.depth[len - 1] < MAX_INCLUDE_DEPTH {
            let d = self.depth[len - 1] + 1;
            let es = section_entries(lines, 0, false);
            self.entries.push(es);
            self.next.push(0);
            self.depth.push(d);
            assert(self.frames() =~= fr.push((entries_from(views(lines@), 0, false), 0, d as nat)));
        }
    }
}

} // verus!
