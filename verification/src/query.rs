use vstd::prelude::*;
use vstd::string::*;
use crate::cli::Switches;
use crate::config::ResolvedConfig;
use crate::render::{human_size, BOLD, DIM, GREEN, MAUVE, RED, RST, SUBTEXT1, SURFACE2, TEXT, YELLOW};
use crate::size::human_size_seq;
use crate::text::{
    contains, contains_seq, dec_int_seq, dec_seq, decimal, decimal_signed, join, join_seq, lower_text,
    pad_seq, push_padded, str_eq, to_lowercase, trim_start_char, trim_start_char_seq, views,
};

verus! {

/// What `-Q` shows.
#[derive(Clone, Copy, PartialEq, Eq, Structural, Debug)]
pub struct QueryOpts {
    pub info: bool,
    pub deps: bool,
    pub explicit: bool,
    pub unrequired: bool,
    pub upgrades: bool,
    pub file_check: bool,
    pub foreign: bool,
    pub native: bool,
    pub list: bool,
    pub groups: bool,
    pub changelog: bool,
    pub quiet: bool,
}

impl QueryOpts {
    /// The query options that the command line asks for.
    pub fn from_switches(sw: &Switches) -> (o: QueryOpts)
        ensures
            o == (QueryOpts {
                info: sw.q_info,
                deps: sw.q_deps,
                explicit: sw.q_explicit,
                unrequired: sw.q_unreq,
                upgrades: sw.q_upgrades,
                file_check: sw.q_file_check,
                foreign: sw.q_foreign,
                native: sw.q_native,
                list: sw.q_list,
                groups: sw.q_groups,
                changelog: sw.q_changelog,
                quiet: sw.q_quiet,
            }),
    {
        QueryOpts {
            info: sw.q_info,
            deps: sw.q_deps,
            explicit: sw.q_explicit,
            unrequired: sw.q_unreq,
            upgrades: sw.q_upgrades,
            file_check: sw.q_file_check,
            foreign: sw.q_foreign,
            native: sw.q_native,
            list: sw.q_list,
            groups: sw.q_groups,
            changelog: sw.q_changelog,
            quiet: sw.q_quiet,
        }
    }
}

/// What `-Q` does for each package; the first option asked for, in this order, decides.
#[derive(Clone, Copy, PartialEq, Eq, Structural, Debug)]
pub enum QueryMode {
    FileCheck,
    Upgrades,
    Foreign,
    Native,
    List,
    Groups,
    Changelog,
    /// The package line, or its details with `-i`, when the filters let it through.
    Listing,
}

/// Chooses what `-Q` does for each package.
pub fn query_mode(o: &QueryOpts) -> (m: QueryMode)
    ensures
        m == (if o.file_check {
            QueryMode::FileCheck
        } else if o.upgrades {
            QueryMode::Upgrades
        } else if o.foreign {
            QueryMode::Foreign
        } else if o.native {
            QueryMode::Native
        } else if o.list {
            QueryMode::List
        } else if o.groups {
            QueryMode::Groups
        } else if o.changelog {
            QueryMode::Changelog
        } else {
            QueryMode::Listing
        }),
{
    if o.file_check {
        QueryMode::FileCheck
    } else if o.upgrades {
        QueryMode::Upgrades
    } else if o.foreign {
        QueryMode::Foreign
    } else if o.native {
        QueryMode::Native
    } else if o.list {
        QueryMode::List
    } else if o.groups {
        QueryMode::Groups
    } else if o.changelog {
        QueryMode::Changelog
    } else {
        QueryMode::Listing
    }
}

/// Whether a package is listed in `mode` as far as its origin goes: `-Qm` lists packages
/// that no sync database holds, `-Qn` those that one holds; other modes do not look.
pub open spec fn origin_listed_spec(mode: QueryMode, in_sync_db: bool) -> bool {
    match mode {
        QueryMode::Foreign => !in_sync_db,
        QueryMode::Native => in_sync_db,
        _ => true,
    }
}

/// Whether a package, held by some sync database or by none, is listed in `mode`.
pub fn origin_listed(mode: QueryMode, in_sync_db: bool) -> (b: bool)
    ensures
        b == origin_listed_spec(mode, in_sync_db),
{
    match mode {
        QueryMode::Foreign => !in_sync_db,
        QueryMode::Native => in_sync_db,
        _ => true,
    }
}

/// `-Qm` and `-Qn` split the installed packages: each is listed by exactly one of them.
pub proof fn law_origin_partition(in_sync_db: bool)
    ensures
        origin_listed_spec(QueryMode::Foreign, in_sync_db) != origin_listed_spec(QueryMode::Native, in_sync_db),
{
}

/// Whether a package passes `-d` (installed as a dependency), `-e` (explicitly) and `-t`
/// (required by nothing).
pub fn passes_filters(o: &QueryOpts, as_dependency: bool, required_by_none: bool) -> (b: bool)
    ensures
        b == (!(o.deps && !as_dependency) && !(o.explicit && as_dependency) && !(o.unrequired
            && !required_by_none)),
{
    !(o.deps && !as_dependency) && !(o.explicit && as_dependency) && !(o.unrequired && !required_by_none)
}

/// A package as a name and version: `name version`, the name padded to 30 columns.
pub open spec fn name_version_seq(name: Seq<char>, ver: Seq<char>, quiet: bool, plain: bool) -> Seq<char> {
    if quiet {
        name
    } else if plain {
        "  "@ + pad_seq(name, 30) + " "@ + ver
    } else {
        "  "@ + TEXT@ + pad_seq(name, 30) + RST@ + " "@ + DIM@ + ver + RST@
    }
}

/// The line of a foreign or native package (`-Qm`, `-Qn`), or of a repository listing.
pub fn name_version_line(name: &str, ver: &str, quiet: bool, cfg: &ResolvedConfig) -> (r: String)
    ensures
        r@ == name_version_seq(name@, ver@, quiet, cfg.plain),
{
    if quiet {
        return String::from_str(name);
    }
    let mut r = String::from_str("  ");
    if !cfg.plain {
        r.append(TEXT);
    }
    push_padded(&mut r, name, 30);
    if !cfg.plain {
        r.append(RST);
    }
    r.append(" ");
    if !cfg.plain {
        r.append(DIM);
    }
    r.append(ver);
    if !cfg.plain {
        r.append(RST);
    }
    r
}

/// The line of an installed package: a bullet green for explicit installs.
pub open spec fn pkg_line_seq(name: Seq<char>, ver: Seq<char>, explicit: bool, quiet: bool, plain: bool) -> Seq<char> {
    if quiet {
        name
    } else if plain {
        "  • "@ + pad_seq(name, 30) + " "@ + ver
    } else {
        "  "@ + (if explicit { GREEN@ } else { SUBTEXT1@ }) + "•"@ + RST@ + " "@ + TEXT@ + pad_seq(name, 30)
            + RST@ + " "@ + DIM@ + ver + RST@
    }
}

/// The line of an installed package in a plain listing.
pub fn pkg_line(name: &str, ver: &str, explicit: bool, quiet: bool, cfg: &ResolvedConfig) -> (r: String)
    ensures
        r@ == pkg_line_seq(name@, ver@, explicit, quiet, cfg.plain),
{
    if quiet {
        return String::from_str(name);
    }
    if cfg.plain {
        let mut r = String::from_str("  • ");
        push_padded(&mut r, name, 30);
        r.append(" ");
        r.append(ver);
        r
    } else {
        let mut r = String::from_str("  ");
        if explicit {
            r.append(GREEN);
        } else {
            r.append(SUBTEXT1);
        }
        r.append("•");
        r.append(RST);
        r.append(" ");
        r.append(TEXT);
        push_padded(&mut r, name, 30);
        r.append(RST);
        r.append(" ");
        r.append(DIM);
        r.append(ver);
        r.append(RST);
        r
    }
}

/// The lines of `-Qk` for a package with the files `missing` gone.
pub open spec fn file_check_seq(name: Seq<char>, missing: Seq<Seq<char>>, quiet: bool, plain: bool) -> Seq<Seq<char>> {
    if missing.len() > 0 {
        if quiet {
            seq![name]
        } else if plain {
            seq!["  ✗ "@ + name + ": "@ + dec_seq(missing.len()) + " files missing"@] + missing.map_values(
                |m: Seq<char>| "    missing: "@ + m,
            )
        } else {
            seq!["  "@ + RED@ + "✗"@ + RST@ + " "@ + TEXT@ + pad_seq(name, 30) + RST@ + " "@ + dec_seq(missing.len())
                + " files missing"@] + missing.map_values(|m: Seq<char>| "    "@ + DIM@ + "missing: "@ + m + RST@)
        }
    } else if quiet {
        seq![]
    } else if plain {
        seq!["  ✓ "@ + name + ": all files present"@]
    } else {
        seq!["  "@ + GREEN@ + "✓"@ + RST@ + " "@ + TEXT@ + pad_seq(name, 30) + RST@ + " all files present"@]
    }
}

/// The lines that `-Qk` prints for a package.
pub fn file_check_lines(name: &str, missing: &Vec<String>, quiet: bool, cfg: &ResolvedConfig) -> (r: Vec<String>)
    ensures
        views(r@) == file_check_seq(name@, views(missing@), quiet, cfg.plain),
{
    let plain = cfg.plain;
    let mut out: Vec<String> = Vec::new();
    if missing.len() > 0 {
        if quiet {
            out.push(String::from_str(name));
            assert(views(out@) == seq![name@]);
            return out;
        }
        let n = decimal(missing.len() as u64);
        let mut h = String::from_str("  ");
        if plain {
            h.append("✗ ");
            h.append(name);
            h.append(": ");
        } else {
            h.append(RED);
            h.append("✗");
            h.append(RST);
            h.append(" ");
            h.append(TEXT);
            push_padded(&mut h, name, 30);
            h.append(RST);
            h.append(" ");
        }
        h.append(n.as_str());
        h.append(" files missing");
        proof {
            if plain {
                assert(h@ == "  ✗ "@ + name@ + ": "@ + dec_seq(missing.len() as nat) + " files missing"@) by {
                    reveal_strlit("  ");
                    reveal_strlit("✗ ");
                    reveal_strlit("  ✗ ");
                    assert("  "@ + "✗ "@ == "  ✗ "@);
                }
            }
        }
        out.push(h);
        let ghost head = views(out@);
        let mut i: usize = 0;
        while i < missing.len()
            invariant
                i <= missing.len(),
                views(out@) == head + views(missing@).take(i as int).map_values(
                    |m: Seq<char>| if plain { "    missing: "@ + m } else { "    "@ + DIM@ + "missing: "@ + m + RST@ },
                ),
            decreases missing.len() - i,
        {
            let l = if plain {
                let mut l = String::from_str("    missing: ");
                l.append(missing[i].as_str());
                l
            } else {
                let mut l = String::from_str("    ");
                l.append(DIM);
                l.append("missing: ");
                l.append(missing[i].as_str());
                l.append(RST);
                l
            };
            let ghost before = views(out@);
            out.push(l);
            assert(views(out@) == before.push(l@));
            assert(views(missing@).take(i + 1) == views(missing@).take(i as int).push(missing@[i as int]@));
            i = i + 1;
        }
        assert(views(missing@).take(missing.len() as int) == views(missing@));
        proof {
            let f1 = |m: Seq<char>| if plain { "    missing: "@ + m } else { "    "@ + DIM@ + "missing: "@ + m + RST@ };
            if plain {
                assert(views(missing@).map_values(f1) == views(missing@).map_values(|m: Seq<char>| "    missing: "@ + m));
            } else {
                assert(views(missing@).map_values(f1) == views(missing@).map_values(
                    |m: Seq<char>| "    "@ + DIM@ + "missing: "@ + m + RST@,
                ));
            }
        }
        out
    } else {
        if quiet {
            return out;
        }
        let l = if plain {
            let mut l = String::from_str("  ✓ ");
            l.append(name);
            l.append(": all files present");
            l
        } else {
            let mut l = String::from_str("  ");
            l.append(GREEN);
            l.append("✓");
            l.append(RST);
            l.append(" ");
            l.append(TEXT);
            push_padded(&mut l, name, 30);
            l.append(RST);
            l.append(" all files present");
            l
        };
        out.push(l);
        assert(views(out@) == seq![l@]);
        out
    }
}

/// The line of an upgradable package (`-Qu`): installed version, then the sync one.
pub open spec fn upgrade_line_seq(name: Seq<char>, ver: Seq<char>, new_ver: Seq<char>, quiet: bool, plain: bool) -> Seq<char> {
    if quiet {
        name
    } else if plain {
        "  "@ + name + " "@ + ver + " → "@ + new_ver
    } else {
        "  "@ + TEXT@ + name + RST@ + "  "@ + DIM@ + ver + RST@ + " "@ + SURFACE2@ + "→"@ + RST@ + " "@ + GREEN@
            + new_ver + RST@
    }
}

/// The line that `-Qu` prints for a package with a newer sync version.
pub fn upgrade_line(name: &str, ver: &str, new_ver: &str, quiet: bool, cfg: &ResolvedConfig) -> (r: String)
    ensures
        r@ == upgrade_line_seq(name@, ver@, new_ver@, quiet, cfg.plain),
{
    if quiet {
        return String::from_str(name);
    }
    let mut r = String::from_str("  ");
    if cfg.plain {
        r.append(name);
        r.append(" ");
        r.append(ver);
        r.append(" → ");
        r.append(new_ver);
    } else {
        r.append(TEXT);
        r.append(name);
        r.append(RST);
        r.append("  ");
        r.append(DIM);
        r.append(ver);
        r.append(RST);
        r.append(" ");
        r.append(SURFACE2);
        r.append("→");
        r.append(RST);
        r.append(" ");
        r.append(GREEN);
        r.append(new_ver);
        r.append(RST);
    }
    r
}

/// The heading of a package's files or groups: `name: version`.
pub open spec fn heading_seq(name: Seq<char>, ver: Seq<char>, plain: bool) -> Seq<char> {
    if plain {
        name + ": "@ + ver
    } else {
        MAUVE@ + BOLD@ + name + ": "@ + ver + RST@
    }
}

/// The heading printed above a package's files (`-Ql`) or groups (`-Qg`).
pub fn heading_line(name: &str, ver: &str, cfg: &ResolvedConfig) -> (r: String)
    ensures
        r@ == heading_seq(name@, ver@, cfg.plain),
{
    let mut r = String::new();
    if !cfg.plain {
        r.append(MAUVE);
        r.append(BOLD);
    }
    r.append(name);
    r.append(": ");
    r.append(ver);
    if !cfg.plain {
        r.append(RST);
    }
    r
}

/// An indented item: a file or a group.
pub open spec fn item_seq(x: Seq<char>, plain: bool) -> Seq<char> {
    if plain {
        "  "@ + x
    } else {
        "  "@ + TEXT@ + x + RST@
    }
}

/// The line of a file or group under its heading.
pub fn item_line(x: &str, cfg: &ResolvedConfig) -> (r: String)
    ensures
        r@ == item_seq(x@, cfg.plain),
{
    let mut r = String::from_str("  ");
    if !cfg.plain {
        r.append(TEXT);
    }
    r.append(x);
    if !cfg.plain {
        r.append(RST);
    }
    r
}

/// The heading of a changelog (`-Qc`).
pub open spec fn changelog_heading_seq(name: Seq<char>, ver: Seq<char>, plain: bool) -> Seq<char> {
    if plain {
        "Changelog for "@ + name + ": "@ + ver + "\n"@
    } else {
        MAUVE@ + BOLD@ + "Changelog for "@ + name + ": "@ + ver + RST@
    }
}

/// The heading printed above a changelog.
pub fn changelog_heading(name: &str, ver: &str, cfg: &ResolvedConfig) -> (r: String)
    ensures
        r@ == changelog_heading_seq(name@, ver@, cfg.plain),
{
    let mut r = String::new();
    if !cfg.plain {
        r.append(MAUVE);
        r.append(BOLD);
    }
    r.append("Changelog for ");
    r.append(name);
    r.append(": ");
    r.append(ver);
    if cfg.plain {
        r.append("\n");
    } else {
        r.append(RST);
    }
    r
}

/// Whether the package file `path` is the file `file` asked about: both compared without
/// their leading slashes.
pub open spec fn owns_seq(file: Seq<char>, path: Seq<char>) -> bool {
    trim_start_char_seq(path, '/') == trim_start_char_seq(file, '/')
}

/// Whether the package file `path` is `file`.
pub fn owns_path(file: &str, path: &str) -> (b: bool)
    ensures
        b == owns_seq(file@, path@),
{
    let a = trim_start_char(path, '/');
    let b = trim_start_char(file, '/');
    str_eq(a.as_str(), b.as_str())
}

/// The line of `-Qo`: who owns a file.
pub open spec fn owner_seq(file: Seq<char>, name: Seq<char>, ver: Seq<char>, plain: bool) -> Seq<char> {
    if plain {
        file + " is owned by "@ + name + " "@ + ver
    } else {
        "  "@ + TEXT@ + file + RST@ + " is owned by "@ + GREEN@ + name + " "@ + ver + RST@
    }
}

/// The line that names the package owning a file.
pub fn owner_line(file: &str, name: &str, ver: &str, cfg: &ResolvedConfig) -> (r: String)
    ensures
        r@ == owner_seq(file@, name@, ver@, cfg.plain),
{
    let mut r = String::new();
    if !cfg.plain {
        r.append("  ");
        r.append(TEXT);
    }
    r.append(file);
    if !cfg.plain {
        r.append(RST);
    }
    r.append(" is owned by ");
    if !cfg.plain {
        r.append(GREEN);
    }
    r.append(name);
    r.append(" ");
    r.append(ver);
    if !cfg.plain {
        r.append(RST);
    }
    r
}

/// The line of `-Qp`: which sync package would own a file.
pub open spec fn would_own_seq(file: Seq<char>, name: Seq<char>, ver: Seq<char>, plain: bool) -> Seq<char> {
    if plain {
        "  "@ + file + " would be owned by "@ + name + " "@ + ver
    } else {
        "  "@ + TEXT@ + file + RST@ + " would be owned by "@ + GREEN@ + name + " "@ + ver + RST@
    }
}

/// The line that names a sync package holding a file.
pub fn would_own_line(file: &str, name: &str, ver: &str, cfg: &ResolvedConfig) -> (r: String)
    ensures
        r@ == would_own_seq(file@, name@, ver@, cfg.plain),
{
    let mut r = String::from_str("  ");
    if !cfg.plain {
        r.append(TEXT);
    }
    r.append(file);
    if !cfg.plain {
        r.append(RST);
    }
    r.append(" would be owned by ");
    if !cfg.plain {
        r.append(GREEN);
    }
    r.append(name);
    r.append(" ");
    r.append(ver);
    if !cfg.plain {
        r.append(RST);
    }
    r
}

/// Whether a package matches every search term: each term, lowercased, occurs in the
/// lowercased name or the lowercased description.
pub open spec fn search_matches_seq(name: Seq<char>, desc: Seq<char>, terms: Seq<Seq<char>>) -> bool {
    forall|i: int|
        0 <= i < terms.len() ==> #[trigger] contains_seq(lower_text(name), lower_text(terms[i])) || contains_seq(
            lower_text(desc),
            lower_text(terms[i]),
        )
}

/// A term that occurs, lowercased, neither in the lowercased name nor in the lowercased
/// description rules the package out, whatever the other terms are.
pub proof fn law_search_term_missing_rules_out(name: Seq<char>, desc: Seq<char>, terms: Seq<Seq<char>>, k: int)
    requires
        0 <= k < terms.len(),
        !contains_seq(lower_text(name), lower_text(terms[k])),
        !contains_seq(lower_text(desc), lower_text(terms[k])),
    ensures
        !search_matches_seq(name, desc, terms),
{
}

/// Adding a term narrows the search: a package matches the longer list exactly when it
/// matches the shorter one and the added term alone; with no term every package matches,
/// and one term matches when it occurs, lowercased, in the lowercased name or description.
pub proof fn law_search_terms_conjoin(name: Seq<char>, desc: Seq<char>, terms: Seq<Seq<char>>, t: Seq<char>)
    ensures
        search_matches_seq(name, desc, terms.push(t)) == (search_matches_seq(name, desc, terms)
            && search_matches_seq(name, desc, seq![t])),
        search_matches_seq(name, desc, seq![]),
        search_matches_seq(name, desc, seq![t]) == (contains_seq(lower_text(name), lower_text(t))
            || contains_seq(lower_text(desc), lower_text(t))),
{
    let all = terms.push(t);
    assert(all[terms.len() as int] == t);
    assert(seq![t][0] == t);
    if search_matches_seq(name, desc, all) {
        assert forall|i: int| 0 <= i < terms.len() implies #[trigger] contains_seq(lower_text(name), lower_text(terms[i]))
            || contains_seq(lower_text(desc), lower_text(terms[i])) by {
            assert(all[i] == terms[i]);
        }
    }
    if search_matches_seq(name, desc, terms) && search_matches_seq(name, desc, seq![t]) {
        assert forall|i: int| 0 <= i < all.len() implies #[trigger] contains_seq(lower_text(name), lower_text(all[i]))
            || contains_seq(lower_text(desc), lower_text(all[i])) by {
            if i < terms.len() {
                assert(all[i] == terms[i]);
            }
        }
    }
}

/// Whether a package matches all the search terms.
pub fn search_matches(name: &str, desc: &str, terms: &Vec<String>) -> (b: bool)
    ensures
        b == search_matches_seq(name@, desc@, views(terms@)),
{
    let ln = to_lowercase(name);
    let ld = to_lowercase(desc);
    let mut i: usize = 0;
    while i < terms.len()
        invariant
            i <= terms.len(),
            ln@ == lower_text(name@),
            ld@ == lower_text(desc@),
            forall|k: int|
                0 <= k < i ==> #[trigger] contains_seq(lower_text(name@), lower_text(views(terms@)[k])) || contains_seq(
                    lower_text(desc@),
                    lower_text(views(terms@)[k]),
                ),
        decreases terms.len() - i,
    {
        let t = to_lowercase(terms[i].as_str());
        assert(views(terms@)[i as int] == terms@[i as int]@);
        assert(t@ == lower_text(views(terms@)[i as int]));
        if !(contains(ln.as_str(), t.as_str()) || contains(ld.as_str(), t.as_str())) {
            return false;
        }
        i = i + 1;
    }
    true
}

/// The line of a search result: name and version, then the description on its own line.
pub open spec fn search_line_seq(name: Seq<char>, ver: Seq<char>, desc: Seq<char>, plain: bool) -> Seq<char> {
    if plain {
        name + " "@ + ver + "\n    "@ + desc
    } else {
        "  "@ + GREEN@ + name + RST@ + " "@ + DIM@ + ver + RST@ + "\n    "@ + SUBTEXT1@ + desc + RST@
    }
}

/// The lines that `-Qs` prints for a matching package.
pub fn search_line(name: &str, ver: &str, desc: &str, cfg: &ResolvedConfig) -> (r: String)
    ensures
        r@ == search_line_seq(name@, ver@, desc@, cfg.plain),
{
    let mut r = String::new();
    if !cfg.plain {
        r.append("  ");
        r.append(GREEN);
    }
    r.append(name);
    if !cfg.plain {
        r.append(RST);
    }
    r.append(" ");
    if !cfg.plain {
        r.append(DIM);
    }
    r.append(ver);
    if !cfg.plain {
        r.append(RST);
    }
    r.append("\n    ");
    if !cfg.plain {
        r.append(SUBTEXT1);
    }
    r.append(desc);
    if !cfg.plain {
        r.append(RST);
    }
    r
}

/// A `key: value` line of package details (keys padded to 18 columns).
pub open spec fn detail_seq(key: Seq<char>, val: Seq<char>, plain: bool) -> Seq<char> {
    if plain {
        pad_seq(key, 18) + ": "@ + val
    } else {
        "  "@ + MAUVE@ + BOLD@ + pad_seq(key, 18) + RST@ + " "@ + TEXT@ + val + RST@
    }
}

fn detail_line(key: &str, val: &str, plain: bool) -> (r: String)
    ensures
        r@ == detail_seq(key@, val@, plain),
{
    let mut r = String::new();
    if plain {
        push_padded(&mut r, key, 18);
        r.append(": ");
        r.append(val);
    } else {
        r.append("  ");
        r.append(MAUVE);
        r.append(BOLD);
        push_padded(&mut r, key, 18);
        r.append(RST);
        r.append(" ");
        r.append(TEXT);
        r.append(val);
        r.append(RST);
    }
    r
}

/// The details of an installed package (`-Qi`).
pub struct PkgInfo {
    pub name: String,
    pub version: String,
    pub desc: Option<String>,
    pub arch: Option<String>,
    pub url: Option<String>,
    pub licenses: Vec<String>,
    pub groups: Vec<String>,
    pub depends: Vec<String>,
    pub optdepends: Vec<String>,
    pub required_by: Vec<String>,
    /// Installed explicitly (not as a dependency).
    pub explicit: bool,
    /// Install date, in seconds since the epoch.
    pub install_date: Option<i64>,
    /// Installed size in bytes.
    pub isize: i64,
    pub packager: Option<String>,
    pub files: Vec<String>,
}

/// An optional text, or a dash.
pub open spec fn dash_or(o: Option<String>) -> Seq<char> {
    match o {
        Some(s) => s@,
        None => "—"@,
    }
}

/// A list joined with `sep`, or a dash when it is empty.
pub open spec fn joined_or_dash(v: Seq<Seq<char>>, sep: Seq<char>) -> Seq<char> {
    if v.len() == 0 {
        "—"@
    } else {
        join_seq(v, sep)
    }
}

/// The separator of continued detail lines: a line feed and 20 spaces.
pub open spec fn continuation() -> Seq<char> {
    "\n                    "@
}

/// The install reason as shown in the details.
pub open spec fn reason_text(explicit: bool, plain: bool) -> Seq<char> {
    if explicit {
        if plain { "explicit"@ } else { GREEN@ + "explicit"@ + RST@ }
    } else {
        if plain { "dependency"@ } else { YELLOW@ + "dependency"@ + RST@ }
    }
}

/// The keys and values of the details, in order.
pub open spec fn info_pairs(p: PkgInfo, plain: bool) -> Seq<(Seq<char>, Seq<char>)> {
    seq![
        ("Name"@, p.name@),
        ("Version"@, p.version@),
        ("Description"@, dash_or(p.desc)),
        ("Architecture"@, dash_or(p.arch)),
        ("URL"@, dash_or(p.url)),
        ("Licenses"@, join_seq(views(p.licenses@), "  "@)),
        ("Groups"@, join_seq(views(p.groups@), "  "@)),
        ("Depends On"@, joined_or_dash(views(p.depends@), "  "@)),
        ("Optional Deps"@, joined_or_dash(views(p.optdepends@), continuation())),
        ("Required By"@, joined_or_dash(views(p.required_by@), "  "@)),
        ("Install Reason"@, reason_text(p.explicit, plain)),
        ("Install Date"@, match p.install_date { Some(d) => dec_int_seq(d as int), None => "—"@ }),
        ("Install Size"@, human_size_seq(p.isize as int)),
        ("Packager"@, dash_or(p.packager)),
    ]
}

/// The lines that show the files: the first five, and how many more there are.
pub open spec fn files_seq(files: Seq<Seq<char>>, plain: bool) -> Seq<Seq<char>> {
    if files.len() == 0 {
        seq![]
    } else {
        let shown = if files.len() < 5 { files } else { files.take(5) };
        let more = if files.len() > 5 {
            let n = dec_seq((files.len() - 5) as nat);
            if plain {
                seq!["                    … and "@ + n + " more"@]
            } else {
                seq!["                    "@ + DIM@ + "… and "@ + n + " more"@ + RST@]
            }
        } else {
            seq![]
        };
        seq![detail_seq("Files"@, join_seq(shown, continuation()), plain)] + more
    }
}

/// The lines of `-Qi` for a package: an empty line, the details, the files, an empty line.
pub open spec fn pkg_info_seq(p: PkgInfo, plain: bool) -> Seq<Seq<char>> {
    seq![""@] + info_pairs(p, plain).map_values(|kv: (Seq<char>, Seq<char>)| detail_seq(kv.0, kv.1, plain))
        + files_seq(views(p.files@), plain) + seq![""@]
}

fn dash_or_exec(o: &Option<String>) -> (r: String)
    ensures
        r@ == dash_or(*o),
{
    match o {
        Some(s) => s.clone(),
        None => String::from_str("—"),
    }
}

fn joined_or_dash_exec(v: &Vec<String>, sep: &str) -> (r: String)
    ensures
        r@ == joined_or_dash(views(v@), sep@),
{
    if v.len() == 0 {
        String::from_str("—")
    } else {
        join(v, sep)
    }
}

/// The lines that `-Qi` prints for a package.
pub fn pkg_info_lines(p: &PkgInfo, cfg: &ResolvedConfig) -> (r: Vec<String>)
    ensures
        views(r@) == pkg_info_seq(*p, cfg.plain),
{
    let plain = cfg.plain;
    let cont = "\n                    ";
    let reason = if p.explicit {
        if plain {
            String::from_str("explicit")
        } else {
            let mut s = String::from_str(GREEN);
            s.append("explicit");
            s.append(RST);
            s
        }
    } else {
        if plain {
            String::from_str("dependency")
        } else {
            let mut s = String::from_str(YELLOW);
            s.append("dependency");
            s.append(RST);
            s
        }
    };
    let date = match p.install_date {
        Some(d) => decimal_signed(d),
        None => String::from_str("—"),
    };
    let mut pairs: Vec<(String, String)> = Vec::new();
    pairs.push((String::from_str("Name"), p.name.clone()));
    pairs.push((String::from_str("Version"), p.version.clone()));
    pairs.push((String::from_str("Description"), dash_or_exec(&p.desc)));
    pairs.push((String::from_str("Architecture"), dash_or_exec(&p.arch)));
    pairs.push((String::from_str("URL"), dash_or_exec(&p.url)));
    pairs.push((String::from_str("Licenses"), join(&p.licenses, "  ")));
    pairs.push((String::from_str("Groups"), join(&p.groups, "  ")));
    pairs.push((String::from_str("Depends On"), joined_or_dash_exec(&p.depends, "  ")));
    pairs.push((String::from_str("Optional Deps"), joined_or_dash_exec(&p.optdepends, cont)));
    pairs.push((String::from_str("Required By"), joined_or_dash_exec(&p.required_by, "  ")));
    pairs.push((String::from_str("Install Reason"), reason));
    pairs.push((String::from_str("Install Date"), date));
    pairs.push((String::from_str("Install Size"), human_size(p.isize)));
    pairs.push((String::from_str("Packager"), dash_or_exec(&p.packager)));
    let ghost pv = pairs@.map_values(|x: (String, String)| (x.0@, x.1@));
    assert(pv == info_pairs(*p, plain));
    let mut out: Vec<String> = Vec::new();
    out.push(String::from_str(""));
    let ghost head = views(out@);
    let mut i: usize = 0;
    while i < pairs.len()
        invariant
            i <= pairs.len(),
            pv == pairs@.map_values(|x: (String, String)| (x.0@, x.1@)),
            views(out@) == head + pv.take(i as int).map_values(
                |kv: (Seq<char>, Seq<char>)| detail_seq(kv.0, kv.1, plain),
            ),
        decreases pairs.len() - i,
    {
        let l = detail_line(pairs[i].0.as_str(), pairs[i].1.as_str(), plain);
        let ghost before = views(out@);
        out.push(l);
        assert(views(out@) == before.push(l@));
        assert(pv.take(i + 1) == pv.take(i as int).push(pv[i as int]));
        i = i + 1;
    }
    assert(pv.take(pairs.len() as int) == pv);
    let ghost body = views(out@);
    let nf = p.files.len();
    if nf > 0 {
        let mut shown: Vec<String> = Vec::new();
        let lim: usize = if nf < 5 {
            nf
        } else {
            5
        };
        let mut k: usize = 0;
        while k < lim
            invariant
                k <= lim <= p.files.len(),
                views(shown@) == views(p.files@).take(k as int),
            decreases lim - k,
        {
            shown.push(p.files[k].clone());
            assert(views(p.files@).take(k + 1) == views(p.files@).take(k as int).push(p.files@[k as int]@));
            k = k + 1;
        }
        proof {
            if nf < 5 {
                assert(views(p.files@).take(nf as int) == views(p.files@));
            }
        }
        let joined = join(&shown, cont);
        out.push(detail_line("Files", joined.as_str(), plain));
        if nf > 5 {
            let n = decimal((nf - 5) as u64);
            let l = if plain {
                let mut l = String::from_str("                    … and ");
                l.append(n.as_str());
                l.append(" more");
                l
            } else {
                let mut l = String::from_str("                    ");
                l.append(DIM);
                l.append("… and ");
                l.append(n.as_str());
                l.append(" more");
                l.append(RST);
                l
            };
            out.push(l);
        }
    }
    assert(views(out@) == body + files_seq(views(p.files@), plain));
    let ghost all = views(out@);
    let e = String::from_str("");
    out.push(e);
    assert(views(out@) == all + seq![e@]);
    out
}

} // verus!
