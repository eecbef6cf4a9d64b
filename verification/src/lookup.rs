use vstd::prelude::*;
use vstd::string::*;
use crate::aur::AurPackage;
use crate::config::ResolvedConfig;
use crate::render::{human_size, kv, BOLD, DIM, GREEN, MAUVE, RST, SUBTEXT1};
use crate::size::human_size_seq;
use crate::text::{
    contains, contains_seq, contains_str, dec_seq, decimal, join, join_seq, pad_seq, split_char,
    split_char_seq, views,
};

verus! {

/// The line of a sync package found by `-Ss`: `repo/name version - description`.
pub open spec fn sync_search_seq(repo: Seq<char>, name: Seq<char>, ver: Seq<char>, desc: Seq<char>, quiet: bool, plain: bool) -> Seq<char> {
    if quiet {
        name
    } else if plain {
        repo + "/"@ + name + " "@ + ver + " - "@ + desc
    } else {
        "  "@ + GREEN@ + repo + "/"@ + name + RST@ + " "@ + DIM@ + ver + RST@ + " "@ + SUBTEXT1@ + "- "@ + desc
            + RST@
    }
}

/// The line that `-Ss` prints for a sync package (the description empty when it has none).
pub fn sync_search_line(repo: &str, name: &str, ver: &str, desc: &str, quiet: bool, cfg: &ResolvedConfig) -> (r: String)
    ensures
        r@ == sync_search_seq(repo@, name@, ver@, desc@, quiet, cfg.plain),
{
    if quiet {
        return String::from_str(name);
    }
    let mut r = String::new();
    if !cfg.plain {
        r.append("  ");
        r.append(GREEN);
    }
    r.append(repo);
    r.append("/");
    r.append(name);
    if !cfg.plain {
        r.append(RST);
    }
    r.append(" ");
    if !cfg.plain {
        r.append(DIM);
    }
    r.append(ver);
    if !cfg.plain {
        r.append(RST);
        r.append(" ");
        r.append(SUBTEXT1);
        r.append("- ");
    } else {
        r.append(" - ");
    }
    r.append(desc);
    if !cfg.plain {
        r.append(RST);
    }
    r
}

/// The line of an AUR package found by `-Ss`: `aur/name version - description`.
pub open spec fn aur_search_seq(p: AurPackage, quiet: bool, plain: bool) -> Seq<char> {
    let desc = match p.description {
        Some(d) => d@,
        None => Seq::<char>::empty(),
    };
    if quiet {
        p.name@
    } else if plain {
        "aur/"@ + p.name@ + " "@ + p.version@ + " - "@ + desc
    } else {
        "  "@ + MAUVE@ + "aur/"@ + p.name@ + RST@ + " "@ + DIM@ + p.version@ + RST@ + " "@ + SUBTEXT1@ + "- "@
            + desc + RST@
    }
}

/// The line that `-Ss` prints for an AUR package.
pub fn aur_search_line(p: &AurPackage, quiet: bool, cfg: &ResolvedConfig) -> (r: String)
    ensures
        r@ == aur_search_seq(*p, quiet, cfg.plain),
{
    if quiet {
        return p.name.clone();
    }
    let mut r = String::new();
    if !cfg.plain {
        r.append("  ");
        r.append(MAUVE);
    }
    r.append("aur/");
    r.append(p.name.as_str());
    if !cfg.plain {
        r.append(RST);
    }
    r.append(" ");
    if !cfg.plain {
        r.append(DIM);
    }
    r.append(p.version.as_str());
    if !cfg.plain {
        r.append(RST);
        r.append(" ");
        r.append(SUBTEXT1);
        r.append("- ");
    } else {
        r.append(" - ");
    }
    match &p.description {
        Some(d) => r.append(d.as_str()),
        None => {},
    }
    if !cfg.plain {
        r.append(RST);
    }
    r
}

/// The heading of a repository's listing (`-Sl`).
pub open spec fn repo_heading_seq(name: Seq<char>, plain: bool) -> Seq<char> {
    if plain {
        "\nRepository "@ + name + ":"@
    } else {
        "\n"@ + MAUVE@ + BOLD@ + "Repository "@ + name + ":"@ + RST@
    }
}

/// The heading printed above a repository's packages.
pub fn repo_heading(name: &str, cfg: &ResolvedConfig) -> (r: String)
    ensures
        r@ == repo_heading_seq(name@, cfg.plain),
{
    if cfg.plain {
        let mut r = String::from_str("\nRepository ");
        r.append(name);
        r.append(":");
        r
    } else {
        let mut r = String::from_str("\n");
        r.append(MAUVE);
        r.append(BOLD);
        r.append("Repository ");
        r.append(name);
        r.append(":");
        r.append(RST);
        r
    }
}

/// The heading of a group's members (`-Sg`).
pub open spec fn group_heading_seq(group: Seq<char>, plain: bool) -> Seq<char> {
    if plain {
        group + ":"@
    } else {
        MAUVE@ + BOLD@ + group + ":"@ + RST@
    }
}

/// The heading printed above a group's members.
pub fn group_heading(group: &str, cfg: &ResolvedConfig) -> (r: String)
    ensures
        r@ == group_heading_seq(group@, cfg.plain),
{
    let mut r = String::new();
    if !cfg.plain {
        r.append(MAUVE);
        r.append(BOLD);
    }
    r.append(group);
    r.append(":");
    if !cfg.plain {
        r.append(RST);
    }
    r
}

/// A package of a sync database, as the group lookup reads it.
pub struct SyncPackage {
    pub repo: String,
    pub name: String,
    pub groups: Vec<String>,
}

/// The members of `group`, as `repo/name`, in database order.
pub open spec fn group_members_seq(pkgs: Seq<SyncPackage>, group: Seq<char>) -> Seq<Seq<char>>
    decreases pkgs.len(),
{
    if pkgs.len() == 0 {
        seq![]
    } else {
        let rest = group_members_seq(pkgs.drop_last(), group);
        let p = pkgs.last();
        if views(p.groups@).contains(group) {
            rest.push(p.repo@ + "/"@ + p.name@)
        } else {
            rest
        }
    }
}

/// The members of a group among the sync packages.
pub fn group_members(pkgs: &Vec<SyncPackage>, group: &str) -> (r: Vec<String>)
    ensures
        views(r@) == group_members_seq(pkgs@, group@),
{
    let mut out: Vec<String> = Vec::new();
    let mut i: usize = 0;
    while i < pkgs.len()
        invariant
            i <= pkgs.len(),
            views(out@) == group_members_seq(pkgs@.take(i as int), group@),
        decreases pkgs.len() - i,
    {
        assert(pkgs@.take(i + 1).drop_last() == pkgs@.take(i as int));
        let p = &pkgs[i];
        if contains_str(&p.groups, group) {
            let mut m = p.repo.clone();
            m.append("/");
            m.append(p.name.as_str());
            let ghost before = views(out@);
            out.push(m);
            assert(views(out@) == before.push(m@));
        }
        i = i + 1;
    }
    assert(pkgs@.take(pkgs.len() as int) == pkgs@);
    out
}

/// The details of a sync package (`-Si`).
pub struct SyncInfo {
    pub name: String,
    pub version: String,
    pub desc: Option<String>,
    pub arch: Option<String>,
    pub url: Option<String>,
    pub licenses: Vec<String>,
    pub groups: Vec<String>,
    pub depends: Vec<String>,
    pub optdepends: Vec<String>,
    /// Installed size in bytes.
    pub isize: i64,
}

/// A `key: value` detail line, coloured from the configuration.
pub open spec fn kv_seq(key: Seq<char>, val: Seq<char>, cfg: ResolvedConfig) -> Seq<char> {
    if cfg.plain {
        pad_seq(key, 18) + ": "@ + val
    } else {
        "  "@ + cfg.colors.mauve@ + cfg.colors.bold@ + pad_seq(key, 18) + cfg.colors.reset@ + " "@
            + cfg.colors.text@ + val + cfg.colors.reset@
    }
}

/// An optional text, or a dash.
pub open spec fn dash(o: Option<String>) -> Seq<char> {
    match o {
        Some(s) => s@,
        None => "—"@,
    }
}

fn dash_exec(o: &Option<String>) -> (r: String)
    ensures
        r@ == dash(*o),
{
    match o {
        Some(s) => s.clone(),
        None => String::from_str("—"),
    }
}

/// The keys and values of a sync package's details.
pub open spec fn sync_info_pairs(p: SyncInfo) -> Seq<(Seq<char>, Seq<char>)> {
    seq![
        ("Name"@, p.name@),
        ("Version"@, p.version@),
        ("Description"@, dash(p.desc)),
        ("Architecture"@, dash(p.arch)),
        ("URL"@, dash(p.url)),
        ("Licenses"@, join_seq(views(p.licenses@), "  "@)),
        ("Groups"@, join_seq(views(p.groups@), "  "@)),
        ("Depends On"@, join_seq(views(p.depends@), "  "@)),
        ("Optional Deps"@, join_seq(views(p.optdepends@), "  "@)),
        ("Install Size"@, human_size_seq(p.isize as int)),
    ]
}

/// The keys and values of an AUR package's details.
pub open spec fn aur_info_pairs(p: AurPackage) -> Seq<(Seq<char>, Seq<char>)> {
    seq![
        ("Name"@, p.name@),
        ("Version"@, p.version@),
        ("Description"@, dash(p.description)),
        ("URL"@, dash(p.url)),
        ("Maintainer"@, dash(p.maintainer)),
    ]
}

/// Detail lines between two empty lines.
pub open spec fn details_block(pairs: Seq<(Seq<char>, Seq<char>)>, cfg: ResolvedConfig) -> Seq<Seq<char>> {
    seq![""@] + pairs.map_values(|kv: (Seq<char>, Seq<char>)| kv_seq(kv.0, kv.1, cfg)) + seq![""@]
}

fn details_lines(pairs: &Vec<(String, String)>, cfg: &ResolvedConfig) -> (r: Vec<String>)
    ensures
        views(r@) == details_block(pairs@.map_values(|x: (String, String)| (x.0@, x.1@)), *cfg),
{
    let ghost pv = pairs@.map_values(|x: (String, String)| (x.0@, x.1@));
    let mut out: Vec<String> = Vec::new();
    out.push(String::from_str(""));
    let ghost head = views(out@);
    let mut i: usize = 0;
    while i < pairs.len()
        invariant
            i <= pairs.len(),
            pv == pairs@.map_values(|x: (String, String)| (x.0@, x.1@)),
            views(out@) == head + pv.take(i as int).map_values(
                |kv: (Seq<char>, Seq<char>)| kv_seq(kv.0, kv.1, *cfg),
            ),
        decreases pairs.len() - i,
    {
        let l = kv(pairs[i].0.as_str(), pairs[i].1.as_str(), cfg);
        let ghost before = views(out@);
        out.push(l);
        assert(views(out@) == before.push(l@));
        assert(pv.take(i + 1) == pv.take(i as int).push(pv[i as int]));
        i = i + 1;
    }
    assert(pv.take(pairs.len() as int) == pv);
    let ghost body = views(out@);
    let e = String::from_str("");
    out.push(e);
    assert(views(out@) == body + seq![e@]);
    out
}

/// The lines that `-Si` prints for a sync package.
pub fn sync_info_lines(p: &SyncInfo, cfg: &ResolvedConfig) -> (r: Vec<String>)
    ensures
        views(r@) == details_block(sync_info_pairs(*p), *cfg),
{
    let mut pairs: Vec<(String, String)> = Vec::new();
    pairs.push((String::from_str("Name"), p.name.clone()));
    pairs.push((String::from_str("Version"), p.version.clone()));
    pairs.push((String::from_str("Description"), dash_exec(&p.desc)));
    pairs.push((String::from_str("Architecture"), dash_exec(&p.arch)));
    pairs.push((String::from_str("URL"), dash_exec(&p.url)));
    pairs.push((String::from_str("Licenses"), join(&p.licenses, "  ")));
    pairs.push((String::from_str("Groups"), join(&p.groups, "  ")));
    pairs.push((String::from_str("Depends On"), join(&p.depends, "  ")));
    pairs.push((String::from_str("Optional Deps"), join(&p.optdepends, "  ")));
    pairs.push((String::from_str("Install Size"), human_size(p.isize)));
    assert(pairs@.map_values(|x: (String, String)| (x.0@, x.1@)) == sync_info_pairs(*p));
    details_lines(&pairs, cfg)
}

/// The lines that `-Si` prints for a package found in the AUR.
pub fn aur_info_lines(p: &AurPackage, cfg: &ResolvedConfig) -> (r: Vec<String>)
    ensures
        views(r@) == details_block(aur_info_pairs(*p), *cfg),
{
    let mut pairs: Vec<(String, String)> = Vec::new();
    pairs.push((String::from_str("Name"), p.name.clone()));
    pairs.push((String::from_str("Version"), p.version.clone()));
    pairs.push((String::from_str("Description"), dash_exec(&p.description)));
    pairs.push((String::from_str("URL"), dash_exec(&p.url)));
    pairs.push((String::from_str("Maintainer"), dash_exec(&p.maintainer)));
    assert(pairs@.map_values(|x: (String, String)| (x.0@, x.1@)) == aur_info_pairs(*p));
    details_lines(&pairs, cfg)
}

/// The message for a package found nowhere: which sources were searched.
pub fn not_found_message(aur_only: bool, sync_only: bool) -> (r: String)
    ensures
        r@ == "package not found in databases (AUR: "@ + (if aur_only { "true"@ } else { "false"@ })
            + ", Sync: "@ + (if !sync_only { "true"@ } else { "false"@ }) + ")"@,
{
    let mut r = String::from_str("package not found in databases (AUR: ");
    r.append(if aur_only { "true" } else { "false" });
    r.append(", Sync: ");
    r.append(if !sync_only { "true" } else { "false" });
    r.append(")");
    r
}

/// The name of the package that a file of the package cache belongs to: files whose name
/// holds `.pkg.tar.` are packages, named `name-version-release-arch.pkg.tar.*`, so the name
/// is what precedes the last three `-` fields (a name may hold `-` itself).
pub open spec fn cache_package_seq(file_name: Seq<char>) -> Option<Seq<char>> {
    let pieces = split_char_seq(file_name, '-');
    if contains_seq(file_name, ".pkg.tar."@) && pieces.len() >= 4 {
        Some(join_seq(pieces.take(pieces.len() - 3), "-"@))
    } else {
        None
    }
}

/// The package name of a cache file, if it is a package.
pub fn cache_package_name(file_name: &str) -> (r: Option<String>)
    ensures
        match cache_package_seq(file_name@) {
            Some(n) => r matches Some(s) && s@ == n,
            None => r is None,
        },
{
    if !contains(file_name, ".pkg.tar.") {
        return None;
    }
    let pieces = split_char(file_name, '-');
    if pieces.len() < 4 {
        return None;
    }
    let n = pieces.len() - 3;
    let mut head: Vec<String> = Vec::new();
    let mut k: usize = 0;
    while k < n
        invariant
            k <= n,
            n + 3 == pieces.len(),
            views(head@) == views(pieces@).take(k as int),
        decreases n - k,
    {
        head.push(pieces[k].clone());
        assert(views(pieces@).take(k + 1) == views(pieces@).take(k as int).push(pieces@[k as int]@));
        k = k + 1;
    }
    let name = join(&head, "-");
    Some(name)
}

/// The report of a cache cleaning.
pub fn clean_report(removed: usize) -> (r: String)
    ensures
        r@ == "removed "@ + dec_seq(removed as nat) + " unused packages from cache"@,
{
    let mut r = String::from_str("removed ");
    let d = decimal(removed as u64);
    r.append(d.as_str());
    r.append(" unused packages from cache");
    r
}

} // verus!
