use vstd::prelude::*;
use vstd::string::*;
use vstd::set_lib::*;
use crate::cli::Switches;
use crate::config::ResolvedConfig;
use crate::render::{human_size, BLUE, BOLD, DIM, GREEN, MAUVE, RED, ROSEWATER, RST, SUBTEXT1, TEXT, YELLOW};
use crate::size::human_size_seq;
use crate::text::{
    contains, contains_seq, contains_str, dec_seq, decimal, pad_seq, push_padded, replace,
    replace_seq, str_eq, views,
};

verus! {

/// The transaction flags that an operation asks for.
#[derive(Clone, Copy, PartialEq, Eq, Structural, Debug)]
pub struct TransFlags {
    pub no_save: bool,
    pub no_deps: bool,
    pub download_only: bool,
    pub db_only: bool,
    pub no_scriptlet: bool,
    pub recurse: bool,
    pub recurse_all: bool,
}

/// No flag.
pub open spec fn no_flags() -> TransFlags {
    TransFlags {
        no_save: false,
        no_deps: false,
        download_only: false,
        db_only: false,
        no_scriptlet: false,
        recurse: false,
        recurse_all: false,
    }
}

/// The flags of an install or upgrade from the sync databases (`-S`).
pub fn sync_flags(sw: &Switches) -> (f: TransFlags)
    ensures
        f == (TransFlags {
            download_only: sw.downloadonly,
            no_deps: sw.nodeps > 0,
            db_only: sw.dbonly,
            no_scriptlet: sw.noscriptlet,
            ..no_flags()
        }),
{
    TransFlags {
        no_save: false,
        no_deps: sw.nodeps > 0,
        download_only: sw.downloadonly,
        db_only: sw.dbonly,
        no_scriptlet: sw.noscriptlet,
        recurse: false,
        recurse_all: false,
    }
}

/// The flags of a removal (`-R`): `-ss` removes all dependencies, `-s` the unneeded ones.
pub fn remove_flags(sw: &Switches) -> (f: TransFlags)
    ensures
        f == (TransFlags {
            no_save: sw.nosave,
            no_deps: sw.nodeps > 0,
            recurse_all: sw.recursive >= 2,
            recurse: sw.recursive == 1,
            ..no_flags()
        }),
{
    TransFlags {
        no_save: sw.nosave,
        no_deps: sw.nodeps > 0,
        download_only: false,
        db_only: false,
        no_scriptlet: false,
        recurse: sw.recursive == 1,
        recurse_all: sw.recursive >= 2,
    }
}

/// The flags of an install from files (`-U`) and of a reconciliation.
pub fn upgrade_flags(sw: &Switches) -> (f: TransFlags)
    ensures
        f == (TransFlags {
            no_deps: sw.nodeps > 0,
            db_only: sw.dbonly,
            no_scriptlet: sw.noscriptlet,
            ..no_flags()
        }),
{
    TransFlags {
        no_save: false,
        no_deps: sw.nodeps > 0,
        download_only: false,
        db_only: sw.dbonly,
        no_scriptlet: sw.noscriptlet,
        recurse: false,
        recurse_all: false,
    }
}

/// What `-S` does once the databases are refreshed.
#[derive(Clone, Copy, PartialEq, Eq, Structural, Debug)]
pub enum SyncPlan {
    /// Look things up (`-Si`, `-Ss`, `-Sl`, `-Sg`, in that order, each that is asked).
    Lookups,
    /// Clean the package cache (`-Sc`).
    Clean,
    /// Nothing to install and no upgrade asked.
    Nothing,
    /// Install the targets, upgrading the system first when asked.
    Transaction,
}

/// Chooses what `-S` does.
pub fn sync_plan(sw: &Switches, no_targets: bool) -> (p: SyncPlan)
    ensures
        p == (if sw.s_info || sw.s_search || sw.s_list || sw.s_groups {
            SyncPlan::Lookups
        } else if sw.s_clean {
            SyncPlan::Clean
        } else if no_targets && sw.sysupgrade == 0 {
            SyncPlan::Nothing
        } else {
            SyncPlan::Transaction
        }),
{
    if sw.s_info || sw.s_search || sw.s_list || sw.s_groups {
        SyncPlan::Lookups
    } else if sw.s_clean {
        SyncPlan::Clean
    } else if no_targets && sw.sysupgrade == 0 {
        SyncPlan::Nothing
    } else {
        SyncPlan::Transaction
    }
}

/// Splits the `-S` targets between the sync databases and the AUR, reading targets
/// `i..`: a target that a sync package satisfies gives that package; otherwise the
/// members of the group of that name are taken; a target that matched nothing there goes
/// to the AUR (unless only the sync databases are searched). With `aur_only` the sync
/// databases are not searched.
pub open spec fn resolve_from(
    targets: Seq<Seq<char>>,
    satisfier: Seq<Option<Seq<char>>>,
    members: Seq<Seq<Seq<char>>>,
    aur_only: bool,
    sync_only: bool,
    i: int,
) -> (Seq<Seq<char>>, Seq<Seq<char>>)
    decreases targets.len() - i,
{
    if i < 0 || i >= targets.len() {
        (seq![], seq![])
    } else {
        let rest = resolve_from(targets, satisfier, members, aur_only, sync_only, i + 1);
        let sync_part: Seq<Seq<char>> = if aur_only {
            seq![]
        } else {
            match satisfier[i] {
                Some(p) => seq![p],
                None => members[i],
            }
        };
        let aur_part: Seq<Seq<char>> = if sync_part.len() == 0 && !sync_only {
            seq![targets[i]]
        } else {
            seq![]
        };
        (sync_part + rest.0, aur_part + rest.1)
    }
}

/// Splits the targets between the sync databases and the AUR. `satisfier[i]` is the name
/// of the sync package that satisfies target `i`, if any; `members[i]` the sync packages
/// whose groups hold target `i`, in database order.
pub fn resolve_targets(
    targets: &Vec<String>,
    satisfier: &Vec<Option<String>>,
    members: &Vec<Vec<String>>,
    aur_only: bool,
    sync_only: bool,
) -> (r: (Vec<String>, Vec<String>))
    requires
        satisfier.len() == targets.len(),
        members.len() == targets.len(),
    ensures
        (views(r.0@), views(r.1@)) == resolve_from(
            views(targets@),
            satisfier@.map_values(|o: Option<String>| match o { Some(s) => Some(s@), None => None }),
            members@.map_values(|m: Vec<String>| views(m@)),
            aur_only,
            sync_only,
            0,
        ),
{
    let ghost ts = views(targets@);
    let ghost sat = satisfier@.map_values(|o: Option<String>| match o { Some(s) => Some(s@), None => None });
    let ghost mem = members@.map_values(|m: Vec<String>| views(m@));
    let mut sync_pkgs: Vec<String> = Vec::new();
    let mut aur_pkgs: Vec<String> = Vec::new();
    let mut i: usize = 0;
    while i < targets.len()
        invariant
            i <= targets.len(),
            satisfier.len() == targets.len(),
            members.len() == targets.len(),
            ts == views(targets@),
            sat == satisfier@.map_values(|o: Option<String>| match o { Some(s) => Some(s@), None => None }),
            mem == members@.map_values(|m: Vec<String>| views(m@)),
            ({
                let rest = resolve_from(ts, sat, mem, aur_only, sync_only, i as int);
                let whole = resolve_from(ts, sat, mem, aur_only, sync_only, 0);
                views(sync_pkgs@) + rest.0 == whole.0 && views(aur_pkgs@) + rest.1 == whole.1
            }),
        decreases targets.len() - i,
    {
        let ghost s0 = views(sync_pkgs@);
        let ghost a0 = views(aur_pkgs@);
        let ghost rest1 = resolve_from(ts, sat, mem, aur_only, sync_only, i + 1);
        assert(sat[i as int] == match satisfier@[i as int] { Some(s) => Some(s@), None => None });
        assert(mem[i as int] == views(members@[i as int]@));
        assert(ts[i as int] == targets@[i as int]@);
        let mut matched = false;
        if !aur_only {
            match &satisfier[i] {
                Some(p) => {
                    sync_pkgs.push(p.clone());
                    matched = true;
                    assert(views(sync_pkgs@) == s0 + seq![p@]);
                },
                None => {
                    let m = &members[i];
                    let mut k: usize = 0;
                    while k < m.len()
                        invariant
                            k <= m.len(),
                            views(sync_pkgs@) == s0 + views(m@).take(k as int),
                        decreases m.len() - k,
                    {
                        let ghost before = views(sync_pkgs@);
                        sync_pkgs.push(m[k].clone());
                        assert(views(sync_pkgs@) == before.push(m@[k as int]@));
                        assert(views(m@).take(k + 1) == views(m@).take(k as int).push(m@[k as int]@));
                        k = k + 1;
                    }
                    assert(views(m@).take(k as int) == views(m@));
                    matched = m.len() > 0;
                },
            }
        } else {
            assert(s0 + Seq::<Seq<char>>::empty() == s0);
        }
        if !matched && !sync_only {
            aur_pkgs.push(targets[i].clone());
            assert(views(aur_pkgs@) == a0 + seq![targets@[i as int]@]);
        } else {
            assert(a0 + Seq::<Seq<char>>::empty() == a0);
        }
        proof {
            let step = resolve_from(ts, sat, mem, aur_only, sync_only, i as int);
            let sp = if aur_only {
                Seq::<Seq<char>>::empty()
            } else {
                match sat[i as int] {
                    Some(p) => seq![p],
                    None => mem[i as int],
                }
            };
            assert(views(sync_pkgs@) == s0 + sp);
            assert(step.0 == sp + rest1.0);
            assert(s0 + sp + rest1.0 == s0 + (sp + rest1.0));
            let ap = if sp.len() == 0 && !sync_only {
                seq![ts[i as int]]
            } else {
                Seq::<Seq<char>>::empty()
            };
            assert(matched == (sp.len() > 0));
            assert(views(aur_pkgs@) == a0 + ap);
            assert(step.1 == ap + rest1.1);
            assert(a0 + ap + rest1.1 == a0 + (ap + rest1.1));
        }
        i = i + 1;
    }
    (sync_pkgs, aur_pkgs)
}

/// With `--needed`, a sync package is skipped when the installed version is not older.
/// `installed_not_older` is `None` when the package is not installed.
pub fn skip_as_needed(needed: bool, installed_not_older: Option<bool>) -> (b: bool)
    ensures
        b == (needed && installed_not_older == Some(true)),
{
    needed && match installed_not_older {
        Some(x) => x,
        None => false,
    }
}

/// `ti` and `tr` are what reconciling the installed packages with the desired ones gives:
/// the desired packages that are not installed, and the installed ones that are not
/// desired, each listed once.
pub open spec fn reconciled(
    desired: Seq<Seq<char>>,
    installed: Seq<Seq<char>>,
    ti: Seq<Seq<char>>,
    tr: Seq<Seq<char>>,
) -> bool {
    &&& ti.no_duplicates()
    &&& tr.no_duplicates()
    &&& forall|x: Seq<char>| #[trigger] ti.contains(x) <==> (desired.contains(x) && !installed.contains(x))
    &&& forall|x: Seq<char>| #[trigger] tr.contains(x) <==> (installed.contains(x) && !desired.contains(x))
}

/// The strings of `a` that `b` lacks, each once, in their order in `a`.
fn missing_from(a: &Vec<String>, b: &Vec<String>) -> (r: Vec<String>)
    ensures
        views(r@).no_duplicates(),
        forall|x: Seq<char>| #[trigger] views(r@).contains(x) <==> (views(a@).contains(x) && !views(
            b@,
        ).contains(x)),
{
    let mut out: Vec<String> = Vec::new();
    let mut i: usize = 0;
    while i < a.len()
        invariant
            i <= a.len(),
            views(out@).no_duplicates(),
            forall|x: Seq<char>| #[trigger] views(out@).contains(x) <==> (views(a@).take(i as int).contains(x)
                && !views(b@).contains(x)),
        decreases a.len() - i,
    {
        let ghost before = views(out@);
        let x = a[i].as_str();
        assert(views(a@)[i as int] == x@);
        assert(views(a@).take(i + 1) == views(a@).take(i as int).push(x@));
        let in_b = contains_str(b, x);
        let in_out = contains_str(&out, x);
        if !in_b && !in_out {
            out.push(a[i].clone());
            assert(views(out@) == before.push(x@));
            assert forall|y: Seq<char>| #[trigger] views(out@).contains(y) <==> (views(a@).take(i + 1).contains(y)
                && !views(b@).contains(y)) by {
                if views(out@).contains(y) && y != x@ {
                    let k = choose|k: int| 0 <= k < views(out@).len() && #[trigger] views(out@)[k] == y;
                    assert(before[k] == y);
                    assert(before.contains(y));
                    let k2 = choose|k2: int| 0 <= k2 < views(a@).take(i as int).len() && #[trigger] views(a@).take(i as int)[k2] == y;
                    assert(views(a@).take(i + 1)[k2] == y);
                }
                if views(a@).take(i + 1).contains(y) && y != x@ {
                    let k = choose|k: int| 0 <= k < views(a@).take(i + 1).len() && #[trigger] views(a@).take(i + 1)[k] == y;
                    assert(views(a@).take(i as int)[k] == y);
                    if !views(b@).contains(y) {
                        assert(before.contains(y));
                        let k3 = choose|k3: int| 0 <= k3 < before.len() && #[trigger] before[k3] == y;
                        assert(views(out@)[k3] == y);
                    }
                }
                if y == x@ {
                    assert(views(out@)[before.len() as int] == y);
                    assert(views(a@).take(i + 1)[i as int] == y);
                }
            }
        } else {
            assert forall|y: Seq<char>| #[trigger] views(out@).contains(y) <==> (views(a@).take(i + 1).contains(y)
                && !views(b@).contains(y)) by {
                if views(a@).take(i + 1).contains(y) && y != x@ {
                    let k = choose|k: int| 0 <= k < views(a@).take(i + 1).len() && #[trigger] views(a@).take(i + 1)[k] == y;
                    assert(views(a@).take(i as int)[k] == y);
                }
                if views(a@).take(i as int).contains(y) {
                    let k = choose|k: int| 0 <= k < views(a@).take(i as int).len() && #[trigger] views(a@).take(i as int)[k] == y;
                    assert(views(a@).take(i + 1)[k] == y);
                }
                if y == x@ {
                    assert(views(a@).take(i + 1)[i as int] == y);
                    if in_out {
                        assert(views(a@).take(i as int).contains(y) && !views(b@).contains(y));
                    }
                }
            }
        }
        i = i + 1;
    }
    assert(views(a@).take(a.len() as int) == views(a@));
    out
}

/// Compares the desired packages with the installed ones: what to install and what to
/// remove so that exactly the desired packages are installed.
pub fn reconcile(desired: &Vec<String>, installed: &Vec<String>) -> (r: (Vec<String>, Vec<String>))
    ensures
        reconciled(views(desired@), views(installed@), views(r.0@), views(r.1@)),
{
    let to_install = missing_from(desired, installed);
    let to_remove = missing_from(installed, desired);
    (to_install, to_remove)
}

/// Installing what reconciling gives and removing what it gives leaves exactly the desired
/// packages installed.
pub proof fn law_reconcile_reaches_desired(
    desired: Seq<Seq<char>>,
    installed: Seq<Seq<char>>,
    ti: Seq<Seq<char>>,
    tr: Seq<Seq<char>>,
)
    requires
        reconciled(desired, installed, ti, tr),
    ensures
        forall|x: Seq<char>| ((installed.contains(x) || ti.contains(x)) && !tr.contains(x)) <==> desired.contains(
            x,
        ),
        forall|x: Seq<char>| !(ti.contains(x) && tr.contains(x)),
        forall|x: Seq<char>| ti.contains(x) ==> !installed.contains(x),
{
}

/// When the installed packages are the desired ones, reconciling asks for nothing.
pub proof fn law_reconcile_in_desired_state(
    desired: Seq<Seq<char>>,
    installed: Seq<Seq<char>>,
    ti: Seq<Seq<char>>,
    tr: Seq<Seq<char>>,
)
    requires
        reconciled(desired, installed, ti, tr),
        forall|x: Seq<char>| desired.contains(x) <==> installed.contains(x),
    ensures
        ti.len() == 0,
        tr.len() == 0,
{
    if ti.len() > 0 {
        assert(ti.contains(ti[0]));
    }
    if tr.len() > 0 {
        assert(tr.contains(tr[0]));
    }
}

/// What `serde_json::from_str::<Vec<String>>` gives for the text of the state file: the
/// list of package names, or the error's message.
pub uninterp spec fn state_parse(text: Seq<char>) -> Result<Seq<Seq<char>>, Seq<char>>;

/// A parse result as values.
pub open spec fn state_view(r: Result<Vec<String>, String>) -> Result<Seq<Seq<char>>, Seq<char>> {
    match r {
        Ok(v) => Ok(views(v@)),
        Err(m) => Err(m@),
    }
}

/// `serde_json::from_str::<Vec<String>>` on the state file's text, taken on trust: the
/// result is what `state_parse` names, a JSON array of strings read into a list, and
/// otherwise the error's message (its `Display` form).
#[verifier::external_body]
fn parse_state_file(text: &str) -> (r: Result<Vec<String>, String>)
    ensures
        state_view(r) == state_parse(text@),
{
    match serde_json::from_str::<Vec<String>>(text) {
        Ok(v) => Ok(v),
        Err(e) => Err(e.to_string()),
    }
}

/// The message for a state file that does not parse.
pub open spec fn state_parse_message(m: Seq<char>) -> Seq<char> {
    "could not parse state file: "@ + m
}

/// What `--declarative` does with the parsed state file: for a list of names, what to
/// install and what to remove so that exactly those packages are installed; for a parse
/// error, the message to stop with.
pub fn plan_from_state(parsed: Result<Vec<String>, String>, installed: &Vec<String>) -> (r: Result<
    (Vec<String>, Vec<String>),
    String,
>)
    ensures
        match parsed {
            Ok(v) => r matches Ok(p) && reconciled(views(v@), views(installed@), views(p.0@), views(p.1@)),
            Err(m) => r matches Err(e) && e@ == state_parse_message(m@),
        },
{
    match parsed {
        Ok(v) => Ok(reconcile(&v, installed)),
        Err(m) => {
            let mut e = String::from_str("could not parse state file: ");
            e.append(m.as_str());
            Err(e)
        },
    }
}

/// `--declarative`'s plan from the text of the state file and the installed packages.
pub fn declarative_plan(text: &str, installed: &Vec<String>) -> (r: Result<(Vec<String>, Vec<String>), String>)
    ensures
        match state_parse(text@) {
            Ok(v) => r matches Ok(p) && reconciled(v, views(installed@), views(p.0@), views(p.1@)),
            Err(m) => r matches Err(e) && e@ == state_parse_message(m),
        },
{
    let parsed = parse_state_file(text);
    plan_from_state(parsed, installed)
}

/// The targets of `-R` that are not installed, in their order on the command line.
pub open spec fn missing_seq(targets: Seq<Seq<char>>, installed: Seq<Seq<char>>) -> Seq<Seq<char>>
    decreases targets.len(),
{
    if targets.len() == 0 {
        seq![]
    } else {
        let before = missing_seq(targets.drop_last(), installed);
        if installed.contains(targets.last()) {
            before
        } else {
            before.push(targets.last())
        }
    }
}

/// A target is reported missing exactly when it is not installed.
proof fn lemma_missing_members(targets: Seq<Seq<char>>, installed: Seq<Seq<char>>, x: Seq<char>)
    ensures
        missing_seq(targets, installed).contains(x) <==> (targets.contains(x) && !installed.contains(x)),
    decreases targets.len(),
{
    if targets.len() > 0 {
        let t = targets.drop_last();
        lemma_missing_members(t, installed, x);
        if t.contains(x) {
            let k = choose|k: int| 0 <= k < t.len() && t[k] == x;
            assert(targets[k] == x);
        }
        if targets.contains(x) && x != targets.last() {
            let k = choose|k: int| 0 <= k < targets.len() && targets[k] == x;
            assert(k != targets.len() - 1);
            assert(t[k] == x);
        }
        let b = missing_seq(t, installed);
        if !installed.contains(targets.last()) {
            let m = b.push(targets.last());
            assert(m[b.len() as int] == targets.last());
            if b.contains(x) {
                let k = choose|k: int| 0 <= k < b.len() && b[k] == x;
                assert(m[k] == x);
            }
            if m.contains(x) && x != targets.last() {
                let k = choose|k: int| 0 <= k < m.len() && m[k] == x;
                assert(b[k] == x);
            }
        }
        assert(targets[targets.len() - 1] == targets.last());
    }
}

/// The targets of `-R` that are not installed, in their order: each is reported and the
/// removal stops when there is any.
pub fn missing_targets(targets: &Vec<String>, installed: &Vec<String>) -> (r: Vec<String>)
    ensures
        views(r@) == missing_seq(views(targets@), views(installed@)),
        forall|x: Seq<char>|
            #[trigger] views(r@).contains(x) <==> (views(targets@).contains(x) && !views(installed@).contains(x)),
{
    let ghost ts = views(targets@);
    let mut out: Vec<String> = Vec::new();
    let mut i: usize = 0;
    assert(ts.take(0) == Seq::<Seq<char>>::empty());
    while i < targets.len()
        invariant
            i <= targets.len(),
            ts == views(targets@),
            views(out@) == missing_seq(ts.take(i as int), views(installed@)),
        decreases targets.len() - i,
    {
        assert(ts.take(i + 1).drop_last() == ts.take(i as int));
        assert(ts.take(i + 1).last() == targets@[i as int]@);
        if !contains_str(installed, targets[i].as_str()) {
            out.push(targets[i].clone());
        }
        i = i + 1;
    }
    assert(ts.take(targets.len() as int) == ts);
    proof {
        assert forall|x: Seq<char>|
            #[trigger] views(out@).contains(x) <==> (ts.contains(x) && !views(installed@).contains(x)) by {
            lemma_missing_members(ts, views(installed@), x);
        }
    }
    out
}

/// The message for a target of `-R` that is not installed.
pub fn target_not_found_message(name: &str) -> (r: String)
    ensures
        r@ == "target not found: "@ + name@,
{
    let mut r = String::from_str("target not found: ");
    r.append(name);
    r
}

/// The packages that a reconciliation never removes.
pub open spec fn protected_names() -> Seq<Seq<char>> {
    seq!["linux"@, "pacman"@, "glibc"@, "systemd"@, "bash"@]
}

/// The protected packages are exactly `linux`, `pacman`, `glibc`, `systemd` and `bash`.
pub proof fn law_protected_five(x: Seq<char>)
    ensures
        protected_names().contains(x) <==> (x == "linux"@ || x == "pacman"@ || x == "glibc"@ || x
            == "systemd"@ || x == "bash"@),
{
    let p = protected_names();
    if x == "linux"@ {
        assert(p[0] == x);
    } else if x == "pacman"@ {
        assert(p[1] == x);
    } else if x == "glibc"@ {
        assert(p[2] == x);
    } else if x == "systemd"@ {
        assert(p[3] == x);
    } else if x == "bash"@ {
        assert(p[4] == x);
    }
}

/// Whether a reconciliation refuses to remove `name`.
pub fn is_protected(name: &str) -> (b: bool)
    ensures
        b == protected_names().contains(name@),
        b == (name@ == "linux"@ || name@ == "pacman"@ || name@ == "glibc"@ || name@ == "systemd"@
            || name@ == "bash"@),
{
    proof {
        law_protected_five(name@);
    }
    let b = str_eq(name, "linux") || str_eq(name, "pacman") || str_eq(name, "glibc") || str_eq(
        name,
        "systemd",
    ) || str_eq(name, "bash");
    proof {
        let p = protected_names();
        if b {
            if name@ == "linux"@ {
                assert(p[0] == name@);
            } else if name@ == "pacman"@ {
                assert(p[1] == name@);
            } else if name@ == "glibc"@ {
                assert(p[2] == name@);
            } else if name@ == "systemd"@ {
                assert(p[3] == name@);
            } else {
                assert(p[4] == name@);
            }
        }
    }
    b
}

/// The first package of `to_remove` that is protected, if any.
pub fn protected_removal(to_remove: &Vec<String>) -> (r: Option<usize>)
    ensures
        match r {
            Some(i) => i < to_remove.len() && protected_names().contains(to_remove@[i as int]@) && forall|
                k: int,
            | 0 <= k < i ==> !protected_names().contains(#[trigger] to_remove@[k]@),
            None => forall|k: int|
                0 <= k < to_remove.len() ==> !protected_names().contains(#[trigger] to_remove@[k]@),
        },
{
    let mut i: usize = 0;
    while i < to_remove.len()
        invariant
            i <= to_remove.len(),
            forall|k: int| 0 <= k < i ==> !protected_names().contains(#[trigger] to_remove@[k]@),
        decreases to_remove.len() - i,
    {
        if is_protected(to_remove[i].as_str()) {
            return Some(i);
        }
        i = i + 1;
    }
    None
}

/// A dependency graph of installed packages as values: each entry is a package and the
/// packages that require it.
pub open spec fn graph_view(g: Seq<(String, Vec<String>)>) -> Seq<(Seq<char>, Seq<Seq<char>>)> {
    g.map_values(|e: (String, Vec<String>)| (e.0@, views(e.1@)))
}

/// The packages that require `name` according to the graph (its first entry of that name);
/// none when the graph has no entry for it.
pub open spec fn required_by_of(g: Seq<(Seq<char>, Seq<Seq<char>>)>, name: Seq<char>) -> Seq<Seq<char>>
    decreases g.len(),
{
    if g.len() == 0 {
        seq![]
    } else if g[0].0 == name {
        g[0].1
    } else {
        required_by_of(g.drop_first(), name)
    }
}

/// Every package that the graph names as requiring another.
pub open spec fn graph_names(g: Seq<(Seq<char>, Seq<Seq<char>>)>) -> Set<Seq<char>>
    decreases g.len(),
{
    if g.len() == 0 {
        Set::empty()
    } else {
        g[0].1.to_set().union(graph_names(g.drop_first()))
    }
}

proof fn lemma_graph_names(g: Seq<(Seq<char>, Seq<Seq<char>>)>, name: Seq<char>, d: Seq<char>)
    requires
        required_by_of(g, name).contains(d),
    ensures
        graph_names(g).contains(d),
    decreases g.len(),
{
    if g[0].0 != name {
        lemma_graph_names(g.drop_first(), name, d);
    }
}

proof fn lemma_graph_names_finite(g: Seq<(Seq<char>, Seq<Seq<char>>)>)
    ensures
        graph_names(g).finite(),
    decreases g.len(),
{
    if g.len() > 0 {
        lemma_graph_names_finite(g.drop_first());
        vstd::seq_lib::seq_to_set_is_finite(g[0].1);
    }
}

/// `r` lists what removing `start` with `--cascade` removes: `start` first, each package
/// once, every package that requires a listed one listed too, and each listed package after
/// `start` required by one listed before it.
pub open spec fn is_cascade(start: Seq<char>, g: Seq<(Seq<char>, Seq<Seq<char>>)>, r: Seq<Seq<char>>) -> bool {
    &&& r.len() > 0
    &&& r[0] == start
    &&& r.no_duplicates()
    &&& forall|i: int, d: Seq<char>|
        0 <= i < r.len() && #[trigger] required_by_of(g, r[i]).contains(d) ==> r.contains(d)
    &&& exists|parent: Seq<int>| #[trigger] grounded_by(g, r, parent)
}

/// `parent[i]` names, for each listed package after the first, one listed before it that it
/// requires.
pub open spec fn grounded_by(g: Seq<(Seq<char>, Seq<Seq<char>>)>, r: Seq<Seq<char>>, parent: Seq<int>) -> bool {
    &&& parent.len() == r.len()
    &&& forall|i: int|
        #![trigger parent[i]]
        1 <= i < r.len() ==> 0 <= parent[i] < i && required_by_of(g, r[parent[i]]).contains(r[i])
}

/// The packages listed from index `lo` on were added as requiring `deps`'s owner, whose
/// index is `k`.
spec fn added_for(parent: Seq<int>, r: Seq<Seq<char>>, lo: int, k: int, deps: Seq<Seq<char>>) -> bool {
    forall|i: int| #![trigger parent[i]] lo <= i < r.len() ==> parent[i] == k && deps.contains(r[i])
}

/// The index of the graph entry for `name`, if there is one.
fn find_entry(g: &Vec<(String, Vec<String>)>, name: &str) -> (r: Option<usize>)
    ensures
        match r {
            Some(i) => i < g.len() && required_by_of(graph_view(g@), name@) == views(g@[i as int].1@),
            None => required_by_of(graph_view(g@), name@) == Seq::<Seq<char>>::empty(),
        },
{
    let ghost gv = graph_view(g@);
    let mut i: usize = 0;
    assert(gv.skip(0) == gv);
    while i < g.len()
        invariant
            i <= g.len(),
            gv == graph_view(g@),
            required_by_of(gv, name@) == required_by_of(gv.skip(i as int), name@),
        decreases g.len() - i,
    {
        assert(gv.skip(i as int)[0] == gv[i as int]);
        assert(gv.skip(i as int).drop_first() == gv.skip(i + 1));
        if str_eq(g[i].0.as_str(), name) {
            return Some(i);
        }
        i = i + 1;
    }
    None
}

/// What removing `start` with `--cascade` removes: `start` and, again and again, every
/// package that requires one already taken. `graph` gives for each installed package the
/// packages that require it.
#[verifier::spinoff_prover]
pub fn cascade_closure(start: &str, graph: &Vec<(String, Vec<String>)>) -> (r: Vec<String>)
    ensures
        is_cascade(start@, graph_view(graph@), views(r@)),
{
    let ghost gv = graph_view(graph@);
    let ghost univ = graph_names(gv).insert(start@);
    proof {
        lemma_graph_names_finite(gv);
    }
    let mut r: Vec<String> = Vec::new();
    r.push(String::from_str(start));
    assert(views(r@) == seq![start@]);
    let ghost mut parent: Seq<int> = seq![0];
    let mut k: usize = 0;
    while k < r.len()
        invariant
            gv == graph_view(graph@),
            univ == graph_names(gv).insert(start@),
            univ.finite(),
            k <= r.len(),
            r.len() > 0,
            parent.len() == r.len(),
            views(r@)[0] == start@,
            views(r@).no_duplicates(),
            forall|x: Seq<char>| views(r@).contains(x) ==> univ.contains(x),
            forall|j: int, d: Seq<char>|
                0 <= j < k && #[trigger] required_by_of(gv, views(r@)[j]).contains(d) ==> views(r@).contains(d),
            forall|i: int|
                #![trigger parent[i]]
                1 <= i < r.len() ==> 0 <= parent[i] < i && required_by_of(gv, views(r@)[parent[i]]).contains(
                    views(r@)[i],
                ),
        decreases univ.len() - k,
    {
        proof {
            views(r@).unique_seq_to_set();
            assert(views(r@).to_set().subset_of(univ));
            vstd::set_lib::lemma_len_subset(views(r@).to_set(), univ);
        }
        let ghost old_r = views(r@);
        let ghost old_parent = parent;
        let ghost cur = old_r[k as int];
        assert(cur == r@[k as int]@);
        match find_entry(graph, r[k].as_str()) {
            None => {},
            Some(e) => {
                let ds = &graph[e].1;
                assert(required_by_of(gv, cur) == views(ds@));
                let mut m: usize = 0;
                while m < ds.len()
                    invariant
                        gv == graph_view(graph@),
                        univ == graph_names(gv).insert(start@),
                        k < old_r.len() <= r.len(),
                        old_parent.len() == old_r.len(),
                        parent.len() == r.len(),
                        cur == old_r[k as int],
                        required_by_of(gv, cur) == views(ds@),
                        m <= ds.len(),
                        forall|i: int| 0 <= i < old_r.len() ==> views(r@)[i] == old_r[i],
                        forall|i: int| 0 <= i < old_r.len() ==> parent[i] == old_parent[i],
                        views(r@).no_duplicates(),
                        forall|x: Seq<char>| views(r@).contains(x) ==> univ.contains(x),
                        forall|q: int| 0 <= q < m ==> views(r@).contains(#[trigger] views(ds@)[q]),
                        added_for(parent, views(r@), old_r.len() as int, k as int, required_by_of(gv, cur)),
                    decreases ds.len() - m,
                {
                    let d = ds[m].as_str();
                    assert(views(ds@)[m as int] == d@);
                    if !contains_str(&r, d) {
                        let ghost before = views(r@);
                        let ghost old_parent_in = parent;
                        assert(added_for(old_parent_in, before, old_r.len() as int, k as int, required_by_of(gv, cur)));
                        r.push(ds[m].clone());
                        proof {
                            parent = parent.push(k as int);
                        }
                        assert(views(r@) == before.push(d@));
                        proof {
                            assert(required_by_of(gv, cur).contains(d@));
                            lemma_graph_names(gv, cur, d@);
                            assert forall|x: Seq<char>| views(r@).contains(x) implies univ.contains(x) by {
                                if x != d@ {
                                    let w = choose|w: int| 0 <= w < views(r@).len() && #[trigger] views(r@)[w] == x;
                                    assert(before[w] == x);
                                }
                            }
                            assert forall|q: int| 0 <= q < m + 1 implies views(r@).contains(
                                #[trigger] views(ds@)[q],
                            ) by {
                                if q < m {
                                    let w = choose|w: int| 0 <= w < before.len() && #[trigger] before[w] == views(ds@)[q];
                                    assert(views(r@)[w] == views(ds@)[q]);
                                } else {
                                    assert(views(r@)[before.len() as int] == d@);
                                }
                            }
                            assert(added_for(parent, views(r@), old_r.len() as int, k as int, required_by_of(gv, cur)))
                                by {
                                assert forall|i: int|
                                    #![trigger parent[i]]
                                    old_r.len() <= i < views(r@).len() implies parent[i] == k && required_by_of(
                                        gv,
                                        cur,
                                    ).contains(views(r@)[i]) by {
                                    if i < before.len() {
                                        assert(views(r@)[i] == before[i]);
                                        assert(parent[i] == old_parent_in[i]);
                                    }
                                }
                            }
                        }
                    } else {
                        assert forall|q: int| 0 <= q < m + 1 implies views(r@).contains(
                            #[trigger] views(ds@)[q],
                        ) by {}
                    }
                    m = m + 1;
                }
            },
        }
        proof {
            let nr = views(r@);
            assert(nr[0] == start@);
            assert forall|j: int, d: Seq<char>|
                0 <= j < k + 1 && #[trigger] required_by_of(gv, nr[j]).contains(d) implies nr.contains(d) by {
                if j < k {
                    assert(nr[j] == old_r[j]);
                    assert(old_r.contains(d));
                    let w = choose|w: int| 0 <= w < old_r.len() && #[trigger] old_r[w] == d;
                    assert(nr[w] == d);
                } else {
                    assert(nr[j] == cur);
                    let q = choose|q: int| 0 <= q < required_by_of(gv, cur).len() && #[trigger] required_by_of(gv, cur)[q] == d;
                }
            }
            assert forall|i: int|
                #![trigger parent[i]]
                1 <= i < nr.len() implies 0 <= parent[i] < i && required_by_of(gv, nr[parent[i]]).contains(nr[i]) by {
                if i < old_r.len() {
                    assert(nr[i] == old_r[i]);
                    assert(parent[i] == old_parent[i]);
                    assert(0 <= old_parent[i] < i && required_by_of(gv, old_r[old_parent[i]]).contains(old_r[i]));
                    assert(nr[parent[i]] == old_r[old_parent[i]]);
                } else {
                    assert(nr[k as int] == cur);
                    if old_r.len() < r.len() {
                        assert(added_for(parent, nr, old_r.len() as int, k as int, required_by_of(gv, cur)));
                    }
                }
            }
        }
        k = k + 1;
    }
    assert(grounded_by(gv, views(r@), parent));
    r
}

/// What a cascade removes is the least set that holds `start` and every package requiring
/// one of its members: any such set holds all of it.
pub proof fn law_cascade_least(
    start: Seq<char>,
    g: Seq<(Seq<char>, Seq<Seq<char>>)>,
    r: Seq<Seq<char>>,
    s: Set<Seq<char>>,
)
    requires
        is_cascade(start, g, r),
        s.contains(start),
        forall|x: Seq<char>, d: Seq<char>| s.contains(x) && #[trigger] required_by_of(g, x).contains(d) ==> s.contains(d),
    ensures
        forall|i: int| 0 <= i < r.len() ==> s.contains(#[trigger] r[i]),
{
    assert forall|i: int| 0 <= i < r.len() implies s.contains(#[trigger] r[i]) by {
        lemma_cascade_member(start, g, r, s, i);
    }
}

proof fn lemma_cascade_member(
    start: Seq<char>,
    g: Seq<(Seq<char>, Seq<Seq<char>>)>,
    r: Seq<Seq<char>>,
    s: Set<Seq<char>>,
    i: int,
)
    requires
        is_cascade(start, g, r),
        s.contains(start),
        forall|x: Seq<char>, d: Seq<char>| s.contains(x) && #[trigger] required_by_of(g, x).contains(d) ==> s.contains(d),
        0 <= i < r.len(),
    ensures
        s.contains(r[i]),
    decreases i,
{
    if i > 0 {
        let parent = choose|parent: Seq<int>| #[trigger] grounded_by(g, r, parent);
        let j = parent[i];
        lemma_cascade_member(start, g, r, s, j);
    }
}

/// A cascade removes every package that requires, directly or through others, the
/// package it starts from: whatever requires a removed package is removed.
pub proof fn law_cascade_closed(
    start: Seq<char>,
    g: Seq<(Seq<char>, Seq<Seq<char>>)>,
    r: Seq<Seq<char>>,
    x: Seq<char>,
    d: Seq<char>,
)
    requires
        is_cascade(start, g, r),
        r.contains(x),
        required_by_of(g, x).contains(d),
    ensures
        r.contains(d),
{
    let i = choose|i: int| 0 <= i < r.len() && r[i] == x;
    assert(required_by_of(g, r[i]).contains(d));
}

/// What `--print-format` shows of a package.
pub struct PkgFields {
    pub name: String,
    pub version: String,
    /// Installed size in bytes.
    pub isize: i64,
    pub arch: Option<String>,
    pub desc: Option<String>,
}

/// An optional text, or a dash when there is none.
pub open spec fn or_dash(o: Option<String>) -> Seq<char> {
    match o {
        Some(s) => s@,
        None => "—"@,
    }
}

/// The text, or a dash.
fn or_dash_exec(o: &Option<String>) -> (r: String)
    ensures
        r@ == or_dash(*o),
{
    match o {
        Some(s) => s.clone(),
        None => String::from_str("—"),
    }
}

/// The `--print-format` line of a package: `%n` name, `%v` version, `%s` size, `%a`
/// architecture and `%l` description filled in, in that order.
pub open spec fn format_pkg_seq(fmt: Seq<char>, p: PkgFields) -> Seq<char> {
    let a = replace_seq(fmt, "%n"@, p.name@);
    let b = replace_seq(a, "%v"@, p.version@);
    let c = replace_seq(b, "%s"@, human_size_seq(p.isize as int));
    let d = replace_seq(c, "%a"@, or_dash(p.arch));
    replace_seq(d, "%l"@, or_dash(p.desc))
}

/// Fills the fields of a package into a `--print-format` string.
pub fn format_pkg(fmt: &str, p: &PkgFields) -> (r: String)
    ensures
        r@ == format_pkg_seq(fmt@, *p),
{
    proof {
        reveal_strlit("%n");
        reveal_strlit("%v");
        reveal_strlit("%s");
        reveal_strlit("%a");
        reveal_strlit("%l");
    }
    let a = replace(fmt, "%n", p.name.as_str());
    let b = replace(a.as_str(), "%v", p.version.as_str());
    let hs = human_size(p.isize);
    let c = replace(b.as_str(), "%s", hs.as_str());
    let ar = or_dash_exec(&p.arch);
    let d = replace(c.as_str(), "%a", ar.as_str());
    let ds = or_dash_exec(&p.desc);
    replace(d.as_str(), "%l", ds.as_str())
}

/// The printed `--print-format` line: as `format_pkg`, and where `%r` remains, the
/// repository that holds the package (or `unknown`).
pub open spec fn print_format_seq(fmt: Seq<char>, p: PkgFields, repo: Option<Seq<char>>) -> Seq<char> {
    let line = format_pkg_seq(fmt, p);
    if contains_seq(line, "%r"@) {
        replace_seq(line, "%r"@, match repo {
            Some(r) => r,
            None => "unknown"@,
        })
    } else {
        line
    }
}

/// The `--print-format` line of a package held by the repository `repo`.
pub fn print_format_line(fmt: &str, p: &PkgFields, repo: Option<String>) -> (r: String)
    ensures
        r@ == print_format_seq(fmt@, *p, match repo { Some(x) => Some(x@), None => None }),
{
    let line = format_pkg(fmt, p);
    if contains(line.as_str(), "%r") {
        proof {
            reveal_strlit("%r");
        }
        let rp = match repo {
            Some(x) => x,
            None => String::from_str("unknown"),
        };
        replace(line.as_str(), "%r", rp.as_str())
    } else {
        line
    }
}

/// A package that a transaction installs.
pub struct AddEntry {
    pub name: String,
    pub version: String,
    /// Installed size in bytes.
    pub isize: i64,
    /// Download size in bytes.
    pub download_size: i64,
    /// The version and installed size of the package it upgrades, if it is installed.
    pub installed: Option<(String, i64)>,
}

/// A package that a transaction removes.
pub struct RemoveEntry {
    pub name: String,
    pub version: String,
    /// Installed size in bytes.
    pub isize: i64,
}

/// The installed size of what an entry replaces (nothing: 0).
pub open spec fn old_size(e: AddEntry) -> int {
    match e.installed {
        Some(x) => x.1 as int,
        None => 0,
    }
}

/// Total download size.
pub open spec fn sum_download(s: Seq<AddEntry>) -> int
    decreases s.len(),
{
    if s.len() == 0 {
        0
    } else {
        sum_download(s.drop_last()) + s.last().download_size
    }
}

/// Total installed size.
pub open spec fn sum_installed(s: Seq<AddEntry>) -> int
    decreases s.len(),
{
    if s.len() == 0 {
        0
    } else {
        sum_installed(s.drop_last()) + s.last().isize
    }
}

/// Net change of installed size.
pub open spec fn sum_net(s: Seq<AddEntry>) -> int
    decreases s.len(),
{
    if s.len() == 0 {
        0
    } else {
        sum_net(s.drop_last()) + (s.last().isize - old_size(s.last()))
    }
}

/// Adding a package to the transaction adds its download size to the download total, its
/// installed size to the installed total, and to the net size its installed size less that of
/// the version it replaces, so that a package not yet installed adds its whole size.
pub proof fn law_sizes_step(s: Seq<AddEntry>, e: AddEntry)
    ensures
        sum_download(s.push(e)) == sum_download(s) + e.download_size,
        sum_installed(s.push(e)) == sum_installed(s) + e.isize,
        sum_net(s.push(e)) == sum_net(s) + e.isize - (match e.installed {
            Some(x) => x.1 as int,
            None => 0int,
        }),
{
    assert(s.push(e).drop_last() =~= s);
}

/// When no package of the transaction is installed yet, the net size is the whole
/// installed size.
pub proof fn law_net_of_new_packages(s: Seq<AddEntry>)
    requires
        forall|i: int| 0 <= i < s.len() ==> (#[trigger] s[i]).installed is None,
    ensures
        sum_net(s) == sum_installed(s),
    decreases s.len(),
{
    if s.len() > 0 {
        let t = s.drop_last();
        assert forall|i: int| 0 <= i < t.len() implies (#[trigger] t[i]).installed is None by {
            assert(t[i] == s[i]);
        }
        law_net_of_new_packages(t);
        assert(s[s.len() - 1] == s.last());
    }
}

/// Total installed size of what is removed.
pub open spec fn sum_removed(s: Seq<RemoveEntry>) -> int
    decreases s.len(),
{
    if s.len() == 0 {
        0
    } else {
        sum_removed(s.drop_last()) + s.last().isize
    }
}

pub open spec fn fits_i64(x: int) -> bool {
    i64::MIN <= x <= i64::MAX
}

/// The sizes of the packages to install add up without leaving `i64` at any step.
pub open spec fn add_sums_fit(s: Seq<AddEntry>) -> bool {
    &&& forall|k: int| 0 <= k <= s.len() ==> fits_i64(#[trigger] sum_download(s.take(k)))
    &&& forall|k: int| 0 <= k <= s.len() ==> fits_i64(#[trigger] sum_installed(s.take(k)))
    &&& forall|k: int| 0 <= k <= s.len() ==> fits_i64(#[trigger] sum_net(s.take(k)))
    &&& forall|k: int| 0 <= k < s.len() ==> fits_i64(#[trigger] s[k].isize - old_size(s[k]))
}

/// The heading of a list of `n` packages, as `prefix` with the count.
pub open spec fn count_heading(plain: bool, color: Seq<char>, word: Seq<char>, n: nat) -> Seq<char> {
    if plain {
        "\n  "@ + word + " ("@ + dec_seq(n) + "):"@
    } else {
        "\n  "@ + color + BOLD@ + word + " ("@ + dec_seq(n) + "):"@ + RST@
    }
}

fn count_heading_exec(plain: bool, color: &str, word: &str, n: usize) -> (r: String)
    ensures
        r@ == count_heading(plain, color@, word@, n as nat),
{
    let d = decimal(n as u64);
    if plain {
        let mut r = String::from_str("\n  ");
        r.append(word);
        r.append(" (");
        r.append(d.as_str());
        r.append("):");
        r
    } else {
        let mut r = String::from_str("\n  ");
        r.append(color);
        r.append(BOLD);
        r.append(word);
        r.append(" (");
        r.append(d.as_str());
        r.append("):");
        r.append(RST);
        r
    }
}

/// The summary line of a package to install: upgrades show the old version.
pub open spec fn add_line(e: AddEntry, plain: bool) -> Seq<char> {
    let hs = human_size_seq(e.isize as int);
    if plain {
        let ver = match e.installed {
            Some(x) => " "@ + x.0@ + " -> "@ + e.version@,
            None => " "@ + e.version@,
        };
        "    "@ + e.name@ + " "@ + e.version@ + ": "@ + hs + "  "@ + ver
    } else {
        let up = e.installed is Some;
        let col = if up { BLUE@ } else { GREEN@ };
        let sym = if up { "⟳"@ } else { "↑"@ };
        let ver = match e.installed {
            Some(x) => " "@ + DIM@ + x.0@ + " → "@ + e.version@ + RST@,
            None => " "@ + DIM@ + e.version@ + RST@,
        };
        "    "@ + col + sym + RST@ + " "@ + TEXT@ + pad_seq(e.name@, 30) + RST@ + ver + "  "@ + SUBTEXT1@
            + hs + RST@
    }
}

fn add_line_exec(e: &AddEntry, plain: bool) -> (r: String)
    ensures
        r@ == add_line(*e, plain),
{
    let hs = human_size(e.isize);
    if plain {
        let mut r = String::from_str("    ");
        r.append(e.name.as_str());
        r.append(" ");
        r.append(e.version.as_str());
        r.append(": ");
        r.append(hs.as_str());
        r.append("  ");
        r.append(" ");
        match &e.installed {
            Some(x) => {
                r.append(x.0.as_str());
                r.append(" -> ");
                r.append(e.version.as_str());
            },
            None => {
                r.append(e.version.as_str());
            },
        }
        r
    } else {
        let mut r = String::from_str("    ");
        match &e.installed {
            Some(_) => {
                r.append(BLUE);
                r.append("⟳");
            },
            None => {
                r.append(GREEN);
                r.append("↑");
            },
        }
        r.append(RST);
        r.append(" ");
        r.append(TEXT);
        push_padded(&mut r, e.name.as_str(), 30);
        r.append(RST);
        r.append(" ");
        r.append(DIM);
        match &e.installed {
            Some(x) => {
                r.append(x.0.as_str());
                r.append(" → ");
                r.append(e.version.as_str());
            },
            None => {
                r.append(e.version.as_str());
            },
        }
        r.append(RST);
        r.append("  ");
        r.append(SUBTEXT1);
        r.append(hs.as_str());
        r.append(RST);
        r
    }
}

/// The summary line of a package to remove.
pub open spec fn remove_line(e: RemoveEntry, plain: bool) -> Seq<char> {
    if plain {
        "    - "@ + e.name@ + ": "@ + e.version@
    } else {
        "    "@ + RED@ + "✕"@ + RST@ + " "@ + TEXT@ + pad_seq(e.name@, 30) + RST@ + " "@ + DIM@ + e.version@
            + RST@
    }
}

fn remove_line_exec(e: &RemoveEntry, plain: bool) -> (r: String)
    ensures
        r@ == remove_line(*e, plain),
{
    if plain {
        let mut r = String::from_str("    - ");
        r.append(e.name.as_str());
        r.append(": ");
        r.append(e.version.as_str());
        r
    } else {
        let mut r = String::from_str("    ");
        r.append(RED);
        r.append("✕");
        r.append(RST);
        r.append(" ");
        r.append(TEXT);
        push_padded(&mut r, e.name.as_str(), 30);
        r.append(RST);
        r.append(" ");
        r.append(DIM);
        r.append(e.version.as_str());
        r.append(RST);
        r
    }
}

/// A line of totals: its label and a size.
pub open spec fn total_line(plain: bool, label: Seq<char>, bytes: int) -> Seq<char> {
    if plain {
        "  "@ + label + human_size_seq(bytes)
    } else {
        "  "@ + ROSEWATER@ + label + human_size_seq(bytes) + RST@
    }
}

fn total_line_exec(plain: bool, label: &str, bytes: i64) -> (r: String)
    ensures
        r@ == total_line(plain, label@, bytes as int),
{
    let hs = human_size(bytes);
    let mut r = String::from_str("  ");
    if !plain {
        r.append(ROSEWATER);
    }
    r.append(label);
    r.append(hs.as_str());
    if !plain {
        r.append(RST);
    }
    r
}

/// The lines that list the packages to remove, under their heading.
pub open spec fn removal_block(rem: Seq<RemoveEntry>, plain: bool) -> Seq<Seq<char>> {
    seq![count_heading(plain, RED@, "removing"@, rem.len())] + rem.map_values(
        |e: RemoveEntry| remove_line(e, plain),
    )
}

fn removal_block_exec(out: &mut Vec<String>, rem: &Vec<RemoveEntry>, plain: bool)
    ensures
        views(final(out)@) == views(old(out)@) + removal_block(rem@, plain),
{
    let ghost base = views(out@);
    out.push(count_heading_exec(plain, RED, "removing", rem.len()));
    let mut i: usize = 0;
    while i < rem.len()
        invariant
            i <= rem.len(),
            views(out@) == base + seq![count_heading(plain, RED@, "removing"@, rem@.len())] + rem@.take(
                i as int,
            ).map_values(|e: RemoveEntry| remove_line(e, plain)),
        decreases rem.len() - i,
    {
        let ghost before = views(out@);
        let l = remove_line_exec(&rem[i], plain);
        out.push(l);
        assert(views(out@) == before.push(l@));
        assert(rem@.take(i + 1).map_values(|e: RemoveEntry| remove_line(e, plain)) == rem@.take(
            i as int,
        ).map_values(|e: RemoveEntry| remove_line(e, plain)).push(remove_line(rem@[i as int], plain)));
        i = i + 1;
    }
    assert(rem@.take(rem.len() as int) == rem@);
}

/// The lines that summarize a transaction before it is confirmed: the packages to install
/// with the totals, then those to remove, then an empty line.
pub open spec fn sync_summary_seq(add: Seq<AddEntry>, rem: Seq<RemoveEntry>, plain: bool) -> Seq<Seq<char>> {
    let adds = if add.len() == 0 {
        seq![]
    } else {
        let dl = sum_download(add);
        let inst = sum_installed(add);
        let net = sum_net(add);
        seq![count_heading(plain, MAUVE@, "packages"@, add.len())] + add.map_values(
            |e: AddEntry| add_line(e, plain),
        ) + seq![""@, total_line(plain, "total download size:   "@, dl), total_line(
            plain,
            "total installed size:  "@,
            inst,
        )] + if net != inst {
            seq![total_line(plain, "net upgrade size:      "@, net)]
        } else {
            seq![]
        }
    };
    let rems = if rem.len() == 0 {
        seq![]
    } else {
        removal_block(rem, plain)
    };
    adds + rems + seq![""@]
}

/// Under the package lines of a summary come a blank line, the total download size, the
/// total installed size and, when it differs from the installed size, the net upgrade size,
/// each labelled as what it is.
pub proof fn law_summary_totals(add: Seq<AddEntry>, rem: Seq<RemoveEntry>, plain: bool)
    requires
        add.len() > 0,
    ensures
        sync_summary_seq(add, rem, plain)[add.len() + 1int] == Seq::<char>::empty(),
        sync_summary_seq(add, rem, plain)[add.len() + 2int] == total_line(plain, "total download size:   "@, sum_download(add)),
        sync_summary_seq(add, rem, plain)[add.len() + 3int] == total_line(plain, "total installed size:  "@, sum_installed(add)),
        sum_net(add) != sum_installed(add) ==> sync_summary_seq(add, rem, plain)[add.len() + 4int] == total_line(
            plain,
            "net upgrade size:      "@,
            sum_net(add),
        ),
{
    let dl: int = sum_download(add);
    let inst: int = sum_installed(add);
    let net: int = sum_net(add);
    let head = seq![count_heading(plain, MAUVE@, "packages"@, add.len())] + add.map_values(
        |e: AddEntry| add_line(e, plain),
    );
    let tot = seq![""@, total_line(plain, "total download size:   "@, dl), total_line(
        plain,
        "total installed size:  "@,
        inst,
    )];
    let netl: Seq<Seq<char>> = if net != inst {
        seq![total_line(plain, "net upgrade size:      "@, net)]
    } else {
        seq![]
    };
    let adds = head + tot + netl;
    let rems = if rem.len() == 0 {
        seq![]
    } else {
        removal_block(rem, plain)
    };
    assert(sync_summary_seq(add, rem, plain) == adds + rems + seq![""@]);
    assert(head.len() == add.len() + 1);
    assert((adds + rems + seq![""@])[add.len() + 1int] == tot[0]);
    assert((adds + rems + seq![""@])[add.len() + 2int] == tot[1]);
    assert((adds + rems + seq![""@])[add.len() + 3int] == tot[2]);
    if net != inst {
        assert((adds + rems + seq![""@])[add.len() + 4int] == netl[0]);
    }
    reveal_strlit("");
}

/// The lines that summarize a transaction (each printed as a line of its own); none when
/// the `show_summary` setting is off.
pub fn sync_summary(add: &Vec<AddEntry>, rem: &Vec<RemoveEntry>, cfg: &ResolvedConfig) -> (r: Vec<String>)
    requires
        add_sums_fit(add@),
    ensures
        views(r@) == (if cfg.behavior.show_summary {
            sync_summary_seq(add@, rem@, cfg.plain)
        } else {
            seq![]
        }),
{
    let plain = cfg.plain;
    let mut out: Vec<String> = Vec::new();
    if !cfg.behavior.show_summary {
        assert(views(out@) == Seq::<Seq<char>>::empty());
        return out;
    }
    if add.len() > 0 {
        out.push(count_heading_exec(plain, MAUVE, "packages", add.len()));
        let mut dl: i64 = 0;
        let mut inst: i64 = 0;
        let mut net: i64 = 0;
        let ghost head = views(out@);
        let mut i: usize = 0;
        while i < add.len()
            invariant
                i <= add.len(),
                add_sums_fit(add@),
                dl == sum_download(add@.take(i as int)),
                inst == sum_installed(add@.take(i as int)),
                net == sum_net(add@.take(i as int)),
                views(out@) == head + add@.take(i as int).map_values(|e: AddEntry| add_line(e, plain)),
            decreases add.len() - i,
        {
            let e = &add[i];
            let ghost before = views(out@);
            let l = add_line_exec(e, plain);
            out.push(l);
            assert(views(out@) == before.push(l@));
            assert(add@.take(i + 1).map_values(|e: AddEntry| add_line(e, plain)) == add@.take(
                i as int,
            ).map_values(|e: AddEntry| add_line(e, plain)).push(add_line(add@[i as int], plain)));
            let old_sz: i64 = match &e.installed {
                Some(x) => x.1,
                None => 0,
            };
            assert(add@.take(i + 1).drop_last() == add@.take(i as int));
            assert(fits_i64(sum_download(add@.take(i + 1))));
            assert(fits_i64(sum_installed(add@.take(i + 1))));
            assert(fits_i64(sum_net(add@.take(i + 1))));
            assert(fits_i64(add@[i as int].isize - old_size(add@[i as int])));
            dl = dl + e.download_size;
            inst = inst + e.isize;
            net = net + (e.isize - old_sz);
            i = i + 1;
        }
        assert(add@.take(add.len() as int) == add@);
        let ghost listed = views(out@);
        let e0 = String::from_str("");
        let t1 = total_line_exec(plain, "total download size:   ", dl);
        let t2 = total_line_exec(plain, "total installed size:  ", inst);
        out.push(e0);
        out.push(t1);
        out.push(t2);
        assert(views(out@) == listed + seq![e0@, t1@, t2@]);
        if net != inst {
            let t3 = total_line_exec(plain, "net upgrade size:      ", net);
            out.push(t3);
            assert(views(out@) == listed + seq![e0@, t1@, t2@] + seq![t3@]);
        } else {
            assert(views(out@) == listed + seq![e0@, t1@, t2@] + Seq::<Seq<char>>::empty());
        }
    } else {
        assert(views(out@) == Seq::<Seq<char>>::empty());
    }
    let ghost adds = views(out@);
    if rem.len() > 0 {
        removal_block_exec(&mut out, rem, plain);
    } else {
        assert(views(out@) == adds + Seq::<Seq<char>>::empty());
    }
    let ghost both = views(out@);
    let e = String::from_str("");
    out.push(e);
    assert(views(out@) == both + seq![e@]);
    out
}

/// The removed packages' sizes add up without leaving `i64` at any step.
pub open spec fn removed_sum_fits(s: Seq<RemoveEntry>) -> bool {
    forall|k: int| 0 <= k <= s.len() ==> fits_i64(#[trigger] sum_removed(s.take(k)))
}

/// The summary of a removal: `None` when nothing is removed (which is warned about);
/// otherwise the packages, the space freed, and an empty line.
pub open spec fn remove_summary_seq(rem: Seq<RemoveEntry>, plain: bool) -> Option<Seq<Seq<char>>> {
    if rem.len() == 0 {
        None
    } else {
        let freed = human_size_seq(sum_removed(rem));
        let freed_line = if plain {
            "\n  freed space: "@ + freed
        } else {
            "\n  "@ + ROSEWATER@ + "freed space: "@ + freed + RST@
        };
        Some(removal_block(rem, plain) + seq![freed_line, ""@])
    }
}

/// The lines that summarize a removal; none (but not `None`) when the `show_summary`
/// setting is off.
pub fn remove_summary(rem: &Vec<RemoveEntry>, cfg: &ResolvedConfig) -> (r: Option<Vec<String>>)
    requires
        removed_sum_fits(rem@),
    ensures
        match remove_summary_seq(rem@, cfg.plain) {
            Some(ls) => r matches Some(v) && views(v@) == (if cfg.behavior.show_summary {
                ls
            } else {
                seq![]
            }),
            None => r is None,
        },
{
    if rem.len() == 0 {
        return None;
    }
    if !cfg.behavior.show_summary {
        let v: Vec<String> = Vec::new();
        assert(views(v@) == Seq::<Seq<char>>::empty());
        return Some(v);
    }
    let plain = cfg.plain;
    let mut out: Vec<String> = Vec::new();
    assert(views(out@) == Seq::<Seq<char>>::empty());
    removal_block_exec(&mut out, rem, plain);
    assert(views(out@) == removal_block(rem@, plain));
    let mut freed: i64 = 0;
    let mut i: usize = 0;
    while i < rem.len()
        invariant
            i <= rem.len(),
            removed_sum_fits(rem@),
            freed == sum_removed(rem@.take(i as int)),
        decreases rem.len() - i,
    {
        assert(rem@.take(i + 1).drop_last() == rem@.take(i as int));
        assert(fits_i64(sum_removed(rem@.take(i + 1))));
        freed = freed + rem[i].isize;
        i = i + 1;
    }
    assert(rem@.take(rem.len() as int) == rem@);
    let hs = human_size(freed);
    let l = if plain {
        let mut l = String::from_str("\n  freed space: ");
        l.append(hs.as_str());
        l
    } else {
        let mut l = String::from_str("\n  ");
        l.append(ROSEWATER);
        l.append("freed space: ");
        l.append(hs.as_str());
        l.append(RST);
        l
    };
    let ghost blk = views(out@);
    out.push(l);
    let e = String::from_str("");
    out.push(e);
    assert(views(out@) == blk.push(l@).push(e@));
    assert(blk.push(l@).push(e@) == blk + seq![l@, e@]);
    Some(out)
}

/// Why preparing a transaction failed, as far as the details go.
pub enum PrepareDiag {
    /// Dependencies that nothing satisfies, each with the package that needs it, if known.
    Unsatisfied(Vec<(String, Option<String>)>),
    /// Pairs of packages in conflict, with the reason.
    Conflicting(Vec<(String, String, String)>),
    /// No details.
    NoDetail,
}

/// The line of a missing dependency.
pub open spec fn missing_dep_line(dep: Seq<char>, cause: Option<Seq<char>>, plain: bool) -> Seq<char> {
    let cs = match cause {
        Some(p) => " (required by "@ + p + ")"@,
        None => Seq::<char>::empty(),
    };
    if plain {
        "  ✗  missing dependency: "@ + dep + cs
    } else {
        "  "@ + RED@ + "✗"@ + RST@ + "  "@ + TEXT@ + "missing dependency:"@ + RST@ + " "@ + YELLOW@ + dep
            + RST@ + DIM@ + cs + RST@
    }
}

/// The line of a conflict.
pub open spec fn conflict_line(p1: Seq<char>, p2: Seq<char>, reason: Seq<char>, plain: bool) -> Seq<char> {
    if plain {
        "  ✗  conflict: "@ + p1 + " ↔ "@ + p2 + "  ("@ + reason + ")"@
    } else {
        "  "@ + RED@ + "✗"@ + RST@ + "  "@ + TEXT@ + "conflict:"@ + RST@ + " "@ + YELLOW@ + p1 + RST@ + DIM@
            + " ↔ "@ + p2 + RST@ + "  "@ + DIM@ + "("@ + reason + ")"@ + RST@
    }
}

/// The lines that explain a failed preparation, after its error message: the items between
/// empty lines, or nothing without details.
pub open spec fn prepare_diag_seq(d: PrepareDiag, plain: bool) -> Seq<Seq<char>> {
    match d {
        PrepareDiag::Unsatisfied(v) => seq![""@] + v@.map_values(
            |x: (String, Option<String>)| missing_dep_line(x.0@, match x.1 { Some(p) => Some(p@), None => None }, plain),
        ) + seq![""@],
        PrepareDiag::Conflicting(v) => seq![""@] + v@.map_values(
            |x: (String, String, String)| conflict_line(x.0@, x.1@, x.2@, plain),
        ) + seq![""@],
        PrepareDiag::NoDetail => seq![],
    }
}

fn missing_dep_line_exec(dep: &str, cause: &Option<String>, plain: bool) -> (r: String)
    ensures
        r@ == missing_dep_line(dep@, match cause { Some(p) => Some(p@), None => None }, plain),
{
    let mut cs = String::new();
    match cause {
        Some(p) => {
            cs.append(" (required by ");
            cs.append(p.as_str());
            cs.append(")");
        },
        None => {},
    }
    if plain {
        let mut r = String::from_str("  ✗  missing dependency: ");
        r.append(dep);
        r.append(cs.as_str());
        r
    } else {
        let mut r = String::from_str("  ");
        r.append(RED);
        r.append("✗");
        r.append(RST);
        r.append("  ");
        r.append(TEXT);
        r.append("missing dependency:");
        r.append(RST);
        r.append(" ");
        r.append(YELLOW);
        r.append(dep);
        r.append(RST);
        r.append(DIM);
        r.append(cs.as_str());
        r.append(RST);
        r
    }
}

fn conflict_line_exec(p1: &str, p2: &str, reason: &str, plain: bool) -> (r: String)
    ensures
        r@ == conflict_line(p1@, p2@, reason@, plain),
{
    if plain {
        let mut r = String::from_str("  ✗  conflict: ");
        r.append(p1);
        r.append(" ↔ ");
        r.append(p2);
        r.append("  (");
        r.append(reason);
        r.append(")");
        r
    } else {
        let mut r = String::from_str("  ");
        r.append(RED);
        r.append("✗");
        r.append(RST);
        r.append("  ");
        r.append(TEXT);
        r.append("conflict:");
        r.append(RST);
        r.append(" ");
        r.append(YELLOW);
        r.append(p1);
        r.append(RST);
        r.append(DIM);
        r.append(" ↔ ");
        r.append(p2);
        r.append(RST);
        r.append("  ");
        r.append(DIM);
        r.append("(");
        r.append(reason);
        r.append(")");
        r.append(RST);
        r
    }
}

/// The error message of a failed preparation.
pub fn prepare_error_message(msg: &str) -> (r: String)
    ensures
        r@ == "could not prepare transaction: "@ + msg@,
{
    let mut r = String::from_str("could not prepare transaction: ");
    r.append(msg);
    r
}

/// The lines that explain a failed preparation.
pub fn prepare_diag_lines(d: &PrepareDiag, cfg: &ResolvedConfig) -> (r: Vec<String>)
    ensures
        views(r@) == prepare_diag_seq(*d, cfg.plain),
{
    let plain = cfg.plain;
    let mut out: Vec<String> = Vec::new();
    match d {
        PrepareDiag::Unsatisfied(v) => {
            out.push(String::from_str(""));
            let ghost head = views(out@);
            let mut i: usize = 0;
            while i < v.len()
                invariant
                    i <= v.len(),
                    views(out@) == head + v@.take(i as int).map_values(
                        |x: (String, Option<String>)| missing_dep_line(x.0@, match x.1 { Some(p) => Some(p@), None => None }, plain),
                    ),
                decreases v.len() - i,
            {
                let ghost before = views(out@);
                let l = missing_dep_line_exec(v[i].0.as_str(), &v[i].1, plain);
                out.push(l);
                assert(views(out@) == before.push(l@));
                assert(v@.take(i + 1).map_values(
                    |x: (String, Option<String>)| missing_dep_line(x.0@, match x.1 { Some(p) => Some(p@), None => None }, plain),
                ) == v@.take(i as int).map_values(
                    |x: (String, Option<String>)| missing_dep_line(x.0@, match x.1 { Some(p) => Some(p@), None => None }, plain),
                ).push(l@));
                i = i + 1;
            }
            assert(v@.take(v.len() as int) == v@);
            let ghost body = views(out@);
            let e = String::from_str("");
            out.push(e);
            assert(views(out@) == body + seq![e@]);
        },
        PrepareDiag::Conflicting(v) => {
            out.push(String::from_str(""));
            let ghost head = views(out@);
            let mut i: usize = 0;
            while i < v.len()
                invariant
                    i <= v.len(),
                    views(out@) == head + v@.take(i as int).map_values(
                        |x: (String, String, String)| conflict_line(x.0@, x.1@, x.2@, plain),
                    ),
                decreases v.len() - i,
            {
                let ghost before = views(out@);
                let l = conflict_line_exec(v[i].0.as_str(), v[i].1.as_str(), v[i].2.as_str(), plain);
                out.push(l);
                assert(views(out@) == before.push(l@));
                assert(v@.take(i + 1).map_values(
                    |x: (String, String, String)| conflict_line(x.0@, x.1@, x.2@, plain),
                ) == v@.take(i as int).map_values(
                    |x: (String, String, String)| conflict_line(x.0@, x.1@, x.2@, plain),
                ).push(l@));
                i = i + 1;
            }
            assert(v@.take(v.len() as int) == v@);
            let ghost body = views(out@);
            let e = String::from_str("");
            out.push(e);
            assert(views(out@) == body + seq![e@]);
        },
        PrepareDiag::NoDetail => {
            assert(views(out@) == Seq::<Seq<char>>::empty());
        },
    }
    out
}

/// Why committing a transaction failed, as far as the details go.
pub enum CommitDiag {
    /// Pairs of packages whose files conflict.
    FileConflict(Vec<(String, String)>),
    /// Packages that are invalid.
    PkgInvalid(Vec<String>),
    /// No details.
    NoDetail,
}

/// The line of a file conflict.
pub open spec fn file_conflict_line(p1: Seq<char>, p2: Seq<char>, plain: bool) -> Seq<char> {
    if plain {
        "  ✗  file conflict: "@ + p1 + " ↔ "@ + p2
    } else {
        "  "@ + RED@ + "✗"@ + RST@ + "  "@ + TEXT@ + "file conflict:"@ + RST@ + " "@ + YELLOW@ + p1 + RST@
            + DIM@ + " ↔ "@ + p2 + RST@
    }
}

/// The line of an invalid package.
pub open spec fn invalid_pkg_line(name: Seq<char>, plain: bool) -> Seq<char> {
    if plain {
        "  ✗  invalid package: "@ + name
    } else {
        "  "@ + RED@ + "✗"@ + RST@ + "  "@ + TEXT@ + "invalid package:"@ + RST@ + " "@ + YELLOW@ + name
            + RST@
    }
}

/// The lines that explain a failed commit, after its error message, ending with an empty
/// line.
pub open spec fn commit_diag_seq(d: CommitDiag, plain: bool) -> Seq<Seq<char>> {
    let items = match d {
        CommitDiag::FileConflict(v) => v@.map_values(
            |x: (String, String)| file_conflict_line(x.0@, x.1@, plain),
        ),
        CommitDiag::PkgInvalid(v) => v@.map_values(|x: String| invalid_pkg_line(x@, plain)),
        CommitDiag::NoDetail => seq![],
    };
    items + seq![""@]
}

fn file_conflict_line_exec(p1: &str, p2: &str, plain: bool) -> (r: String)
    ensures
        r@ == file_conflict_line(p1@, p2@, plain),
{
    if plain {
        let mut r = String::from_str("  ✗  file conflict: ");
        r.append(p1);
        r.append(" ↔ ");
        r.append(p2);
        r
    } else {
        let mut r = String::from_str("  ");
        r.append(RED);
        r.append("✗");
        r.append(RST);
        r.append("  ");
        r.append(TEXT);
        r.append("file conflict:");
        r.append(RST);
        r.append(" ");
        r.append(YELLOW);
        r.append(p1);
        r.append(RST);
        r.append(DIM);
        r.append(" ↔ ");
        r.append(p2);
        r.append(RST);
        r
    }
}

fn invalid_pkg_line_exec(name: &str, plain: bool) -> (r: String)
    ensures
        r@ == invalid_pkg_line(name@, plain),
{
    if plain {
        let mut r = String::from_str("  ✗  invalid package: ");
        r.append(name);
        r
    } else {
        let mut r = String::from_str("  ");
        r.append(RED);
        r.append("✗");
        r.append(RST);
        r.append("  ");
        r.append(TEXT);
        r.append("invalid package:");
        r.append(RST);
        r.append(" ");
        r.append(YELLOW);
        r.append(name);
        r.append(RST);
        r
    }
}

/// The error message of a failed commit.
pub fn commit_error_message(msg: &str) -> (r: String)
    ensures
        r@ == "transaction failed: "@ + msg@,
{
    let mut r = String::from_str("transaction failed: ");
    r.append(msg);
    r
}

/// The lines that explain a failed commit.
pub fn commit_diag_lines(d: &CommitDiag, cfg: &ResolvedConfig) -> (r: Vec<String>)
    ensures
        views(r@) == commit_diag_seq(*d, cfg.plain),
{
    let plain = cfg.plain;
    let mut out: Vec<String> = Vec::new();
    match d {
        CommitDiag::FileConflict(v) => {
            let mut i: usize = 0;
            while i < v.len()
                invariant
                    i <= v.len(),
                    views(out@) == v@.take(i as int).map_values(
                        |x: (String, String)| file_conflict_line(x.0@, x.1@, plain),
                    ),
                decreases v.len() - i,
            {
                let ghost before = views(out@);
                let l = file_conflict_line_exec(v[i].0.as_str(), v[i].1.as_str(), plain);
                out.push(l);
                assert(views(out@) == before.push(l@));
                assert(v@.take(i + 1).map_values(|x: (String, String)| file_conflict_line(x.0@, x.1@, plain))
                    == v@.take(i as int).map_values(
                    |x: (String, String)| file_conflict_line(x.0@, x.1@, plain),
                ).push(l@));
                i = i + 1;
            }
            assert(v@.take(v.len() as int) == v@);
        },
        CommitDiag::PkgInvalid(v) => {
            let mut i: usize = 0;
            while i < v.len()
                invariant
                    i <= v.len(),
                    views(out@) == v@.take(i as int).map_values(|x: String| invalid_pkg_line(x@, plain)),
                decreases v.len() - i,
            {
                let ghost before = views(out@);
                let l = invalid_pkg_line_exec(v[i].as_str(), plain);
                out.push(l);
                assert(views(out@) == before.push(l@));
                assert(v@.take(i + 1).map_values(|x: String| invalid_pkg_line(x@, plain)) == v@.take(
                    i as int,
                ).map_values(|x: String| invalid_pkg_line(x@, plain)).push(l@));
                i = i + 1;
            }
            assert(v@.take(v.len() as int) == v@);
        },
        CommitDiag::NoDetail => {
            assert(views(out@) == Seq::<Seq<char>>::empty());
        },
    }
    let ghost body = views(out@);
    let e = String::from_str("");
    out.push(e);
    assert(views(out@) == body + seq![e@]);
    out
}

/// The prompt that asks to go on, with the answer that an empty reply gives.
pub open spec fn confirm_prompt_seq(msg: Seq<char>, default_yes: bool, plain: bool) -> Seq<char> {
    let hint = if default_yes { "[Y/n]"@ } else { "[y/N]"@ };
    if plain {
        "\n  :: "@ + msg + " "@ + hint + " "@
    } else {
        "\n  "@ + MAUVE@ + BOLD@ + "::"@ + RST@ + " "@ + TEXT@ + msg + " "@ + SUBTEXT1@ + hint + RST@ + " "@
    }
}

/// The prompt printed before reading a yes/no answer.
pub fn confirm_prompt(msg: &str, default_yes: bool, cfg: &ResolvedConfig) -> (r: String)
    ensures
        r@ == confirm_prompt_seq(msg@, default_yes, cfg.plain),
{
    let hint = if default_yes {
        "[Y/n]"
    } else {
        "[y/N]"
    };
    if cfg.plain {
        let mut r = String::from_str("\n  :: ");
        r.append(msg);
        r.append(" ");
        r.append(hint);
        r.append(" ");
        r
    } else {
        let mut r = String::from_str("\n  ");
        r.append(MAUVE);
        r.append(BOLD);
        r.append("::");
        r.append(RST);
        r.append(" ");
        r.append(TEXT);
        r.append(msg);
        r.append(" ");
        r.append(SUBTEXT1);
        r.append(hint);
        r.append(RST);
        r.append(" ");
        r
    }
}

/// Why a package is installed.
#[derive(Clone, Copy, PartialEq, Eq, Structural, Debug)]
pub enum InstallReason {
    Explicit,
    Depend,
}

/// The install reason that `--asdeps` or `--asexplicit` asks for (`--asdeps` first).
pub fn reason_for(asdeps: bool, asexplicit: bool) -> (r: Option<InstallReason>)
    ensures
        r == (if asdeps {
            Some(InstallReason::Depend)
        } else if asexplicit {
            Some(InstallReason::Explicit)
        } else {
            None
        }),
{
    if asdeps {
        Some(InstallReason::Depend)
    } else if asexplicit {
        Some(InstallReason::Explicit)
    } else {
        None
    }
}

/// The word for an install reason.
pub open spec fn reason_label(r: InstallReason) -> Seq<char> {
    match r {
        InstallReason::Depend => "dependency"@,
        InstallReason::Explicit => "explicit"@,
    }
}

/// The message that reports a changed install reason.
pub fn reason_set_message(name: &str, r: InstallReason) -> (m: String)
    ensures
        m@ == name@ + ": install reason set to '"@ + reason_label(r) + "'"@,
{
    let mut m = String::new();
    m.append(name);
    m.append(": install reason set to '");
    match r {
        InstallReason::Depend => m.append("dependency"),
        InstallReason::Explicit => m.append("explicit"),
    }
    m.append("'");
    m
}

/// With `--unneeded`, a package that others require is skipped.
pub fn skip_unneeded(unneeded: bool, required_by_none: bool) -> (b: bool)
    ensures
        b == (unneeded && !required_by_none),
{
    unneeded && !required_by_none
}

/// The warning for a package skipped as required by others.
pub fn skip_required_message(name: &str) -> (r: String)
    ensures
        r@ == "skipping "@ + name@ + ": it is required by other packages"@,
{
    let mut r = String::from_str("skipping ");
    r.append(name);
    r.append(": it is required by other packages");
    r
}

/// How refreshing the sync databases went.
pub enum RefreshOutcome {
    /// Nothing was downloaded.
    UpToDate,
    /// Some database was updated.
    Updated,
    /// Some mirror failed, for the reason given.
    Failed(String),
}

/// The line that reports a refresh: the up-to-date notice only when `show_db_uptodate`
/// is on.
pub fn refresh_report(outcome: &RefreshOutcome, cfg: &ResolvedConfig) -> (r: Option<String>)
    ensures
        match outcome {
            RefreshOutcome::UpToDate => if cfg.behavior.show_db_uptodate {
                r matches Some(l) && l@ == crate::render::info_seq("all databases are up to date"@, *cfg)
            } else {
                r is None
            },
            RefreshOutcome::Updated => r matches Some(l) && l@ == crate::render::success_seq(
                "databases updated"@,
                *cfg,
            ),
            RefreshOutcome::Failed(e) => r matches Some(l) && l@ == crate::render::warn_seq(
                "some mirrors failed ("@ + e@ + "); continuing"@,
                *cfg,
            ),
        },
{
    match outcome {
        RefreshOutcome::UpToDate => {
            if cfg.behavior.show_db_uptodate {
                Some(crate::render::info("all databases are up to date", cfg))
            } else {
                None
            }
        },
        RefreshOutcome::Updated => Some(crate::render::success("databases updated", cfg)),
        RefreshOutcome::Failed(e) => {
            let mut m = String::from_str("some mirrors failed (");
            m.append(e.as_str());
            m.append("); continuing");
            Some(crate::render::warn(m.as_str(), cfg))
        },
    }
}

} // verus!
