use vstd::prelude::*;
use vstd::string::*;
use crate::pacconf::section_name;
use crate::text::{
    chars_of, contains, contains_seq, dec_seq, decimal, lines, lines_seq, parse_unsigned,
    parse_unsigned_seq, split_char, split_char_seq, starts_with_seq, str_eq, strip_prefix,
    strip_prefix_seq, strip_suffix, strip_suffix_seq, trim, trim_seq, views,
};

verus! {

/// Which characters `char::is_numeric` accepts: those of the Unicode general categories
/// for numbers (`Nd`, `Nl`, `No`).
pub uninterp spec fn numeric(c: char) -> bool;

/// `char::is_numeric`, taken on trust: the result is whether `c` has a number category
/// (named by `numeric`), and among ASCII characters only the digits have one.
#[verifier::external_body]
fn is_numeric(c: char) -> (b: bool)
    ensures
        b == numeric(c),
        (c as u32) < 128 ==> (b <==> ('0' <= c && c <= '9')),
{
    c.is_numeric()
}

/// Whether `char::is_numeric` accepts `c`: among ASCII characters the digits `0`-`9`,
/// beyond ASCII those that `numeric` names.
pub open spec fn numeric_char(c: char) -> bool {
    if (c as u32) < 128 {
        '0' <= c && c <= '9'
    } else {
        numeric(c)
    }
}

/// The number that a run of numeric characters gives, if it reads as a `u32` (runs of
/// non-ASCII numerals do not).
pub open spec fn run_value(run: Seq<char>) -> Seq<u32> {
    match parse_unsigned_seq(run, 10, u32::MAX as nat) {
        Some(n) => seq![n as u32],
        None => seq![],
    }
}

/// The numbers of a version string read from index `i` on, with `run` the numeric
/// characters read just before `i`.
pub open spec fn nums_from(s: Seq<char>, i: int, run: Seq<char>) -> Seq<u32>
    decreases s.len() - i,
{
    if i < 0 || i >= s.len() {
        if run.len() > 0 {
            run_value(run)
        } else {
            seq![]
        }
    } else if numeric_char(s[i]) {
        nums_from(s, i + 1, run.push(s[i]))
    } else if run.len() > 0 {
        run_value(run) + nums_from(s, i + 1, seq![])
    } else {
        nums_from(s, i + 1, seq![])
    }
}

/// The numbers of a version string: its maximal runs of numeric characters, each read as a
/// `u32` (a run that does not read as one is left out).
pub open spec fn version_nums(v: Seq<char>) -> Seq<u32> {
    nums_from(v, 0, seq![])
}

/// The run `run` read as a number, appended to `out`.
fn push_run(out: &mut Vec<u32>, run: &Vec<char>)
    requires
        run@.len() > 0,
    ensures
        final(out)@ == old(out)@ + run_value(run@),
{
    match parse_unsigned(run, 10, 4294967295) {
        Some(n) => {
            out.push(n as u32);
            assert(run_value(run@) == seq![n as u32]);
        },
        None => {
            assert(run_value(run@) == Seq::<u32>::empty());
            assert(old(out)@ + Seq::<u32>::empty() == old(out)@);
        },
    }
}

/// The numbers of a version string, in order (`"0.1.10"` gives 0, 1, 10).
pub fn version_to_nums(v: &str) -> (r: Vec<u32>)
    ensures
        r@ == version_nums(v@),
{
    let cs = chars_of(v);
    let mut nums: Vec<u32> = Vec::new();
    let mut run: Vec<char> = Vec::new();
    let mut i: usize = 0;
    while i < cs.len()
        invariant
            i <= cs.len(),
            cs@ == v@,
            nums@ + nums_from(cs@, i as int, run@) == version_nums(v@),
        decreases cs.len() - i,
    {
        let c = cs[i];
        let ghost r0 = run@;
        assert(c == cs@[i as int]);
        if is_numeric(c) {
            run.push(c);
            assert(nums_from(cs@, i as int, r0) == nums_from(cs@, i + 1, r0.push(c)));
        } else if run.len() > 0 {
            let ghost old_run = run@;
            let ghost before = nums@;
            push_run(&mut nums, &run);
            run = Vec::new();
            assert(run@ == Seq::<char>::empty());
            assert(nums_from(cs@, i as int, old_run) == run_value(old_run) + nums_from(cs@, i + 1, seq![]));
            assert(before + run_value(old_run) + nums_from(cs@, i + 1, seq![]) == before + (
            run_value(old_run) + nums_from(cs@, i + 1, seq![])));
        } else {
            assert(nums_from(cs@, i as int, r0) == nums_from(cs@, i + 1, seq![]));
            assert(r0 == Seq::<char>::empty());
        }
        i = i + 1;
    }
    assert(nums@ + nums_from(cs@, i as int, run@) == version_nums(v@));
    if run.len() > 0 {
        push_run(&mut nums, &run);
    } else {
        assert(nums@ + Seq::<u32>::empty() == nums@);
    }
    nums
}

/// Whether the numbers `r` make a later version than `c`: compared pairwise from the left,
/// the first difference decides; when one is a prefix of the other, the longer is later.
pub open spec fn nums_greater(c: Seq<u32>, r: Seq<u32>) -> bool
    decreases c.len(),
{
    if c.len() == 0 || r.len() == 0 {
        r.len() > c.len()
    } else if r[0] > c[0] {
        true
    } else if r[0] < c[0] {
        false
    } else {
        nums_greater(c.drop_first(), r.drop_first())
    }
}

/// Whether version `remote` is later than version `current`.
pub open spec fn version_greater(current: Seq<char>, remote: Seq<char>) -> bool {
    nums_greater(version_nums(current), version_nums(remote))
}

/// Whether version `remote` is later than version `current`, comparing their numbers.
pub fn is_version_greater(current: &str, remote: &str) -> (b: bool)
    ensures
        b == version_greater(current@, remote@),
{
    let c = version_to_nums(current);
    let r = version_to_nums(remote);
    let mut i: usize = 0;
    assert(c@.skip(0) == c@ && r@.skip(0) == r@);
    while i < c.len() && i < r.len()
        invariant
            i <= c.len(),
            i <= r.len(),
            c@ == version_nums(current@),
            r@ == version_nums(remote@),
            nums_greater(c@, r@) == nums_greater(c@.skip(i as int), r@.skip(i as int)),
        decreases c.len() - i,
    {
        proof {
            assert(c@.skip(i as int).drop_first() == c@.skip(i + 1));
            assert(r@.skip(i as int).drop_first() == r@.skip(i + 1));
            assert(c@.skip(i as int)[0] == c@[i as int]);
            assert(r@.skip(i as int)[0] == r@[i as int]);
        }
        if r[i] > c[i] {
            return true;
        }
        if r[i] < c[i] {
            return false;
        }
        i = i + 1;
    }
    r.len() > c.len()
}

/// No version is later than itself.
pub proof fn law_version_irreflexive(v: Seq<char>)
    ensures
        !version_greater(v, v),
{
    lemma_nums_irreflexive(version_nums(v));
}

proof fn lemma_nums_irreflexive(a: Seq<u32>)
    ensures
        !nums_greater(a, a),
    decreases a.len(),
{
    if a.len() > 0 {
        lemma_nums_irreflexive(a.drop_first());
    }
}

proof fn lemma_nums_asymmetric(a: Seq<u32>, b: Seq<u32>)
    requires
        nums_greater(a, b),
    ensures
        !nums_greater(b, a),
    decreases a.len(),
{
    if a.len() > 0 && b.len() > 0 && a[0] == b[0] {
        lemma_nums_asymmetric(a.drop_first(), b.drop_first());
    }
}

proof fn lemma_nums_transitive(a: Seq<u32>, b: Seq<u32>, c: Seq<u32>)
    requires
        nums_greater(a, b),
        nums_greater(b, c),
    ensures
        nums_greater(a, c),
    decreases a.len(),
{
    if a.len() > 0 && b.len() > 0 && c.len() > 0 && a[0] == b[0] && b[0] == c[0] {
        lemma_nums_transitive(a.drop_first(), b.drop_first(), c.drop_first());
    }
}

/// When `b` is later than `a`, `a` is not later than `b`.
pub proof fn law_version_asymmetric(a: Seq<char>, b: Seq<char>)
    requires
        version_greater(a, b),
    ensures
        !version_greater(b, a),
{
    lemma_nums_asymmetric(version_nums(a), version_nums(b));
}

/// Being later is transitive: `c` later than `b` later than `a` is later than `a`.
pub proof fn law_version_transitive(a: Seq<char>, b: Seq<char>, c: Seq<char>)
    requires
        version_greater(a, b),
        version_greater(b, c),
    ensures
        version_greater(a, c),
{
    lemma_nums_transitive(version_nums(a), version_nums(b), version_nums(c));
}

/// The version that `Cargo.toml` gives in its `[package]` section, reading lines `i..`
/// with `in_package` telling whether line `i` lies inside `[package]`: the first line
/// `version = "..."` there; another section (or any line starting with `[` inside it)
/// ends the search.
pub open spec fn cargo_version_from(lines: Seq<Seq<char>>, i: int, in_package: bool) -> Option<Seq<char>>
    decreases lines.len() - i,
{
    if i < 0 || i >= lines.len() {
        None
    } else {
        let t = trim_seq(lines[i]);
        match section_name(t) {
            Some(name) => cargo_version_from(lines, i + 1, name == "package"@),
            None => if !in_package {
                cargo_version_from(lines, i + 1, in_package)
            } else if starts_with_seq(t, "["@) {
                None
            } else {
                match strip_prefix_seq(t, "version = \""@) {
                    Some(rest) => match strip_suffix_seq(rest, "\""@) {
                        Some(v) => Some(v),
                        None => cargo_version_from(lines, i + 1, in_package),
                    },
                    None => cargo_version_from(lines, i + 1, in_package),
                }
            },
        }
    }
}

/// The package version written in the text of a `Cargo.toml`.
pub open spec fn cargo_version(toml: Seq<char>) -> Option<Seq<char>> {
    cargo_version_from(lines_seq(toml), 0, false)
}

/// Reads the package version from the text of a `Cargo.toml`.
pub fn parse_cargo_version(toml: &str) -> (r: Option<String>)
    ensures
        match cargo_version(toml@) {
            Some(v) => r matches Some(s) && s@ == v,
            None => r is None,
        },
{
    let ls = lines(toml);
    let ghost lv = views(ls@);
    let mut in_package = false;
    let mut i: usize = 0;
    while i < ls.len()
        invariant
            i <= ls.len(),
            lv == views(ls@),
            lv == lines_seq(toml@),
            cargo_version(toml@) == cargo_version_from(lv, i as int, in_package),
        decreases ls.len() - i,
    {
        assert(lv[i as int] == ls@[i as int]@);
        let t = trim(ls[i].as_str());
        let tv = chars_of(t.as_str());
        let n = tv.len();
        proof {
            reveal_strlit("[");
            if n > 0 {
                assert(t@.subrange(0, 1)[0] == t@[0]);
                if t@[0] == '[' {
                    assert(t@.subrange(0, 1) =~= "["@);
                }
            }
        }
        if n >= 2 && tv[0] == '[' && tv[n - 1] == ']' {
            let name = crate::text::slice_string(&tv, 1, n - 1);
            in_package = str_eq(name.as_str(), "package");
        } else if in_package {
            if n > 0 && tv[0] == '[' {
                return None;
            }
            match strip_prefix(t.as_str(), "version = \"") {
                Some(rest) => match strip_suffix(rest.as_str(), "\"") {
                    Some(v) => {
                        return Some(v);
                    },
                    None => {},
                },
                None => {},
            }
        }
        i = i + 1;
    }
    None
}

/// The version of this program.
pub fn current_version() -> (v: &'static str)
    ensures
        v@ == "0.1.7"@,
{
    "0.1.7"
}

/// The newer version that the published `Cargo.toml` announces, if its text was fetched
/// and the version it gives is later than `current`.
pub open spec fn update_available_seq(current: Seq<char>, fetched: Option<Seq<char>>) -> Option<Seq<char>> {
    match fetched {
        None => None,
        Some(toml) => match cargo_version(toml) {
            None => None,
            Some(remote) => if version_greater(current, remote) {
                Some(remote)
            } else {
                None
            },
        },
    }
}

/// Decides from the fetched text of the published `Cargo.toml` (`None` when the fetch
/// failed) whether a newer version than `current` is out.
pub fn update_available(current: &str, fetched: Option<String>) -> (r: Option<String>)
    ensures
        match update_available_seq(current@, match fetched { Some(s) => Some(s@), None => None }) {
            Some(v) => r matches Some(s) && s@ == v,
            None => r is None,
        },
{
    match fetched {
        None => None,
        Some(toml) => match parse_cargo_version(toml.as_str()) {
            None => None,
            Some(remote) => {
                if is_version_greater(current, remote.as_str()) {
                    Some(remote)
                } else {
                    None
                }
            },
        },
    }
}

/// The places where `cargo` is looked for, in order: `dir/cargo` for each piece of `PATH`
/// split at `:`, then `/home/user/.cargo/bin/cargo` for the user that ran sudo, then
/// `home/.cargo/bin/cargo`.
pub open spec fn cargo_candidates_seq(path: Option<Seq<char>>, sudo_user: Option<Seq<char>>, home: Option<Seq<char>>) -> Seq<Seq<char>> {
    let from_path = match path {
        Some(p) => split_char_seq(p, ':').map_values(|d: Seq<char>| d + "/cargo"@),
        None => seq![],
    };
    let from_sudo = match sudo_user {
        Some(u) => seq!["/home/"@ + u + "/.cargo/bin/cargo"@],
        None => seq![],
    };
    let from_home = match home {
        Some(h) => seq![h + "/.cargo/bin/cargo"@],
        None => seq![],
    };
    from_path + from_sudo + from_home
}

/// The candidate paths of `cargo`, given `PATH`, `SUDO_USER` and `HOME` when they are set.
pub fn cargo_candidates(path: Option<String>, sudo_user: Option<String>, home: Option<String>) -> (r: Vec<String>)
    ensures
        views(r@) == cargo_candidates_seq(
            match path { Some(p) => Some(p@), None => None },
            match sudo_user { Some(u) => Some(u@), None => None },
            match home { Some(h) => Some(h@), None => None },
        ),
{
    let mut out: Vec<String> = Vec::new();
    match path {
        Some(p) => {
            let dirs = split_char(p.as_str(), ':');
            let mut k: usize = 0;
            while k < dirs.len()
                invariant
                    k <= dirs.len(),
                    views(dirs@) == split_char_seq(p@, ':'),
                    views(out@) == views(dirs@).take(k as int).map_values(|d: Seq<char>| d + "/cargo"@),
                decreases dirs.len() - k,
            {
                let mut c = dirs[k].clone();
                c.append("/cargo");
                let ghost before = views(out@);
                out.push(c);
                assert(views(out@) == before.push(c@));
                assert(views(dirs@).take(k + 1) == views(dirs@).take(k as int).push(dirs@[k as int]@));
                assert(views(dirs@).take(k + 1).map_values(|d: Seq<char>| d + "/cargo"@) == views(dirs@).take(
                    k as int,
                ).map_values(|d: Seq<char>| d + "/cargo"@).push(dirs@[k as int]@ + "/cargo"@));
                k = k + 1;
            }
            assert(views(dirs@).take(k as int) == views(dirs@));
        },
        None => {},
    }
    let ghost after_path = views(out@);
    match sudo_user {
        Some(u) => {
            let mut c = String::from_str("/home/");
            c.append(u.as_str());
            c.append("/.cargo/bin/cargo");
            out.push(c);
            assert(views(out@) == after_path.push(c@));
        },
        None => {},
    }
    let ghost after_sudo = views(out@);
    match home {
        Some(h) => {
            let mut c = h.clone();
            c.append("/.cargo/bin/cargo");
            out.push(c);
            assert(views(out@) == after_sudo.push(c@));
        },
        None => {},
    }
    out
}

/// The environment that a cargo build gets when run through sudo: `HOME` set to the
/// invoking user's home under `/home`, and `RUSTUP_TOOLCHAIN` kept, or `stable`.
pub fn cargo_env(sudo_user: Option<String>, rustup_toolchain: Option<String>) -> (r: Option<(String, String)>)
    ensures
        match sudo_user {
            None => r is None,
            Some(u) => r matches Some(e) && e.0@ == "/home/"@ + u@ && e.1@ == (match rustup_toolchain {
                Some(t) => t@,
                None => "stable"@,
            }),
        },
{
    match sudo_user {
        None => None,
        Some(u) => {
            let mut home = String::from_str("/home/");
            home.append(u.as_str());
            let tc = match rustup_toolchain {
                Some(t) => t,
                None => String::from_str("stable"),
            };
            Some((home, tc))
        },
    }
}

/// Whether the running binary is a development build (it lies under `target/release`).
pub fn is_dev_build(exe: &str) -> (b: bool)
    ensures
        b == contains_seq(exe@, "target/release"@),
{
    contains(exe, "target/release")
}

/// The name of the directory that a source update is built in.
pub fn update_dir_name(pid: u32) -> (r: String)
    ensures
        r@ == "pacwoman-update-"@ + dec_seq(pid as nat),
{
    let mut r = String::from_str("pacwoman-update-");
    let d = decimal(pid as u64);
    r.append(d.as_str());
    r
}

/// The shell command that installs the built binary over the running one.
pub fn install_command(built: &str, exe: &str) -> (r: String)
    ensures
        r@ == "install -m 755 "@ + built@ + " "@ + exe@,
{
    let mut r = String::from_str("install -m 755 ");
    r.append(built);
    r.append(" ");
    r.append(exe);
    r
}

/// The shell command that fixes the installed binary's mode, and gives it back to the
/// user that ran sudo (or does nothing more).
pub fn finalize_command(exe: &str, sudo_user: Option<String>) -> (r: String)
    ensures
        r@ == "sleep 1 && chmod 755 \""@ + exe@ + "\" && "@ + (match sudo_user {
            Some(u) => "chown "@ + u@ + " \""@ + exe@ + "\""@,
            None => "true"@,
        }),
{
    let mut r = String::from_str("sleep 1 && chmod 755 \"");
    r.append(exe);
    r.append("\" && ");
    match sudo_user {
        Some(u) => {
            r.append("chown ");
            r.append(u.as_str());
            r.append(" \"");
            r.append(exe);
            r.append("\"");
        },
        None => {
            r.append("true");
        },
    }
    r
}

} // verus!
