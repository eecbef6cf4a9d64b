use vstd::prelude::*;
use vstd::string::*;
use crate::config::{join_path, path_join, ResolvedConfig};
use crate::text::{contains, contains_seq, lower_text, starts_with, starts_with_seq, str_eq, to_lowercase, views};

verus! {

/// A package as the AUR describes it.
pub struct AurPackage {
    pub name: String,
    pub version: String,
    pub description: Option<String>,
    pub url: Option<String>,
    pub maintainer: Option<String>,
}

/// Where the AUR's RPC interface is asked.
pub struct AurClient {
    base_url: String,
}

/// The address of the AUR's RPC interface, version 5.
pub open spec fn aur_rpc() -> Seq<char> {
    "https://aur.archlinux.org/rpc/v5"@
}

impl AurClient {
    /// The address that requests go to.
    pub closed spec fn base(&self) -> Seq<char> {
        self.base_url@
    }

    /// A client of the AUR's RPC interface.
    pub fn new() -> (c: Self)
        ensures
            c.base() == aur_rpc(),
    {
        AurClient { base_url: String::from_str("https://aur.archlinux.org/rpc/v5") }
    }

    /// The address that searches the AUR for `query`.
    pub fn search_url(&self, query: &str) -> (u: String)
        ensures
            u@ == self.base() + "/search/"@ + query@,
    {
        let mut u = self.base_url.clone();
        u.append("/search/");
        u.append(query);
        u
    }

    /// The address that asks the AUR about the package `name`.
    pub fn info_url(&self, name: &str) -> (u: String)
        ensures
            u@ == self.base() + "/info/"@ + name@,
    {
        let mut u = self.base_url.clone();
        u.append("/info/");
        u.append(name);
        u
    }
}

/// The package an info request answers with: the first result, or the error that none
/// came.
pub fn first_result(results: Vec<AurPackage>) -> (r: Result<AurPackage, String>)
    ensures
        results.len() > 0 ==> (r matches Ok(p) && p == results@[0]),
        results.len() == 0 ==> (r matches Err(m) && m@ == "package not found in AUR"@),
{
    let mut results = results;
    if results.len() == 0 {
        Err(String::from_str("package not found in AUR"))
    } else {
        Ok(results.swap_remove(0))
    }
}

/// Builds AUR packages in the invoking user's cache directory.
pub struct BuildManager {
    cache_dir: String,
    user: String,
}

/// The home directory that builds use: the invoking user's under `/home` when run through
/// sudo, else `$HOME`, else `/root`.
pub open spec fn build_home_seq(sudo_user: Option<Seq<char>>, home: Option<Seq<char>>) -> Seq<char> {
    match sudo_user {
        Some(u) => path_join("/home"@, u),
        None => match home {
            Some(h) => h,
            None => "/root"@,
        },
    }
}

/// The home directory for builds, from `SUDO_USER` and `HOME`.
pub fn build_home(sudo_user: &Option<String>, home: &Option<String>) -> (r: String)
    ensures
        r@ == build_home_seq(
            match sudo_user { Some(u) => Some(u@), None => None },
            match home { Some(h) => Some(h@), None => None },
        ),
{
    match sudo_user {
        Some(u) => join_path("/home", u.as_str()),
        None => match home {
            Some(h) => h.clone(),
            None => String::from_str("/root"),
        },
    }
}

impl BuildManager {
    /// The directory that holds the build directories.
    pub closed spec fn cache(&self) -> Seq<char> {
        self.cache_dir@
    }

    /// The user that builds run as.
    pub closed spec fn builder(&self) -> Seq<char> {
        self.user@
    }

    /// A build manager for the user that ran sudo (`SUDO_USER`), else the current user
    /// (`USER`); it fails when neither is known. Builds go to `.cache/pacwoman/aur` in
    /// that user's home.
    pub fn new(sudo_user: Option<String>, user: Option<String>, home: Option<String>) -> (r: Result<Self, String>)
        ensures
            match (sudo_user, user) {
                (None, None) => r matches Err(m) && m@ == "could not determine current user"@,
                _ => r matches Ok(b) && b.builder() == (match sudo_user {
                    Some(u) => u@,
                    None => user.unwrap()@,
                }) && b.cache() == path_join(path_join(path_join(build_home_seq(
                    match sudo_user { Some(u) => Some(u@), None => None },
                    match home { Some(h) => Some(h@), None => None },
                ), ".cache"@), "pacwoman"@), "aur"@),
            },
    {
        let who = match &sudo_user {
            Some(u) => u.clone(),
            None => match &user {
                Some(u) => u.clone(),
                None => {
                    return Err(String::from_str("could not determine current user"));
                },
            },
        };
        let h = build_home(&sudo_user, &home);
        let a = join_path(h.as_str(), ".cache");
        let b = join_path(a.as_str(), "pacwoman");
        let cache_dir = join_path(b.as_str(), "aur");
        Ok(BuildManager { cache_dir, user: who })
    }

    /// The cache directory.
    pub fn cache_dir(&self) -> (r: &str)
        ensures
            r@ == self.cache(),
    {
        self.cache_dir.as_str()
    }

    /// The user that builds run as.
    pub fn user(&self) -> (r: &str)
        ensures
            r@ == self.builder(),
    {
        self.user.as_str()
    }

    /// The directory that the package `pkg` is built in.
    pub fn build_path(&self, pkg: &str) -> (r: String)
        ensures
            r@ == path_join(self.cache(), pkg@),
    {
        join_path(self.cache_dir.as_str(), pkg)
    }

    /// The owner given to the cache directory: `user:user`.
    pub fn owner_spec(&self) -> (r: String)
        ensures
            r@ == self.builder() + ":"@ + self.builder(),
    {
        let mut r = self.user.clone();
        r.append(":");
        r.append(self.user.as_str());
        r
    }

    /// The command line that runs `args` (program first) as the build user: through
    /// `sudo -u user` when running as root, else as it is.
    pub fn user_command(&self, is_root: bool, args: &Vec<String>) -> (r: Vec<String>)
        ensures
            views(r@) == (if is_root {
                seq!["sudo"@, "-u"@, self.builder()] + views(args@)
            } else {
                views(args@)
            }),
    {
        let mut out: Vec<String> = Vec::new();
        if is_root {
            out.push(String::from_str("sudo"));
            out.push(String::from_str("-u"));
            out.push(self.user.clone());
        }
        let ghost head = views(out@);
        let mut i: usize = 0;
        while i < args.len()
            invariant
                i <= args.len(),
                views(out@) == head + views(args@).take(i as int),
            decreases args.len() - i,
        {
            let ghost before = views(out@);
            let a = args[i].clone();
            out.push(a);
            assert(views(out@) == before.push(a@));
            assert(views(args@).take(i + 1) == views(args@).take(i as int).push(args@[i as int]@));
            i = i + 1;
        }
        assert(views(args@).take(args.len() as int) == views(args@));
        out
    }

    /// The shell command that builds the package, run as the build user when root.
    pub fn makepkg_command(&self, is_root: bool) -> (r: String)
        ensures
            r@ == (if is_root {
                "sudo -u "@ + self.builder() + " makepkg -s --noconfirm 2>&1"@
            } else {
                "makepkg -s --noconfirm 2>&1"@
            }),
    {
        if is_root {
            let mut r = String::from_str("sudo -u ");
            r.append(self.user.as_str());
            r.append(" makepkg -s --noconfirm 2>&1");
            r
        } else {
            String::from_str("makepkg -s --noconfirm 2>&1")
        }
    }
}

/// The git address of the AUR package `pkg`.
pub fn clone_url(pkg: &str) -> (r: String)
    ensures
        r@ == "https://aur.archlinux.org/"@ + pkg@ + ".git"@,
{
    let mut r = String::from_str("https://aur.archlinux.org/");
    r.append(pkg);
    r.append(".git");
    r
}

/// How a line of build output is shown.
#[derive(Clone, Copy, PartialEq, Eq, Structural, Debug)]
pub enum BuildLine {
    /// A step of makepkg (`==>`).
    Step,
    /// A line that reports a failure.
    Failure,
    /// Anything else: progress, a line worth showing, or nothing.
    Other,
}

/// Sorts a line of build output: makepkg's steps start with `==>`; a line that mentions
/// `Error`, `FAILED` or `critical` reports a failure.
pub fn classify_build_line(l: &str) -> (k: BuildLine)
    ensures
        k == (if starts_with_seq(l@, "==>"@) {
            BuildLine::Step
        } else if contains_seq(l@, "Error"@) || contains_seq(l@, "FAILED"@) || contains_seq(l@, "critical"@) {
            BuildLine::Failure
        } else {
            BuildLine::Other
        }),
{
    if starts_with(l, "==>") {
        BuildLine::Step
    } else if contains(l, "Error") || contains(l, "FAILED") || contains(l, "critical") {
        BuildLine::Failure
    } else {
        BuildLine::Other
    }
}

/// The words that make a line of build output worth showing.
pub open spec fn interesting_words() -> Seq<Seq<char>> {
    seq![
        "configuring"@,
        "found"@,
        "checking"@,
        "patching"@,
        "installing"@,
        "creating"@,
        "updating"@,
        "processing"@,
    ]
}

/// Whether a line of build output is worth showing: lowercased, it holds one of the
/// interesting words.
pub fn is_interesting(l: &str) -> (b: bool)
    ensures
        b == exists|i: int| 0 <= i < 8 && #[trigger] contains_seq(lower_text(l@), interesting_words()[i]),
{
    let low = to_lowercase(l);
    let s = low.as_str();
    let b = contains(s, "configuring") || contains(s, "found") || contains(s, "checking") || contains(
        s,
        "patching",
    ) || contains(s, "installing") || contains(s, "creating") || contains(s, "updating") || contains(
        s,
        "processing",
    );
    proof {
        let w = interesting_words();
        if b {
            if contains_seq(low@, "configuring"@) {
                assert(contains_seq(lower_text(l@), w[0]));
            } else if contains_seq(low@, "found"@) {
                assert(contains_seq(lower_text(l@), w[1]));
            } else if contains_seq(low@, "checking"@) {
                assert(contains_seq(lower_text(l@), w[2]));
            } else if contains_seq(low@, "patching"@) {
                assert(contains_seq(lower_text(l@), w[3]));
            } else if contains_seq(low@, "installing"@) {
                assert(contains_seq(lower_text(l@), w[4]));
            } else if contains_seq(low@, "creating"@) {
                assert(contains_seq(lower_text(l@), w[5]));
            } else if contains_seq(low@, "updating"@) {
                assert(contains_seq(lower_text(l@), w[6]));
            } else {
                assert(contains_seq(lower_text(l@), w[7]));
            }
        } else {
            assert forall|i: int| 0 <= i < 8 implies !#[trigger] contains_seq(lower_text(l@), w[i]) by {
                if i == 0 {
                } else if i == 1 {
                } else if i == 2 {
                } else if i == 3 {
                } else if i == 4 {
                } else if i == 5 {
                } else if i == 6 {
                } else {
                }
            }
        }
    }
    b
}

/// The line that shows a makepkg step.
pub fn step_line(l: &str, cfg: &ResolvedConfig) -> (r: String)
    ensures
        r@ == "  "@ + cfg.colors.mauve@ + cfg.colors.bold@ + cfg.symbols.bullet@ + cfg.colors.reset@ + " "@
            + cfg.colors.text@ + l@ + cfg.colors.reset@,
{
    let c = &cfg.colors;
    let mut r = String::from_str("  ");
    r.append(c.mauve.as_str());
    r.append(c.bold.as_str());
    r.append(cfg.symbols.bullet.as_str());
    r.append(c.reset.as_str());
    r.append(" ");
    r.append(c.text.as_str());
    r.append(l);
    r.append(c.reset.as_str());
    r
}

/// The line that shows a failure in the build output.
pub fn failure_line(l: &str, cfg: &ResolvedConfig) -> (r: String)
    ensures
        r@ == "    "@ + cfg.colors.red@ + cfg.colors.bold@ + cfg.symbols.error@ + " "@ + l@ + cfg.colors.reset@,
{
    let c = &cfg.colors;
    let mut r = String::from_str("    ");
    r.append(c.red.as_str());
    r.append(c.bold.as_str());
    r.append(cfg.symbols.error.as_str());
    r.append(" ");
    r.append(l);
    r.append(c.reset.as_str());
    r
}

/// The line that shows an interesting line of the build output.
pub fn detail_line(l: &str, cfg: &ResolvedConfig) -> (r: String)
    ensures
        r@ == "  "@ + cfg.colors.subtext1@ + l@ + cfg.colors.reset@,
{
    let mut r = String::from_str("  ");
    r.append(cfg.colors.subtext1.as_str());
    r.append(l);
    r.append(cfg.colors.reset.as_str());
    r
}

/// Whether a file of the build directory is the built package: a regular file with the
/// extension `zst` whose name holds `.pkg.tar`.
pub fn is_package_artifact(is_file: bool, extension: Option<String>, file_name: &str) -> (b: bool)
    ensures
        b == (is_file && (match extension {
            Some(e) => e@ == "zst"@,
            None => false,
        }) && contains_seq(file_name@, ".pkg.tar"@)),
{
    if !is_file {
        return false;
    }
    let ext_ok = match &extension {
        Some(e) => str_eq(e.as_str(), "zst"),
        None => false,
    };
    ext_ok && contains(file_name, ".pkg.tar")
}

} // verus!
