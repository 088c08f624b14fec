//! Shell discovery on Windows: shells are probed at well-known install
//! paths that are built from the context environment.
use std::collections::HashMap;
use vstd::prelude::*;

use crate::error::EnvError;
use crate::profile::{path_exists, texts, Profile};

verus! {

broadcast use vstd::std_specs::hash::group_hash_axioms;

/// The text that `str::to_lowercase` makes of `s`.
pub uninterp spec fn lower_of(s: Seq<char>) -> Seq<char>;

/// Relies on `str::to_lowercase`: the result depends on the characters
/// alone.
#[verifier::external_body]
fn lowercase(s: &str) -> (r: String)
    ensures
        r@ == lower_of(s@),
{
    s.to_lowercase()
}

/// Relies on `HashMap::get`, the value cloned: the value stored under
/// `key`, if any.
#[verifier::external_body]
fn lookup(vars: &HashMap<String, String>, key: &str) -> (r: Option<String>)
    ensures
        r is Some <==> vars.deep_view().contains_key(key@),
        r matches Some(v) ==> vars.deep_view()[key@] == v@,
{
    vars.get(key).cloned()
}

/// Relies on `HashMap::iter`, each pair cloned: every entry once, in no
/// specified order.
#[verifier::external_body]
fn entries(vars: &HashMap<String, String>) -> (r: Vec<(String, String)>)
    ensures
        forall|k: int|
            0 <= k < r@.len() ==> vars.deep_view().contains_key((#[trigger] r@[k]).0@)
                && vars.deep_view()[r@[k].0@] == r@[k].1@,
        forall|key: Seq<char>|
            #[trigger] vars.deep_view().contains_key(key) ==> exists|k: int|
                0 <= k < r@.len() && (#[trigger] r@[k]).0@ == key,
{
    vars.iter().map(|(k, v)| (k.clone(), v.clone())).collect()
}

/// Relies on `HashMap::insert`: `key` now maps to `value`, and nothing
/// else changes.
#[verifier::external_body]
fn insert_var(vars: &mut HashMap<String, String>, key: String, value: String)
    ensures
        final(vars).deep_view() == old(vars).deep_view().insert(key@, value@),
{
    vars.insert(key, value);
}

/// Relies on `home::home_dir`, converted to text: the current user's home
/// directory, where one is known.
#[verifier::external_body]
fn home_directory() -> Option<String> {
    home::home_dir().map(|p| p.to_string_lossy().to_string())
}

/// The context variables for probing: those the helper extracted, unless
/// the process's own environment holds more (an extraction that failed
/// counts as none).
pub fn context_variables(
    extracted: Result<HashMap<String, String>, EnvError>,
    process: HashMap<String, String>,
) -> (r: HashMap<String, String>)
    ensures
        match extracted {
            Ok(m) => r == (if process.len() > m.len() {
                process
            } else {
                m
            }),
            Err(_) => (process.len() > 0 ==> r == process) && (process.len() == 0 ==> r@
                == Map::<String, String>::empty()),
        },
{
    match extracted {
        Ok(m) => {
            if process.len() > m.len() {
                process
            } else {
                m
            }
        },
        Err(_) => {
            if process.len() > 0 {
                process
            } else {
                HashMap::new()
            }
        },
    }
}

/// `vars` with every name lower-cased. Where several names lower-case to
/// the same text, the value of one of them is kept.
pub fn keys_to_lower_case(vars: &HashMap<String, String>) -> (r: HashMap<String, String>)
    ensures
        forall|k: Seq<char>|
            vars.deep_view().contains_key(k) ==> #[trigger] r.deep_view().contains_key(
                lower_of(k),
            ),
        forall|k: Seq<char>|
            #[trigger] r.deep_view().contains_key(k) ==> exists|j: Seq<char>|
                #[trigger] vars.deep_view().contains_key(j) && lower_of(j) == k
                    && r.deep_view()[k] == vars.deep_view()[j],
{
    let all = entries(vars);
    let mut r: HashMap<String, String> = HashMap::new();
    proof {
        vstd::std_specs::hash::lemma_hashmap_deepview_dom(r);
        assert(r.deep_view().dom() =~= Set::<Seq<char>>::empty());
    }
    let n = all.len();
    let mut i: usize = 0;
    while i < n
        invariant
            n == all@.len(),
            i <= n,
            forall|k: int|
                0 <= k < all@.len() ==> vars.deep_view().contains_key((#[trigger] all@[k]).0@)
                    && vars.deep_view()[all@[k].0@] == all@[k].1@,
            forall|t: int|
                0 <= t < i ==> r.deep_view().contains_key(lower_of((#[trigger] all@[t]).0@)),
            forall|k: Seq<char>|
                #[trigger] r.deep_view().contains_key(k) ==> exists|j: Seq<char>|
                    #[trigger] vars.deep_view().contains_key(j) && lower_of(j) == k
                        && r.deep_view()[k] == vars.deep_view()[j],
        decreases n - i,
    {
        let key = lowercase(all[i].0.as_str());
        let value = all[i].1.clone();
        let ghost j = all@[i as int].0@;
        insert_var(&mut r, key, value);
        proof {
            assert(vars.deep_view().contains_key(j));
            assert forall|k: Seq<char>| #[trigger] r.deep_view().contains_key(k) implies exists|
                j2: Seq<char>,
            |
                #[trigger] vars.deep_view().contains_key(j2) && lower_of(j2) == k
                    && r.deep_view()[k] == vars.deep_view()[j2] by {
                if k == lower_of(j) {
                    assert(vars.deep_view().contains_key(j) && lower_of(j) == k);
                }
            }
        }
        i = i + 1;
    }
    proof {
        assert forall|k: Seq<char>| vars.deep_view().contains_key(k) implies #[trigger] r.deep_view().contains_key(
            lower_of(k),
        ) by {
            let t = choose|t: int| 0 <= t < all@.len() && (#[trigger] all@[t]).0@ == k;
        }
    }
    r
}

/// The arguments a probed shell takes before the helper's path.
#[derive(Debug, Clone, Copy, PartialEq, Eq, Structural)]
pub enum Launch {
    /// None.
    Plain,
    /// `-c`.
    Command,
    /// `--login -c`.
    Login,
    /// `--login -i -c`.
    LoginInteractive,
}

/// The arguments of `launch`, as text.
pub open spec fn launch_texts(launch: Launch) -> Seq<Seq<char>> {
    match launch {
        Launch::Plain => seq![],
        Launch::Command => seq!["-c"@],
        Launch::Login => seq!["--login"@, "-c"@],
        Launch::LoginInteractive => seq!["--login"@, "-i"@, "-c"@],
    }
}

/// The arguments of `launch`.
pub fn launch_args(launch: Launch) -> (r: Vec<&'static str>)
    ensures
        texts(r@) == launch_texts(launch),
{
    let mut r: Vec<&'static str> = Vec::new();
    match launch {
        Launch::Plain => {},
        Launch::Command => {
            r.push("-c");
        },
        Launch::Login => {
            r.push("--login");
            r.push("-c");
        },
        Launch::LoginInteractive => {
            r.push("--login");
            r.push("-i");
            r.push("-c");
        },
    }
    proof {
        assert(texts(r@) =~= launch_texts(launch));
    }
    r
}

/// A shell that may be installed: its display name, where its executable
/// would be, and how it is launched.
pub struct Candidate {
    pub name: String,
    pub path: String,
    pub launch: Launch,
}

/// A candidate as plain values.
pub open spec fn candidate_view(c: Candidate) -> (Seq<char>, Seq<char>, Launch) {
    (c.name@, c.path@, c.launch)
}

/// The candidates in `cs`, as plain values.
pub open spec fn candidate_views(cs: Seq<Candidate>) -> Seq<(Seq<char>, Seq<char>, Launch)> {
    cs.map_values(|c: Candidate| candidate_view(c))
}

/// The two Git for Windows installs under the directory that `key` names
/// in `vars`, if it names one.
pub open spec fn git_under(vars: Map<Seq<char>, Seq<char>>, key: Seq<char>) -> Seq<
    (Seq<char>, Seq<char>, Launch),
> {
    if vars.contains_key(key) {
        seq![
            ("GitBash"@, vars[key] + "\\Git\\bin\\bash.exe"@, Launch::LoginInteractive),
            ("GitBash"@, vars[key] + "\\Git\\usr\\bin\\bash.exe"@, Launch::LoginInteractive),
        ]
    } else {
        seq![]
    }
}

/// The single candidate at `tail` under the directory that `key` names in
/// `vars`, if it names one.
pub open spec fn one_under(
    vars: Map<Seq<char>, Seq<char>>,
    key: Seq<char>,
    name: Seq<char>,
    tail: Seq<char>,
    launch: Launch,
) -> Seq<(Seq<char>, Seq<char>, Launch)> {
    if vars.contains_key(key) {
        seq![(name, vars[key] + tail, launch)]
    } else {
        seq![]
    }
}

/// The two WSL launchers under the system root, if it is known.
pub open spec fn wsl_candidates(lower: Map<Seq<char>, Seq<char>>, system: Seq<char>) -> Seq<
    (Seq<char>, Seq<char>, Launch),
> {
    if lower.contains_key("systemroot"@) {
        let root = lower["systemroot"@] + system;
        seq![
            ("WSL"@, root + "\\wsl.exe"@, Launch::Command),
            ("WSL (bash)"@, root + "\\bash.exe"@, Launch::Command),
        ]
    } else {
        seq![]
    }
}

/// The .NET Core PowerShell tool under the home directory, if it is known.
pub open spec fn dotnet_candidates(home: Option<Seq<char>>) -> Seq<(Seq<char>, Seq<char>, Launch)> {
    match home {
        Some(h) => seq![
            (".NET Core PowerShell Global Tool"@, h + "\\.dotnet\\tools\\pwsh.exe"@, Launch::Plain),
        ],
        None => seq![],
    }
}

/// The command prompt under the system directory, and the Cygwin and MSYS2
/// shells under the home drive.
pub open spec fn fixed_candidates(sys32: Seq<char>, drive: Seq<char>) -> Seq<
    (Seq<char>, Seq<char>, Launch),
> {
    seq![
        ("Command Prompt"@, sys32 + "\\cmd.exe"@, Launch::Plain),
        ("Cygwin x64"@, drive + "\\cygwin64\\bin\\bash.exe"@, Launch::Login),
        ("Cygwin"@, drive + "\\cygwin\\bin\\bash.exe"@, Launch::Login),
        ("bash (MSYS2)"@, drive + "\\msys64\\usr\\bin\\bash.exe"@, Launch::LoginInteractive),
    ]
}

/// The Git for Windows installs under the program directories, the local
/// application data and a scoop install in the user profile.
pub open spec fn git_candidates(vars: Map<Seq<char>, Seq<char>>) -> Seq<
    (Seq<char>, Seq<char>, Launch),
> {
    git_under(vars, "ProgramW6432"@) + git_under(vars, "ProgramFiles"@) + git_under(
        vars,
        "ProgramFiles(X86)"@,
    ) + one_under(
        vars,
        "LocalAppData"@,
        "GitBash"@,
        "\\Programs\\Git\\bin\\bash.exe"@,
        Launch::LoginInteractive,
    ) + one_under(
        vars,
        "UserProfile"@,
        "GitBash"@,
        "\\scoop\\apps\\git-with-openssh\\current\\bin\\bash.exe"@,
        Launch::LoginInteractive,
    )
}

/// The system directory's suffix: `Sysnative` for a 32-bit process on a
/// 64-bit system, else `System32`.
pub open spec fn system_suffix(lower: Map<Seq<char>, Seq<char>>) -> Seq<char> {
    if lower.contains_key("processor_architew6432"@) {
        "\\Sysnative"@
    } else {
        "\\System32"@
    }
}

/// The shells to probe, given the context variables with lower-cased
/// names (`lower`), the same variables as named (`vars`) and the home
/// directory. Fails with the name of the first of `windir` and `homedrive`
/// that is missing.
pub open spec fn windows_candidates(
    lower: Map<Seq<char>, Seq<char>>,
    vars: Map<Seq<char>, Seq<char>>,
    home: Option<Seq<char>>,
) -> Result<Seq<(Seq<char>, Seq<char>, Launch)>, Seq<char>> {
    if !lower.contains_key("windir"@) {
        Err("windir"@)
    } else if !lower.contains_key("homedrive"@) {
        Err("homedrive"@)
    } else {
        let system = system_suffix(lower);
        let sys32 = lower["windir"@] + system;
        let powershell = seq![
            (
                "Windows PowerShell"@,
                sys32 + "\\WindowsPowerShell\\v1.0\\powershell.exe"@,
                Launch::Plain,
            ),
        ];
        Ok(
            wsl_candidates(lower, system) + powershell + dotnet_candidates(home) + fixed_candidates(
                sys32,
                lower["homedrive"@],
            ) + git_candidates(vars),
        )
    }
}

fn joined(base: &str, tail: &str) -> (r: String)
    ensures
        r@ == base@ + tail@,
{
    let mut s = base.to_owned();
    s.append(tail);
    s
}

fn add_candidate(out: &mut Vec<Candidate>, name: &str, path: String, launch: Launch)
    ensures
        candidate_views(final(out)@) == candidate_views(old(out)@).push((name@, path@, launch)),
{
    out.push(Candidate { name: name.to_owned(), path, launch });
    proof {
        assert(candidate_views(final(out)@) =~= candidate_views(old(out)@).push(
            (name@, path@, launch),
        ));
    }
}

fn add_one_under(
    out: &mut Vec<Candidate>,
    vars: &HashMap<String, String>,
    key: &str,
    name: &str,
    tail: &str,
    launch: Launch,
)
    ensures
        candidate_views(final(out)@) == candidate_views(old(out)@) + one_under(
            vars.deep_view(),
            key@,
            name@,
            tail@,
            launch,
        ),
{
    match lookup(vars, key) {
        Some(dir) => {
            add_candidate(out, name, joined(dir.as_str(), tail), launch);
        },
        None => {
            assert(candidate_views(old(out)@) + seq![] =~= candidate_views(old(out)@));
        },
    }
}

fn add_git_under(out: &mut Vec<Candidate>, vars: &HashMap<String, String>, key: &str)
    ensures
        candidate_views(final(out)@) == candidate_views(old(out)@) + git_under(
            vars.deep_view(),
            key@,
        ),
{
    match lookup(vars, key) {
        Some(dir) => {
            add_candidate(
                out,
                "GitBash",
                joined(dir.as_str(), "\\Git\\bin\\bash.exe"),
                Launch::LoginInteractive,
            );
            add_candidate(
                out,
                "GitBash",
                joined(dir.as_str(), "\\Git\\usr\\bin\\bash.exe"),
                Launch::LoginInteractive,
            );
            assert(candidate_views(final(out)@) =~= candidate_views(old(out)@) + git_under(
                vars.deep_view(),
                key@,
            ));
        },
        None => {
            assert(candidate_views(old(out)@) + seq![] =~= candidate_views(old(out)@));
        },
    }
}

fn add_wsl(out: &mut Vec<Candidate>, lower: &HashMap<String, String>, system: &str)
    ensures
        candidate_views(final(out)@) == candidate_views(old(out)@) + wsl_candidates(
            lower.deep_view(),
            system@,
        ),
{
    match lookup(lower, "systemroot") {
        Some(root) => {
            let base = joined(root.as_str(), system);
            add_candidate(out, "WSL", joined(base.as_str(), "\\wsl.exe"), Launch::Command);
            add_candidate(out, "WSL (bash)", joined(base.as_str(), "\\bash.exe"), Launch::Command);
            assert(candidate_views(final(out)@) =~= candidate_views(old(out)@) + wsl_candidates(
                lower.deep_view(),
                system@,
            ));
        },
        None => {
            assert(candidate_views(old(out)@) + seq![] =~= candidate_views(old(out)@));
        },
    }
}

fn add_dotnet(out: &mut Vec<Candidate>, home: Option<&str>)
    ensures
        candidate_views(final(out)@) == candidate_views(old(out)@) + dotnet_candidates(
            match home {
                Some(h) => Some(h@),
                None => None,
            },
        ),
{
    match home {
        Some(h) => {
            add_candidate(
                out,
                ".NET Core PowerShell Global Tool",
                joined(h, "\\.dotnet\\tools\\pwsh.exe"),
                Launch::Plain,
            );
            assert(candidate_views(final(out)@) =~= candidate_views(old(out)@) + dotnet_candidates(
                Some(h@),
            ));
        },
        None => {
            assert(candidate_views(old(out)@) + seq![] =~= candidate_views(old(out)@));
        },
    }
}

fn add_fixed(out: &mut Vec<Candidate>, sys32: &str, drive: &str)
    ensures
        candidate_views(final(out)@) == candidate_views(old(out)@) + fixed_candidates(
            sys32@,
            drive@,
        ),
{
    add_candidate(out, "Command Prompt", joined(sys32, "\\cmd.exe"), Launch::Plain);
    add_candidate(out, "Cygwin x64", joined(drive, "\\cygwin64\\bin\\bash.exe"), Launch::Login);
    add_candidate(out, "Cygwin", joined(drive, "\\cygwin\\bin\\bash.exe"), Launch::Login);
    add_candidate(
        out,
        "bash (MSYS2)",
        joined(drive, "\\msys64\\usr\\bin\\bash.exe"),
        Launch::LoginInteractive,
    );
    assert(candidate_views(final(out)@) =~= candidate_views(old(out)@) + fixed_candidates(
        sys32@,
        drive@,
    ));
}

fn add_git(out: &mut Vec<Candidate>, vars: &HashMap<String, String>)
    ensures
        candidate_views(final(out)@) == candidate_views(old(out)@) + git_candidates(
            vars.deep_view(),
        ),
{
    let ghost start = candidate_views(out@);
    add_git_under(out, vars, "ProgramW6432");
    add_git_under(out, vars, "ProgramFiles");
    add_git_under(out, vars, "ProgramFiles(X86)");
    add_one_under(
        out,
        vars,
        "LocalAppData",
        "GitBash",
        "\\Programs\\Git\\bin\\bash.exe",
        Launch::LoginInteractive,
    );
    add_one_under(
        out,
        vars,
        "UserProfile",
        "GitBash",
        "\\scoop\\apps\\git-with-openssh\\current\\bin\\bash.exe",
        Launch::LoginInteractive,
    );
    assert(candidate_views(out@) =~= start + git_candidates(vars.deep_view()));
}

/// The shells to probe, as `windows_candidates` lists them.
pub fn candidates(
    lower: &HashMap<String, String>,
    vars: &HashMap<String, String>,
    home: Option<&str>,
) -> (r: Result<Vec<Candidate>, EnvError>)
    ensures
        match windows_candidates(
            lower.deep_view(),
            vars.deep_view(),
            match home {
                Some(h) => Some(h@),
                None => None,
            },
        ) {
            Ok(cs) => r matches Ok(v) && candidate_views(v@) == cs,
            Err(missing) => r matches Err(EnvError::NotFoundEnvVar(n)) && n@ == missing,
        },
{
    let windir = match lookup(lower, "windir") {
        Some(v) => v,
        None => return Err(EnvError::NotFoundEnvVar("windir".to_owned())),
    };
    let homedrive = match lookup(lower, "homedrive") {
        Some(v) => v,
        None => return Err(EnvError::NotFoundEnvVar("homedrive".to_owned())),
    };
    let system = if lookup(lower, "processor_architew6432").is_some() {
        "\\Sysnative"
    } else {
        "\\System32"
    };
    let sys32 = joined(windir.as_str(), system);
    let mut out: Vec<Candidate> = Vec::new();
    proof {
        assert(candidate_views(out@) =~= Seq::<(Seq<char>, Seq<char>, Launch)>::empty());
    }
    add_wsl(&mut out, lower, system);
    add_candidate(
        &mut out,
        "Windows PowerShell",
        joined(sys32.as_str(), "\\WindowsPowerShell\\v1.0\\powershell.exe"),
        Launch::Plain,
    );
    add_dotnet(&mut out, home);
    add_fixed(&mut out, sys32.as_str(), homedrive.as_str());
    add_git(&mut out, vars);
    proof {
        let h = match home {
            Some(h) => Some(h@),
            None => None,
        };
        let cs = windows_candidates(lower.deep_view(), vars.deep_view(), h)->Ok_0;
        assert(candidate_views(out@) =~= cs);
    }
    Ok(out)
}

/// `after` is `before` with the profile named `name` for the shell at
/// `path`, launched with `args`, appended when `found`, else unchanged.
pub open spec fn added(
    before: Seq<Profile>,
    after: Seq<Profile>,
    name: Seq<char>,
    path: Seq<char>,
    args: Seq<Seq<char>>,
    found: bool,
) -> bool {
    if found {
        &&& after.len() == before.len() + 1
        &&& after.drop_last() == before
        &&& after.last().display_name() == name
        &&& after.last().shell_path() == path
        &&& after.last().arguments() == args
        &&& after.last().variables() is None
    } else {
        after == before
    }
}

/// Adds the profile named `name` of the shell at `path` when it was
/// `found` on disk.
pub fn add_if_found(list: &mut Vec<Profile>, name: &str, path: &str, args: Vec<&str>, found: bool)
    ensures
        added(old(list)@, final(list)@, name@, path@, texts(args@), found),
{
    let ghost arg_texts = texts(args@);
    match Profile::resolve(path, args, Some(name), found, None) {
        Ok(p) => {
            list.push(p);
            proof {
                assert(final(list)@.drop_last() =~= old(list)@);
            }
        },
        Err(_) => {},
    }
}

/// Adds the profile named `name` of the shell at `path` when it exists.
pub fn add_profile(list: &mut Vec<Profile>, name: &str, path: &str, args: Vec<&str>)
    ensures
        exists|found: bool| added(old(list)@, final(list)@, name@, path@, texts(args@), found),
{
    let found = path_exists(path);
    add_if_found(list, name, path, args, found);
}

/// The candidates of `cs` whose flag in `found` is set, in order.
pub open spec fn selected(cs: Seq<(Seq<char>, Seq<char>, Launch)>, found: Seq<bool>) -> Seq<
    (Seq<char>, Seq<char>, Launch),
>
    decreases cs.len(),
{
    if cs.len() == 0 {
        Seq::empty()
    } else {
        let rest = selected(cs.drop_last(), found);
        let i = cs.len() - 1;
        if i < found.len() && found[i] {
            rest.push(cs.last())
        } else {
            rest
        }
    }
}

/// `ps` are the profiles of the candidates `cs`, one for one and in order,
/// with nothing loaded yet.
pub open spec fn profiles_of(ps: Seq<Profile>, cs: Seq<(Seq<char>, Seq<char>, Launch)>) -> bool {
    &&& ps.len() == cs.len()
    &&& forall|k: int|
        0 <= k < ps.len() ==> {
            &&& (#[trigger] ps[k]).display_name() == cs[k].0
            &&& ps[k].shell_path() == cs[k].1
            &&& ps[k].arguments() == launch_texts(cs[k].2)
            &&& ps[k].variables() is None
        }
}

/// The profiles of the candidates found on disk: the one at position `i`
/// is there exactly when `found[i]` is set, in the candidates' order.
pub fn found_profiles(cands: &Vec<Candidate>, found: &Vec<bool>) -> (r: Vec<Profile>)
    ensures
        profiles_of(r@, selected(candidate_views(cands@), found@)),
{
    let ghost cs = candidate_views(cands@);
    let mut out: Vec<Profile> = Vec::new();
    let n = cands.len();
    let mut i: usize = 0;
    while i < n
        invariant
            n == cands@.len(),
            cs == candidate_views(cands@),
            i <= n,
            profiles_of(out@, selected(cs.subrange(0, i as int), found@)),
        decreases n - i,
    {
        let c = &cands[i];
        let flag = i < found.len() && found[i];
        let ghost before = out@;
        proof {
            assert(cs.subrange(0, i as int + 1).drop_last() =~= cs.subrange(0, i as int));
            assert(cs[i as int] == (c.name@, c.path@, c.launch));
        }
        add_if_found(&mut out, c.name.as_str(), c.path.as_str(), launch_args(c.launch), flag);
        proof {
            let sel = selected(cs.subrange(0, i as int + 1), found@);
            assert forall|k: int| 0 <= k < out@.len() implies {
                &&& (#[trigger] out@[k]).display_name() == sel[k].0
                &&& out@[k].shell_path() == sel[k].1
                &&& out@[k].arguments() == launch_texts(sel[k].2)
                &&& out@[k].variables() is None
            } by {
                if k < before.len() && flag {
                    assert(out@[k] == out@.drop_last()[k]);
                }
            }
        }
        i = i + 1;
    }
    proof {
        assert(cs.subrange(0, n as int) =~= cs);
    }
    out
}

/// `lower` holds the names of `vars` lower-cased: every name's lower-cased
/// form, and under each, the value of a name that lower-cases to it.
pub open spec fn lowered(vars: Map<Seq<char>, Seq<char>>, lower: Map<Seq<char>, Seq<char>>) -> bool {
    &&& forall|k: Seq<char>| vars.contains_key(k) ==> #[trigger] lower.contains_key(lower_of(k))
    &&& forall|k: Seq<char>|
        #[trigger] lower.contains_key(k) ==> exists|j: Seq<char>|
            #[trigger] vars.contains_key(j) && lower_of(j) == k && lower[k] == vars[j]
}

/// `ps` are, in order, the profiles of exactly those candidates of `cs`
/// that some existence check found on disk.
pub open spec fn found_among(ps: Seq<Profile>, cs: Seq<(Seq<char>, Seq<char>, Launch)>) -> bool {
    exists|found: Seq<bool>| found.len() == cs.len() && #[trigger] profiles_of(ps, selected(cs, found))
}

/// `r` is a result of probing the well-known paths built from `vars`: for
/// some lower-casing of its names and some home directory, it fails as
/// `windows_candidates` fails, or holds, in order, the profiles of exactly
/// those candidates that were found on disk.
pub open spec fn probed(vars: Map<Seq<char>, Seq<char>>, r: Result<Vec<Profile>, EnvError>) -> bool {
    exists|lower: Map<Seq<char>, Seq<char>>, home: Option<Seq<char>>|
        #[trigger] lowered(vars, lower) && match #[trigger] windows_candidates(lower, vars, home) {
            Ok(cs) => r is Ok && found_among(r->Ok_0@, cs),
            Err(missing) => r matches Err(EnvError::NotFoundEnvVar(n)) && n@ == missing,
        }
}

/// The shells installed at the well-known paths built from the context
/// variables `vars`. The candidates are those of `windows_candidates` for
/// `vars` with lower-cased names and the home directory, if known: it
/// fails as they fail, and otherwise each shell found is one of them.
pub fn get(vars: &HashMap<String, String>) -> (r: Result<Vec<Profile>, EnvError>)
    ensures
        probed(vars.deep_view(), r),
{
    let lower = keys_to_lower_case(vars);
    let home = home_directory();
    let home_ref: Option<&str> = match &home {
        Some(h) => Some(h.as_str()),
        None => None,
    };
    let ghost h = match home_ref {
        Some(t) => Some(t@),
        None => None,
    };
    proof {
        assert(lowered(vars.deep_view(), lower.deep_view()));
    }
    let cands = match candidates(&lower, vars, home_ref) {
        Ok(cs) => cs,
        Err(e) => {
            proof {
                assert(lowered(vars.deep_view(), lower.deep_view()) && windows_candidates(
                    lower.deep_view(),
                    vars.deep_view(),
                    h,
                ) is Err);
            }
            return Err(e);
        },
    };
    let mut found: Vec<bool> = Vec::new();
    let n = cands.len();
    let mut i: usize = 0;
    while i < n
        invariant
            n == cands@.len(),
            i <= n,
            found@.len() == i,
        decreases n - i,
    {
        found.push(path_exists(cands[i].path.as_str()));
        i = i + 1;
    }
    let profiles = found_profiles(&cands, &found);
    proof {
        let cs = candidate_views(cands@);
        assert(lowered(vars.deep_view(), lower.deep_view()) && windows_candidates(
            lower.deep_view(),
            vars.deep_view(),
            h,
        ) == Ok::<Seq<(Seq<char>, Seq<char>, Launch)>, Seq<char>>(cs));
        assert(found@.len() == cs.len() && profiles_of(profiles@, selected(cs, found@)));
        assert(found_among(profiles@, cs));
    }
    Ok(profiles)
}

} // verus!
