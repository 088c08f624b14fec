//! A discoverable shell, and the discovery of all of them.
use std::collections::HashMap;
use vstd::prelude::*;

use crate::error::EnvError;
use crate::parser::{parses_to, read_output, Captured};
use crate::{unix, windows};

verus! {

/// Relies on `std::path::Path::exists`: whether something exists at the
/// path on disk just now.
#[verifier::external_body]
pub(crate) fn path_exists(path: &str) -> bool {
    std::path::Path::new(path).exists()
}

/// Relies on `std::path::Path::file_name`, converted to text: the last
/// component of the path, if it has one.
#[verifier::external_body]
pub(crate) fn path_file_name(path: &str) -> Option<String> {
    std::path::Path::new(path).file_name().map(|f| f.to_string_lossy().to_string())
}

/// The texts of `args`, in order.
pub open spec fn texts(args: Seq<&str>) -> Seq<Seq<char>> {
    args.map_values(|a: &str| a@)
}

/// The texts of `args`, in order.
pub open spec fn owned_texts(args: Seq<String>) -> Seq<Seq<char>> {
    args.map_values(|a: String| a@)
}

/// `r` read as the variable map it stands for: the loaded `vars` on
/// success, else the same error.
pub open spec fn with_vars(
    r: Result<(), EnvError>,
    vars: Option<HashMap<String, String>>,
) -> Result<HashMap<String, String>, EnvError> {
    match r {
        Ok(_) => Ok(vars.unwrap()),
        Err(e) => Err(e),
    }
}

/// The error message for an existing shell at `shell` whose path ends in
/// no file name.
pub open spec fn unnamed_message(shell: Seq<char>) -> Seq<char> {
    "Found "@ + shell + ", but cannot convert path"@
}

/// One shell: its display name, the path of its executable, the arguments
/// it takes before the helper's path, and, once loaded, its variables.
#[derive(Debug, Clone)]
pub struct Profile {
    pub name: String,
    pub path: String,
    pub envvars: Option<HashMap<String, String>>,
    pub args: Vec<String>,
}

impl Profile {
    /// The display name.
    pub open spec fn display_name(&self) -> Seq<char> {
        self.name@
    }

    /// The path of the shell's executable.
    pub open spec fn shell_path(&self) -> Seq<char> {
        self.path@
    }

    /// The variables loaded last, if any.
    pub open spec fn variables(&self) -> Option<HashMap<String, String>> {
        self.envvars
    }

    /// The arguments passed to the shell before the helper's path.
    pub open spec fn arguments(&self) -> Seq<Seq<char>> {
        owned_texts(self.args@)
    }

    /// The arguments passed to the shell before the helper's path.
    pub fn args(&self) -> (r: &Vec<String>)
        ensures
            owned_texts(r@) == self.arguments(),
    {
        &self.args
    }

    /// The profile for `shell`, given whether it exists and the file name
    /// its path ends in. A missing shell is not found; the display name is
    /// `name` where given, else the file name, and a path without one is
    /// refused.
    pub fn resolve(
        shell: &str,
        args: Vec<&str>,
        name: Option<&str>,
        exists: bool,
        file_name: Option<String>,
    ) -> (r: Result<Profile, EnvError>)
        ensures
            !exists ==> (r matches Err(EnvError::NotFound(p)) && p@ == shell@),
            exists && name is None && file_name is None ==> (r matches Err(EnvError::Other(msg))
                && msg@ == unnamed_message(shell@)),
            exists && (name is Some || file_name is Some) ==> (r matches Ok(p) && p.shell_path()
                == shell@ && p.variables() is None && p.arguments() == texts(args@) && p.display_name() == (
            match name {
                Some(n) => n@,
                None => file_name.unwrap()@,
            })),
    {
        if !exists {
            return Err(EnvError::NotFound(shell.to_owned()));
        }
        let display = match name {
            Some(n) => n.to_owned(),
            None => match file_name {
                Some(f) => f,
                None => {
                    let mut msg = "Found ".to_owned();
                    msg.append(shell);
                    msg.append(", but cannot convert path");
                    return Err(EnvError::Other(msg));
                },
            },
        };
        let mut owned: Vec<String> = Vec::new();
        let n = args.len();
        let mut i: usize = 0;
        while i < n
            invariant
                n == args@.len(),
                i <= n,
                owned@.len() == i,
                forall|k: int| 0 <= k < i ==> #[trigger] owned@[k]@ == args@[k]@,
            decreases n - i,
        {
            owned.push(args[i].to_owned());
            i = i + 1;
        }
        proof {
            assert(owned_texts(owned@) =~= texts(args@));
        }
        Ok(Profile { name: display, path: shell.to_owned(), envvars: None, args: owned })
    }

    /// The profile for the shell at `shell`, which must exist. Its display
    /// name is `name` where given, else the file name of the path.
    pub fn new(shell: &str, args: Vec<&str>, name: Option<&str>) -> (r: Result<Profile, EnvError>)
        ensures
            r matches Ok(p) ==> p.shell_path() == shell@ && p.variables() is None && p.arguments() == texts(
                args@,
            ) && (name matches Some(n) ==> p.display_name() == n@),
            r matches Err(e) ==> (e matches EnvError::NotFound(q) && q@ == shell@) || (name is None
                && e is Other),
    {
        let exists = path_exists(shell);
        let file_name = if exists && name.is_none() {
            path_file_name(shell)
        } else {
            None
        };
        Profile::resolve(shell, args, name, exists, file_name)
    }

    /// Takes in the outcome of one extraction for this shell: the variables
    /// parsed from its output replace any earlier ones; on any failure the
    /// error comes back and the variables stay as they were.
    pub fn load(&mut self, output: Result<Captured, EnvError>) -> (r: Result<(), EnvError>)
        ensures
            final(self).display_name() == old(self).display_name(),
            final(self).shell_path() == old(self).shell_path(),
            final(self).arguments() == old(self).arguments(),
            match output {
                Ok(c) => parses_to(c.stdout@, c.stderr@, with_vars(r, final(self).variables()))
                    && (r is Ok ==> final(self).variables() is Some) && (r is Err ==> final(self).variables()
                    == old(self).variables()),
                Err(e) => r == Err::<(), EnvError>(e) && final(self).variables() == old(self).variables(),
            },
    {
        match read_output(output) {
            Ok(vars) => {
                self.envvars = Some(vars);
                Ok(())
            },
            Err(e) => Err(e),
        }
    }
}

/// Where the candidate shells of a platform come from.
pub enum ShellSource {
    /// The text of the system's shell-list file, one path per line.
    ShellList(String),
    /// The context variables, from which well-known install paths are built.
    WellKnownPaths(HashMap<String, String>),
    /// A platform with no way to enumerate shells.
    Unsupported,
}

/// The shells available from `source`. A listed or probed shell that does
/// not exist is skipped; only the lack of a variable needed to build the
/// probed paths, or an unsupported platform, fails the discovery.
pub fn get(source: &ShellSource) -> (r: Result<Vec<Profile>, EnvError>)
    ensures
        match source {
            ShellSource::ShellList(list) => r matches Ok(ps) && unix::from_list(list@, ps@),
            ShellSource::WellKnownPaths(vars) => windows::probed(vars.deep_view(), r),
            ShellSource::Unsupported => r matches Err(EnvError::NotSupportedPlatform),
        },
{
    match source {
        ShellSource::ShellList(list) => Ok(unix::get(list.as_str())),
        ShellSource::WellKnownPaths(vars) => windows::get(vars),
        ShellSource::Unsupported => Err(EnvError::NotSupportedPlatform),
    }
}

} // verus!
