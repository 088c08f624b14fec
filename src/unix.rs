//! Shell discovery from a shell-list file: one executable path per line.
use vstd::prelude::*;

use crate::profile::{path_exists, path_file_name, Profile};
use crate::text::{split_on, split_text};

verus! {

/// What was found on disk for one candidate path.
pub struct Probe {
    pub path: String,
    pub exists: bool,
    pub file_name: Option<String>,
}

/// The `(path, name)` of each probe that names an existing shell with a
/// file name, in order.
pub open spec fn listed(probes: Seq<Probe>) -> Seq<(Seq<char>, Seq<char>)>
    decreases probes.len(),
{
    if probes.len() == 0 {
        Seq::empty()
    } else {
        let rest = listed(probes.drop_last());
        let p = probes.last();
        if p.exists && p.file_name is Some {
            rest.push((p.path@, p.file_name.unwrap()@))
        } else {
            rest
        }
    }
}

/// A shell whose path does not exist is never listed: every listed path
/// is that of a probe that found its shell.
pub proof fn lemma_missing_never_listed(probes: Seq<Probe>)
    ensures
        forall|k: int|
            #![trigger listed(probes)[k]]
            0 <= k < listed(probes).len() ==> exists|j: int|
                0 <= j < probes.len() && #[trigger] probes[j].exists && probes[j].path@ == listed(
                    probes,
                )[k].0,
    decreases probes.len(),
{
    if probes.len() > 0 {
        let rest = probes.drop_last();
        lemma_missing_never_listed(rest);
        assert forall|k: int|
            #![trigger listed(probes)[k]]
            0 <= k < listed(probes).len() implies exists|j: int|
            0 <= j < probes.len() && #[trigger] probes[j].exists && probes[j].path@ == listed(
                probes,
            )[k].0 by {
            if k < listed(rest).len() {
                let j = choose|j: int|
                    0 <= j < rest.len() && #[trigger] rest[j].exists && rest[j].path@ == listed(
                        rest,
                    )[k].0;
                assert(probes[j] == rest[j]);
            } else {
                assert(probes[probes.len() - 1].exists);
            }
        }
    }
}

/// `ps` are the profiles of `shells`, one for one and in order: each with
/// that path and name, no arguments and nothing loaded yet.
pub open spec fn listed_as(ps: Seq<Profile>, shells: Seq<(Seq<char>, Seq<char>)>) -> bool {
    &&& ps.len() == shells.len()
    &&& forall|k: int|
        0 <= k < ps.len() ==> {
            &&& (#[trigger] ps[k]).shell_path() == shells[k].0
            &&& ps[k].display_name() == shells[k].1
            &&& ps[k].variables() is None
            &&& ps[k].arguments().len() == 0
        }
}

/// The profiles of the probes that found an existing shell with a file
/// name, named after that file, with no arguments.
pub fn profiles_from(probes: Vec<Probe>) -> (r: Vec<Profile>)
    ensures
        listed_as(r@, listed(probes@)),
{
    let mut out: Vec<Profile> = Vec::new();
    let n = probes.len();
    let mut i: usize = 0;
    while i < n
        invariant
            n == probes@.len(),
            i <= n,
            out@.len() == listed(probes@.subrange(0, i as int)).len(),
            forall|k: int|
                0 <= k < out@.len() ==> {
                    &&& (#[trigger] out@[k]).shell_path() == listed(
                        probes@.subrange(0, i as int),
                    )[k].0
                    &&& out@[k].display_name() == listed(probes@.subrange(0, i as int))[k].1
                    &&& out@[k].variables() is None
                    &&& out@[k].arguments().len() == 0
                },
        decreases n - i,
    {
        let probe = &probes[i];
        proof {
            assert(probes@.subrange(0, i as int + 1).drop_last() =~= probes@.subrange(0, i as int));
        }
        let args: Vec<&str> = Vec::new();
        proof {
            assert(crate::profile::texts(args@) =~= Seq::<Seq<char>>::empty());
        }
        match Profile::resolve(
            probe.path.as_str(),
            args,
            None,
            probe.exists,
            probe.file_name.clone(),
        ) {
            Ok(p) => {
                out.push(p);
            },
            Err(_) => {},
        }
        i = i + 1;
    }
    proof {
        assert(probes@.subrange(0, n as int) =~= probes@);
    }
    out
}

/// `ps` are, in order, the profiles of exactly those lines of `list` that
/// some probe, taken over the lines in order, found on disk with a file
/// name: each named after that file.
pub open spec fn from_list(list: Seq<char>, ps: Seq<Profile>) -> bool {
    exists|probes: Seq<Probe>|
        #[trigger] probes_lines(probes, split_on(list, '\n')) && listed_as(ps, listed(probes))
}

/// Probe `k` is taken at line `k`, for every line.
pub open spec fn probes_lines(probes: Seq<Probe>, lines: Seq<Seq<char>>) -> bool {
    &&& probes.len() == lines.len()
    &&& forall|k: int| 0 <= k < probes.len() ==> #[trigger] probes[k].path@ == lines[k]
}

/// The profiles of the shells listed in `list`, one path per line, that
/// exist now. A line that names nothing on disk is skipped, not an error.
pub fn get(list: &str) -> (r: Vec<Profile>)
    ensures
        from_list(list@, r@),
{
    let lines = split_text(list, '\n');
    let mut probes: Vec<Probe> = Vec::new();
    let n = lines.len();
    let mut i: usize = 0;
    while i < n
        invariant
            n == lines@.len(),
            lines@.len() == split_on(list@, '\n').len(),
            forall|k: int| 0 <= k < lines@.len() ==> #[trigger] lines@[k]@ == split_on(list@, '\n')[k],
            i <= n,
            probes@.len() == i,
            forall|k: int| 0 <= k < i ==> #[trigger] probes@[k].path@ == lines@[k]@,
        decreases n - i,
    {
        let path = lines[i].clone();
        let exists = path_exists(path.as_str());
        let file_name = if exists {
            path_file_name(path.as_str())
        } else {
            None
        };
        probes.push(Probe { path, exists, file_name });
        i = i + 1;
    }
    let ghost seen = probes@;
    let r = profiles_from(probes);
    proof {
        assert(probes_lines(seen, split_on(list@, '\n')));
    }
    r
}

} // verus!
