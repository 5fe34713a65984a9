//! What starting a local pseudo-terminal session takes: the terminal's size,
//! and the command, arguments, working directory and environment of the
//! child process, worked out from a shell descriptor.

use vstd::prelude::*;
use crate::shell_list::{strings_view, SystemShell};
use crate::text::{split_first, split_once};

verus! {

/// The size of a pseudo-terminal, fixed when it is opened.
#[derive(Clone, Copy, PartialEq, Eq, Structural)]
pub struct Geometry {
    pub rows: u16,
    pub cols: u16,
}

impl Geometry {
    /// The usual 24 rows of 80 columns.
    pub fn standard() -> (r: Self)
        ensures
            r.rows == 24,
            r.cols == 80,
    {
        Geometry { rows: 24, cols: 80 }
    }
}

/// How to start a session's child process.
pub struct LaunchPlan {
    pub program: String,
    pub args: Vec<String>,
    pub cwd: String,
    /// Environment variables to set, as name and value.
    pub env: Vec<(String, String)>,
    pub geometry: Geometry,
}

/// The views of a sequence of string pairs.
pub open spec fn pairs_view(v: Seq<(String, String)>) -> Seq<(Seq<char>, Seq<char>)> {
    v.map_values(|p: (String, String)| (p.0@, p.1@))
}

/// The variables that environment entries set: each entry split at its
/// first `=`, in order; an entry without `=` sets nothing.
pub open spec fn env_pairs(entries: Seq<Seq<char>>) -> Seq<(Seq<char>, Seq<char>)>
    decreases entries.len(),
{
    if entries.len() == 0 {
        Seq::empty()
    } else {
        let rest = env_pairs(entries.drop_last());
        match split_first(entries.last(), '=') {
            Some(p) => rest.push(p),
            None => rest,
        }
    }
}

/// The variables that `KEY=VALUE` entries set; malformed entries are skipped.
pub fn env_settings(entries: &Vec<String>) -> (r: Vec<(String, String)>)
    ensures
        pairs_view(r@) == env_pairs(strings_view(entries@)),
{
    let mut r: Vec<(String, String)> = Vec::new();
    let n = entries.len();
    let mut i: usize = 0;
    while i < n
        invariant
            n == entries@.len(),
            i <= n,
            pairs_view(r@) == env_pairs(strings_view(entries@).take(i as int)),
        decreases n - i,
    {
        let ghost before = pairs_view(r@);
        let ghost next = strings_view(entries@).take(i + 1);
        assert(next.drop_last() =~= strings_view(entries@).take(i as int));
        assert(next.last() == entries@[i as int]@);
        match split_once(entries[i].as_str(), '=') {
            Some(p) => {
                r.push(p);
                assert(pairs_view(r@) =~= before.push((p.0@, p.1@)));
            },
            None => {},
        }
        i = i + 1;
    }
    assert(strings_view(entries@).take(n as int) =~= strings_view(entries@));
    r
}

/// How to start `shell` in a pseudo-terminal of the given size: its command
/// and arguments, in its working directory, with the variables its
/// well-formed environment entries set.
pub fn launch_plan(shell: SystemShell, geometry: Geometry) -> (r: LaunchPlan)
    ensures
        r.program@ == shell.command@,
        r.args@ == shell.args@,
        r.cwd@ == shell.cwd@,
        pairs_view(r.env@) == env_pairs(strings_view(shell.env@)),
        r.geometry == geometry,
{
    let env = env_settings(&shell.env);
    LaunchPlan { program: shell.command, args: shell.args, cwd: shell.cwd, env, geometry }
}

} // verus!
