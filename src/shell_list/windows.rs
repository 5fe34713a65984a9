//! The shells of a Windows host: the command prompt, PowerShell and Git Bash
//! where they are installed, and each installed WSL distribution.

use vstd::prelude::*;
use crate::shell_list::{
    one_string, shells_view, strings_view, term_entry, term_setting, ShellView, SystemShell,
};
use vstd::string::StringExecFns;

verus! {

/// An entry that starts `command` with no arguments.
pub open spec fn plain_shell(
    name: Seq<char>,
    command: Seq<char>,
    term: Seq<char>,
    home: Seq<char>,
) -> ShellView {
    ShellView {
        name,
        command,
        args: Seq::empty(),
        env: seq![term_entry(term)],
        cwd: home,
    }
}

/// The entry for a WSL distribution.
pub open spec fn wsl_shell(distribution: Seq<char>, home: Seq<char>) -> ShellView {
    ShellView {
        name: "WSL("@ + distribution + ")"@,
        command: "wsl.exe"@,
        args: seq!["-d"@, distribution],
        env: seq!["TERM=xterm-256color"@, "COLORTERM=truecolor"@],
        cwd: home,
    }
}

/// An entry for each WSL distribution, in order.
pub open spec fn wsl_shells(distributions: Seq<Seq<char>>, home: Seq<char>) -> Seq<ShellView> {
    distributions.map_values(|d: Seq<char>| wsl_shell(d, home))
}

/// The entry for an installed program, if it is installed.
pub open spec fn found_shell(
    name: Seq<char>,
    path: Option<Seq<char>>,
    term: Seq<char>,
    home: Seq<char>,
) -> Seq<ShellView> {
    match path {
        Some(p) => seq![plain_shell(name, p, term, home)],
        None => Seq::empty(),
    }
}

/// The view of an optional string.
pub open spec fn opt_view(s: Option<String>) -> Option<Seq<char>> {
    match s {
        Some(t) => Some(t@),
        None => None,
    }
}

/// The whole catalog, in order: the command prompt, PowerShell, Git Bash,
/// then the WSL distributions.
pub open spec fn windows_catalog(
    term: Seq<char>,
    home: Seq<char>,
    powershell: Option<Seq<char>>,
    git_bash: Option<Seq<char>>,
    distributions: Seq<Seq<char>>,
) -> Seq<ShellView> {
    seq![plain_shell("CMD"@, "cmd.exe"@, term, home)] + found_shell(
        "PowerShell"@,
        powershell,
        term,
        home,
    ) + found_shell("Git Bash"@, git_bash, term, home) + wsl_shells(distributions, home)
}

fn plain(name: String, command: String, term: &str, home: &str) -> (r: SystemShell)
    ensures
        r@ == plain_shell(name@, command@, term@, home@),
{
    let r = SystemShell {
        name,
        command,
        args: Vec::new(),
        env: one_string(term_setting(term)),
        cwd: home.to_owned(),
    };
    assert(strings_view(r.args@) =~= Seq::<Seq<char>>::empty());
    r
}

fn wsl(distribution: &str, home: &str) -> (r: SystemShell)
    ensures
        r@ == wsl_shell(distribution@, home@),
{
    let mut name = "WSL(".to_owned();
    name.append(distribution);
    name.append(")");
    let mut args = one_string("-d".to_owned());
    let ghost a0 = args@;
    args.push(distribution.to_owned());
    assert(strings_view(args@) =~= strings_view(a0).push(distribution@));
    let mut env = one_string("TERM=xterm-256color".to_owned());
    let ghost e0 = env@;
    env.push("COLORTERM=truecolor".to_owned());
    assert(strings_view(env@) =~= strings_view(e0).push("COLORTERM=truecolor"@));
    let r = SystemShell { name, command: "wsl.exe".to_owned(), args, env, cwd: home.to_owned() };
    assert(strings_view(r.args@) =~= seq!["-d"@, distribution@]);
    assert(strings_view(r.env@) =~= seq!["TERM=xterm-256color"@, "COLORTERM=truecolor"@]);
    r
}

/// The shells of a Windows host, from what the host reports: the terminal
/// type, the home directory, where PowerShell and Git Bash are installed if
/// they are, and the names of the installed WSL distributions.
pub fn get_shells(
    term: &str,
    home: &str,
    powershell: Option<String>,
    git_bash: Option<String>,
    distributions: &Vec<String>,
) -> (r: Vec<SystemShell>)
    ensures
        shells_view(r@) == windows_catalog(
            term@,
            home@,
            opt_view(powershell),
            opt_view(git_bash),
            strings_view(distributions@),
        ),
{
    let mut shells: Vec<SystemShell> = Vec::new();
    shells.push(plain("CMD".to_owned(), "cmd.exe".to_owned(), term, home));
    let ghost t = term@;
    let ghost h = home@;
    let ghost s0 = seq![plain_shell("CMD"@, "cmd.exe"@, t, h)];
    assert(shells_view(shells@) =~= s0);
    let ghost p_view = opt_view(powershell);
    let ghost g_view = opt_view(git_bash);
    match powershell {
        Some(p) => {
            let ghost before = shells_view(shells@);
            shells.push(plain("PowerShell".to_owned(), p, term, home));
            assert(shells_view(shells@) =~= before + found_shell("PowerShell"@, p_view, t, h));
        },
        None => {
            assert(s0 + found_shell("PowerShell"@, p_view, t, h) =~= s0);
        },
    }
    let ghost s1 = s0 + found_shell("PowerShell"@, p_view, t, h);
    assert(shells_view(shells@) =~= s1);
    match git_bash {
        Some(g) => {
            let ghost before = shells_view(shells@);
            shells.push(plain("Git Bash".to_owned(), g, term, home));
            assert(shells_view(shells@) =~= before + found_shell("Git Bash"@, g_view, t, h));
        },
        None => {
            assert(s1 + found_shell("Git Bash"@, g_view, t, h) =~= s1);
        },
    }
    let ghost s2 = s1 + found_shell("Git Bash"@, g_view, t, h);
    assert(shells_view(shells@) =~= s2);
    let n = distributions.len();
    let mut i: usize = 0;
    while i < n
        invariant
            n == distributions@.len(),
            i <= n,
            shells_view(shells@) == s2 + wsl_shells(strings_view(distributions@).take(i as int), h),
            t == term@,
            h == home@,
        decreases n - i,
    {
        let ghost before = shells_view(shells@);
        let w = wsl(distributions[i].as_str(), home);
        let ghost wv = w@;
        shells.push(w);
        assert(shells_view(shells@) =~= before.push(wv));
        assert(strings_view(distributions@).take(i + 1) =~= strings_view(distributions@).take(
            i as int,
        ).push(distributions@[i as int]@));
        assert(wsl_shells(strings_view(distributions@).take(i + 1), h) =~= wsl_shells(
            strings_view(distributions@).take(i as int),
            h,
        ).push(wsl_shell(distributions@[i as int]@, h)));
        assert(shells_view(shells@) =~= s2 + wsl_shells(
            strings_view(distributions@).take(i + 1),
            h,
        ));
        i = i + 1;
    }
    assert(strings_view(distributions@).take(n as int) =~= strings_view(distributions@));
    shells
}

} // verus!
