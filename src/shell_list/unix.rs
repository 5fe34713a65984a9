//! The shells of a Unix host: a login shell for the current user, when the
//! host supports it, and each shell that `/etc/shells` lists.

use vstd::prelude::*;
use crate::shell_list::{
    one_string, shells_view, strings_view, term_entry, term_setting, ShellView, SystemShell,
};
use crate::text::{after_last, last_part, split_first, split_once};
use vstd::string::{StrSliceExecFns, StringExecFns};

verus! {

/// The host name up to its first dot.
pub open spec fn short_host(host: Seq<char>) -> Seq<char> {
    match split_first(host, '.') {
        Some((a, _)) => a,
        None => host,
    }
}

/// The title of the login shell: `user@host`, with the short host name, or
/// the user alone when the host name is unknown.
pub open spec fn title_of(user: Seq<char>, host: Seq<char>) -> Seq<char> {
    if host.len() == 0 {
        user
    } else {
        user + "@"@ + short_host(host)
    }
}

/// The login shell entry.
pub open spec fn login_shell(
    title: Seq<char>,
    user: Seq<char>,
    term: Seq<char>,
    home: Seq<char>,
) -> ShellView {
    ShellView {
        name: title,
        command: "login"@,
        args: seq!["-f"@, user],
        env: seq![term_entry(term)],
        cwd: home,
    }
}

/// Whether a line of `/etc/shells` names a shell: it is neither empty nor a
/// comment.
pub open spec fn is_listed(line: Seq<char>) -> bool {
    line.len() > 0 && line[0] != '#'
}

/// The entry for a listed shell, named after the last part of its path.
pub open spec fn listed_shell(line: Seq<char>, term: Seq<char>, home: Seq<char>) -> ShellView {
    ShellView {
        name: after_last(line, '/'),
        command: line,
        args: Seq::empty(),
        env: seq![term_entry(term)],
        cwd: home,
    }
}

/// The entries for the shells that `lines` list, in order.
pub open spec fn listed_shells(lines: Seq<Seq<char>>, term: Seq<char>, home: Seq<char>) -> Seq<
    ShellView,
>
    decreases lines.len(),
{
    if lines.len() == 0 {
        Seq::empty()
    } else {
        let rest = listed_shells(lines.drop_last(), term, home);
        if is_listed(lines.last()) {
            rest.push(listed_shell(lines.last(), term, home))
        } else {
            rest
        }
    }
}

/// The whole catalog: the login shell first, when it is offered and the user
/// is known, then the listed shells.
pub open spec fn unix_catalog(
    login_supported: bool,
    term: Seq<char>,
    home: Seq<char>,
    user: Seq<char>,
    host: Seq<char>,
    lines: Seq<Seq<char>>,
) -> Seq<ShellView> {
    let login = if login_supported && user.len() > 0 {
        seq![login_shell(title_of(user, host), user, term, home)]
    } else {
        Seq::empty()
    };
    login + listed_shells(lines, term, home)
}

/// The title of the login shell for `user` on `hostname`.
pub fn login_title(user: &str, hostname: &str) -> (r: String)
    ensures
        r@ == title_of(user@, hostname@),
{
    if hostname.unicode_len() == 0 {
        return user.to_owned();
    }
    let short = match split_once(hostname, '.') {
        Some((a, _)) => a,
        None => hostname.to_owned(),
    };
    let mut r = user.to_owned();
    r.append("@");
    r.append(short.as_str());
    r
}

/// The entry for one line of `/etc/shells`, if it names a shell.
pub fn shell_from_line(line: &str, term: &str, home: &str) -> (r: Option<SystemShell>)
    ensures
        match r {
            Some(s) => is_listed(line@) && s@ == listed_shell(line@, term@, home@),
            None => !is_listed(line@),
        },
{
    if line.unicode_len() == 0 || line.get_char(0) == '#' {
        return None;
    }
    let s = SystemShell {
        name: last_part(line, '/'),
        command: line.to_owned(),
        args: Vec::new(),
        env: one_string(term_setting(term)),
        cwd: home.to_owned(),
    };
    assert(strings_view(s.args@) =~= Seq::<Seq<char>>::empty());
    Some(s)
}

/// The shells of a Unix host, from what the host reports: whether `login`
/// may be started for the user, the terminal type, the home directory, the
/// user and host names, and the lines of `/etc/shells`.
pub fn get_shells(
    login_supported: bool,
    term: &str,
    home: &str,
    user: &str,
    hostname: &str,
    lines: &Vec<String>,
) -> (r: Vec<SystemShell>)
    ensures
        shells_view(r@) == unix_catalog(
            login_supported,
            term@,
            home@,
            user@,
            hostname@,
            strings_view(lines@),
        ),
{
    let mut shells: Vec<SystemShell> = Vec::new();
    if login_supported && user.unicode_len() > 0 {
        let mut args = one_string("-f".to_owned());
        let ghost first = args@;
        args.push(user.to_owned());
        assert(strings_view(args@) =~= strings_view(first).push(user@));
        let s = SystemShell {
            name: login_title(user, hostname),
            command: "login".to_owned(),
            args,
            env: one_string(term_setting(term)),
            cwd: home.to_owned(),
        };
        assert(strings_view(s.args@) =~= seq!["-f"@, user@]);
        shells.push(s);
        assert(shells_view(shells@) =~= seq![
            login_shell(title_of(user@, hostname@), user@, term@, home@),
        ]);
    } else {
        assert(shells_view(shells@) =~= Seq::<ShellView>::empty());
    }
    let ghost start = shells_view(shells@);
    let n = lines.len();
    let mut i: usize = 0;
    while i < n
        invariant
            n == lines@.len(),
            i <= n,
            shells_view(shells@) == start + listed_shells(
                strings_view(lines@).take(i as int),
                term@,
                home@,
            ),
        decreases n - i,
    {
        let ghost before = shells_view(shells@);
        let ghost prefix = strings_view(lines@).take(i as int);
        let ghost next = strings_view(lines@).take(i + 1);
        assert(next.drop_last() =~= prefix);
        assert(next.last() == lines@[i as int]@);
        match shell_from_line(lines[i].as_str(), term, home) {
            Some(s) => {
                shells.push(s);
                assert(shells_view(shells@) =~= before.push(s@));
            },
            None => {},
        }
        i = i + 1;
    }
    assert(strings_view(lines@).take(n as int) =~= strings_view(lines@));
    shells
}

} // verus!
