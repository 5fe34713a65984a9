//! Shell descriptors: what a session can be started with, and the catalog
//! of the shells a host offers, built from what the host reports.

use vstd::prelude::*;
use vstd::string::StringExecFns;

pub mod unix;
pub mod windows;

verus! {

/// A shell that a session can be started with.
pub struct SystemShell {
    pub name: String,
    pub command: String,
    pub args: Vec<String>,
    /// Environment entries, each `KEY=VALUE`.
    pub env: Vec<String>,
    pub cwd: String,
}

/// A shell descriptor as values.
pub struct ShellView {
    pub name: Seq<char>,
    pub command: Seq<char>,
    pub args: Seq<Seq<char>>,
    pub env: Seq<Seq<char>>,
    pub cwd: Seq<char>,
}

/// The views of a sequence of strings.
pub open spec fn strings_view(v: Seq<String>) -> Seq<Seq<char>> {
    v.map_values(|s: String| s@)
}

impl View for SystemShell {
    type V = ShellView;

    open spec fn view(&self) -> ShellView {
        ShellView {
            name: self.name@,
            command: self.command@,
            args: strings_view(self.args@),
            env: strings_view(self.env@),
            cwd: self.cwd@,
        }
    }
}

/// The views of a sequence of shell descriptors.
pub open spec fn shells_view(v: Seq<SystemShell>) -> Seq<ShellView> {
    v.map_values(|s: SystemShell| s@)
}

/// The environment entry that sets `TERM`.
pub open spec fn term_entry(term: Seq<char>) -> Seq<char> {
    "TERM="@ + term
}

/// The `TERM` environment entry for `term`.
pub fn term_setting(term: &str) -> (r: String)
    ensures
        r@ == term_entry(term@),
{
    let mut r = "TERM=".to_owned();
    r.append(term);
    r
}

/// The terminal type to announce: the host's own, or `xterm-256color` when
/// it names none.
pub fn term_or_default(term: Option<String>) -> (r: String)
    ensures
        match term {
            Some(t) => r@ == t@,
            None => r@ == "xterm-256color"@,
        },
{
    match term {
        Some(t) => t,
        None => "xterm-256color".to_owned(),
    }
}

/// A single-element vector holding `s`.
pub fn one_string(s: String) -> (r: Vec<String>)
    ensures
        strings_view(r@) == seq![s@],
{
    let mut r = Vec::new();
    r.push(s);
    assert(strings_view(r@) =~= seq![s@]);
    r
}

} // verus!
