use term_sessions::shell_list::{term_or_default, term_setting, unix, windows, SystemShell};

fn check(s: &SystemShell, name: &str, command: &str, args: &[&str], env: &[&str], cwd: &str) {
    assert_eq!(s.name, name);
    assert_eq!(s.command, command);
    assert_eq!(s.args, args.iter().map(|a| a.to_string()).collect::<Vec<_>>());
    assert_eq!(s.env, env.iter().map(|a| a.to_string()).collect::<Vec<_>>());
    assert_eq!(s.cwd, cwd);
}

fn lines(v: &[&str]) -> Vec<String> {
    v.iter().map(|s| s.to_string()).collect()
}

#[test]
fn unix_catalog_with_login() {
    let l = lines(&["# List of acceptable shells", "/bin/sh", "", "/usr/bin/zsh"]);
    let r = unix::get_shells(true, "xterm", "/home/ann", "ann", "box.example.org", &l);
    assert_eq!(r.len(), 3);
    check(&r[0], "ann@box", "login", &["-f", "ann"], &["TERM=xterm"], "/home/ann");
    check(&r[1], "sh", "/bin/sh", &[], &["TERM=xterm"], "/home/ann");
    check(&r[2], "zsh", "/usr/bin/zsh", &[], &["TERM=xterm"], "/home/ann");
}

#[test]
fn unix_catalog_without_login() {
    let l = lines(&["/bin/bash"]);
    let r = unix::get_shells(false, "vt100", "/", "ann", "box", &l);
    assert_eq!(r.len(), 1);
    check(&r[0], "bash", "/bin/bash", &[], &["TERM=vt100"], "/");
    let r = unix::get_shells(true, "vt100", "/", "", "box", &l);
    assert_eq!(r.len(), 1);
}

#[test]
fn login_titles() {
    assert_eq!(unix::login_title("ann", ""), "ann");
    assert_eq!(unix::login_title("ann", "box"), "ann@box");
    assert_eq!(unix::login_title("ann", "box.lan.example"), "ann@box");
}

#[test]
fn shell_lines() {
    assert!(unix::shell_from_line("", "t", "/").is_none());
    assert!(unix::shell_from_line("#/bin/sh", "t", "/").is_none());
    let s = unix::shell_from_line("/opt/fish", "t", "/h").unwrap();
    check(&s, "fish", "/opt/fish", &[], &["TERM=t"], "/h");
    let s = unix::shell_from_line("nosep", "t", "/h").unwrap();
    assert_eq!(s.name, "nosep");
}

#[test]
fn windows_catalog_full() {
    let d = lines(&["Ubuntu"]);
    let r = windows::get_shells(
        "xterm-256color",
        "C:\\Users\\ann",
        Some("C:\\ps\\powershell.exe".to_string()),
        Some("C:\\Program Files\\Git\\bin\\bash.exe".to_string()),
        &d,
    );
    assert_eq!(r.len(), 4);
    check(&r[0], "CMD", "cmd.exe", &[], &["TERM=xterm-256color"], "C:\\Users\\ann");
    check(&r[1], "PowerShell", "C:\\ps\\powershell.exe", &[], &["TERM=xterm-256color"], "C:\\Users\\ann");
    check(&r[2], "Git Bash", "C:\\Program Files\\Git\\bin\\bash.exe", &[], &["TERM=xterm-256color"], "C:\\Users\\ann");
    check(
        &r[3],
        "WSL(Ubuntu)",
        "wsl.exe",
        &["-d", "Ubuntu"],
        &["TERM=xterm-256color", "COLORTERM=truecolor"],
        "C:\\Users\\ann",
    );
}

#[test]
fn windows_catalog_minimal() {
    let r = windows::get_shells("t", "h", None, None, &Vec::new());
    assert_eq!(r.len(), 1);
    check(&r[0], "CMD", "cmd.exe", &[], &["TERM=t"], "h");
}

#[test]
fn term_defaults() {
    assert_eq!(term_or_default(None), "xterm-256color");
    assert_eq!(term_or_default(Some("screen".to_string())), "screen");
    assert_eq!(term_setting("dumb"), "TERM=dumb");
}
