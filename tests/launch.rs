use term_sessions::pty_conn::{env_settings, launch_plan, Geometry};
use term_sessions::shell_list::SystemShell;
use term_sessions::ssh_conn::HostInfo;
use term_sessions::text::{find_first, last_part, split_once};

fn strings(v: &[&str]) -> Vec<String> {
    v.iter().map(|s| s.to_string()).collect()
}

#[test]
fn env_entries_split_at_first_equals() {
    let r = env_settings(&strings(&["TERM=xterm", "MALFORMED", "A=b=c", "EMPTY="]));
    assert_eq!(
        r,
        vec![
            ("TERM".to_string(), "xterm".to_string()),
            ("A".to_string(), "b=c".to_string()),
            ("EMPTY".to_string(), String::new()),
        ]
    );
}

#[test]
fn plan_keeps_command_args_and_cwd() {
    let shell = SystemShell {
        name: "bash".to_string(),
        command: "/bin/bash".to_string(),
        args: strings(&["-l"]),
        env: strings(&["TERM=xterm-256color", "oops"]),
        cwd: "/tmp".to_string(),
    };
    let p = launch_plan(shell, Geometry::standard());
    assert_eq!(p.program, "/bin/bash");
    assert_eq!(p.args, strings(&["-l"]));
    assert_eq!(p.cwd, "/tmp");
    assert_eq!(p.env, vec![("TERM".to_string(), "xterm-256color".to_string())]);
    assert_eq!(p.geometry.rows, 24);
    assert_eq!(p.geometry.cols, 80);
}

#[test]
fn text_splitting() {
    assert_eq!(find_first("ab=c", '='), 2);
    assert_eq!(find_first("abc", '='), 3);
    assert_eq!(split_once("ké=vé", '='), Some(("ké".to_string(), "vé".to_string())));
    assert_eq!(split_once("none", '='), None);
    assert_eq!(last_part("/usr/bin/zsh", '/'), "zsh");
    assert_eq!(last_part("dir/", '/'), "");
    assert_eq!(last_part("plain", '/'), "plain");
}

#[test]
fn host_info_copies_fields() {
    let h = HostInfo::new("example.org", 2222, "ann", Some("pw"), None);
    assert_eq!(h.host, "example.org");
    assert_eq!(h.port, 2222);
    assert_eq!(h.username, "ann");
    assert_eq!(h.password.as_deref(), Some("pw"));
    assert_eq!(h.private_key, None);
}
