use ws_ide::error::ErrorKind;
use ws_ide::events::OutEvent;
use ws_ide::registry::Registry;
use ws_ide::shell_rpc::{
    create_new_project, cwd_command, cwd_failed, get_current_directory, get_directory_items, list_command,
    parse_cwd, parse_listing, project_commands, read_order, read_terminal_output,
    sanitize_project_name, shell_order, strip_ansi_codes, tree_root, CreateProjectPayload,
    DirItem, ReadEvent, CWD_SETTLE_MS, CWD_TIMEOUT_MS, LIST_SETTLE_MS, LIST_TIMEOUT_MS,
    PROJECT_SETTLE_MS,
};

fn item(name: &str, is_dir: bool) -> DirItem {
    DirItem { name: name.to_string(), is_dir }
}

fn registry_with_shell(email: &str, handle: u64) -> Registry {
    let mut r = Registry::new();
    r.register(email, "client-1");
    r.set_secondary(email, Some(handle)).unwrap();
    r
}

#[test]
fn strip_ansi_removes_colour_codes() {
    assert_eq!(strip_ansi_codes("\x1b[31mred\x1b[0m plain"), "red plain");
    assert_eq!(strip_ansi_codes("\x1b[1;32mok\x1b[m"), "ok");
    assert_eq!(strip_ansi_codes("no codes"), "no codes");
    assert_eq!(strip_ansi_codes(""), "");
}

#[test]
fn strip_ansi_keeps_other_escapes() {
    assert_eq!(strip_ansi_codes("\x1b[2Jx"), "\x1b[2Jx");
    assert_eq!(strip_ansi_codes("\x1b[31"), "\x1b[31");
}

#[test]
fn parse_cwd_skips_echo_and_prompt() {
    assert_eq!(parse_cwd("pwd\r\n/home/proj\r\nroot@abc:/home/proj# "), "/home/proj");
}

#[test]
fn parse_cwd_takes_first_remaining_line_trimmed() {
    assert_eq!(parse_cwd("\n  /srv/app  \n/other\n"), "/srv/app");
}

#[test]
fn parse_cwd_without_answer_is_root() {
    assert_eq!(parse_cwd(""), "/");
    assert_eq!(parse_cwd("pwd\nroot@abc:/# \n   \n"), "/");
    assert_eq!(parse_cwd("/tmp # not a path"), "/");
}

#[test]
fn current_directory_strips_colours_first() {
    assert_eq!(get_current_directory(Some("pwd\r\n\x1b[34m/home/x\x1b[0m\r\n")), "/home/x");
}

#[test]
fn current_directory_on_timeout_is_root() {
    assert_eq!(get_current_directory(None), "/");
}

#[test]
fn parse_listing_reads_long_format() {
    let out = "ls -la --color=never '/home' 2>/dev/null | tail -n +2\r\n\
total 12\r\n\
drwxr-xr-x 1 root root 4096 May  1 10:00 .\r\n\
drwxr-xr-x 1 root root 4096 May  1 10:00 ..\r\n\
drwxr-xr-x 2 root root 4096 May  1 10:00 myApp\r\n\
-rw-r--r-- 1 root root   12 May  1 10:00 notes.txt\r\n\
-rw-r--r-- 1 root root   12 May  1 10:00 my file.txt\r\n\
drwxr-xr-x 2 root root 4096 May  1 10:00 node_modules\r\n\
drwxr-xr-x 2 root root 4096 May  1 10:00 .git\r\n\
drwxr-xr-x 2 root root 4096 May  1 10:00 __pycache__\r\n\
drwxr-xr-x 2 root root 4096 May  1 10:00 .cache\r\n\
lrwxrwxrwx 1 root root    7 May  1 10:00 link -> target\r\n\
root@abc:/home# ";
    assert_eq!(
        parse_listing(out),
        vec![
            item("myApp", true),
            item("notes.txt", false),
            item("my file.txt", false),
            item("link -> target", false),
        ]
    );
}

#[test]
fn parse_listing_skips_short_lines() {
    assert_eq!(parse_listing("drwxr-xr-x 2 root root 4096 May 1 name\n"), vec![]);
    assert_eq!(parse_listing(""), vec![]);
}

#[test]
fn directory_items_on_timeout_are_none() {
    assert_eq!(get_directory_items(None), vec![]);
}

#[test]
fn directory_items_strip_colours_first() {
    let out = "drwxr-xr-x 2 root root 4096 May  1 10:00 \x1b[01;34msrc\x1b[0m\n";
    assert_eq!(get_directory_items(Some(out)), vec![item("src", true)]);
}

#[test]
fn commands_are_exact() {
    assert_eq!(cwd_command(), "pwd\n");
    assert_eq!(
        list_command("/home/my app"),
        "ls -la --color=never '/home/my app' 2>/dev/null | tail -n +2\n"
    );
    assert_eq!(CWD_TIMEOUT_MS, 1000);
    assert_eq!(CWD_SETTLE_MS, 100);
    assert_eq!(LIST_SETTLE_MS, 200);
    assert_eq!(LIST_TIMEOUT_MS, 1500);
    assert_eq!(PROJECT_SETTLE_MS, 100);
}

#[test]
fn tree_root_replaces_the_root_directory() {
    assert_eq!(tree_root("/"), "/home");
    assert_eq!(tree_root("/home/proj"), "/home/proj");
    assert_eq!(tree_root(""), "");
}

#[test]
fn project_name_is_sanitized() {
    assert_eq!(sanitize_project_name("my App!!").unwrap(), "myApp");
    assert_eq!(sanitize_project_name("a_b-c9").unwrap(), "a_b-c9");
    assert_eq!(sanitize_project_name("caf\u{e9}").unwrap(), "caf");
}

#[test]
fn project_name_of_symbols_is_bad_input() {
    for name in ["!!!", "", "  ", "@#$%^&*()", "\u{e9}\u{e8}"] {
        let e = sanitize_project_name(name).unwrap_err();
        assert_eq!(e.kind, ErrorKind::BadInput);
        assert_eq!(e.message, "Project name contains no valid characters");
    }
}

#[test]
fn project_commands_change_directory_then_make_it() {
    assert_eq!(project_commands("my App!!").unwrap(), vec!["cd /home\n", "mkdir myApp\n"]);
    assert_eq!(project_commands("??").unwrap_err().kind, ErrorKind::BadInput);
}

#[test]
fn create_project_plans_commands_and_frame() {
    let r = registry_with_shell("alice@x.com", 11);
    let payload = CreateProjectPayload {
        email: "alice@x.com".to_string(),
        project_name: "my App!!".to_string(),
    };
    let order = create_new_project(&r, &payload).unwrap();
    assert_eq!(order.handle, 11);
    assert_eq!(order.commands, vec!["cd /home\n", "mkdir myApp\n"]);
    assert_eq!(order.created.event, OutEvent::RepoCreated);
    assert_eq!(order.created.text, "my App!!");
}

#[test]
fn create_project_without_shell_is_not_found() {
    let r = Registry::new();
    let payload = CreateProjectPayload {
        email: "alice@x.com".to_string(),
        project_name: "my App!!".to_string(),
    };
    let e = create_new_project(&r, &payload).unwrap_err();
    assert_eq!(e.kind, ErrorKind::SessionNotFound);
    assert_eq!(e.message, "No terminal found for email: alice@x.com");
}

#[test]
fn create_project_of_symbols_is_bad_input_whatever_the_session() {
    let payload = CreateProjectPayload {
        email: "alice@x.com".to_string(),
        project_name: "!@#$%^&*()".to_string(),
    };
    let registries = [
        Registry::new(),
        registry_with_shell("alice@x.com", 11),
        registry_with_shell("bob@x.com", 12),
    ];
    for r in &registries {
        let before = r.len();
        let e = create_new_project(r, &payload).unwrap_err();
        assert_eq!(e.kind, ErrorKind::BadInput);
        assert_eq!(e.message, "Project name contains no valid characters");
        assert_eq!(r.len(), before);
    }
}

#[test]
fn create_project_with_bad_name_is_bad_input() {
    let r = registry_with_shell("alice@x.com", 11);
    let payload = CreateProjectPayload {
        email: "alice@x.com".to_string(),
        project_name: "!!".to_string(),
    };
    let e = create_new_project(&r, &payload).unwrap_err();
    assert_eq!(e.kind, ErrorKind::BadInput);
}

#[test]
fn shell_order_goes_to_the_secondary_terminal() {
    let mut r = registry_with_shell("alice@x.com", 11);
    r.attach("alice@x.com", 5, "c1").unwrap();
    let order = shell_order(&r, "alice@x.com", "pwd\n").unwrap();
    assert_eq!(order.handle, 11);
    assert_eq!(order.bytes, b"pwd\n".to_vec());
    let e = shell_order(&r, "bob@x.com", "pwd\n").unwrap_err();
    assert_eq!(e.kind, ErrorKind::SessionNotFound);
    assert_eq!(e.message, "No terminal found for email: bob@x.com");
}

#[test]
fn read_order_names_the_reason() {
    let mut r = Registry::new();
    let e = read_order(&r, "alice@x.com").unwrap_err();
    assert_eq!(e.kind, ErrorKind::SessionNotFound);
    assert_eq!(e.message, "User alice@x.com not found in terminal mapping");
    r.register("alice@x.com", "c");
    let e = read_order(&r, "alice@x.com").unwrap_err();
    assert_eq!(e.message, "No active terminal for user: alice@x.com");
    r.set_secondary("alice@x.com", Some(4)).unwrap();
    assert_eq!(read_order(&r, "alice@x.com").unwrap(), 4);
}

#[test]
fn read_output_decodes_bytes() {
    let mut r = registry_with_shell("alice@x.com", 11);
    let text = read_terminal_output(&mut r, "alice@x.com", ReadEvent::Bytes(b"/home\r\n".to_vec()));
    assert_eq!(text.unwrap(), "/home\r\n");
    let text =
        read_terminal_output(&mut r, "alice@x.com", ReadEvent::Bytes(vec![0x61, 0xe2, 0x82]));
    assert_eq!(text.unwrap(), "a");
    let text = read_terminal_output(&mut r, "alice@x.com", ReadEvent::Bytes(vec![0xff, 0x61]));
    assert_eq!(text.unwrap(), "\\xff\\x61");
    assert_eq!(r.secondary_of("alice@x.com"), Some(11));
}

#[test]
fn read_output_at_end_forgets_the_shell() {
    let mut r = registry_with_shell("alice@x.com", 11);
    let e = read_terminal_output(&mut r, "alice@x.com", ReadEvent::Eof).unwrap_err();
    assert_eq!(e.kind, ErrorKind::PtyIoError);
    assert_eq!(e.message, "Terminal session ended");
    assert_eq!(r.secondary_of("alice@x.com"), None);
    assert!(r.contains("alice@x.com"));
}

#[test]
fn read_output_passes_errors_on() {
    let mut r = registry_with_shell("alice@x.com", 11);
    let e = read_terminal_output(&mut r, "alice@x.com", ReadEvent::Failed("EIO".to_string()))
        .unwrap_err();
    assert_eq!(e.kind, ErrorKind::PtyIoError);
    assert_eq!(e.message, "EIO");
    assert_eq!(r.secondary_of("alice@x.com"), Some(11));
}

#[test]
fn failure_to_ask_for_the_directory_is_named() {
    let r = Registry::new();
    let cause = shell_order(&r, "alice@x.com", "pwd\n").unwrap_err();
    let shown = cwd_failed(&cause);
    assert_eq!(shown.kind, ErrorKind::SessionNotFound);
    assert_eq!(
        shown.message,
        "Failed to get current directory: No terminal found for email: alice@x.com"
    );
}

#[test]
fn printed_directory_is_reported_whatever_surrounds_it() {
    for dir in ["/home", "/home/my project", "/srv/a-b_c.d", "/"] {
        let reply = format!("pwd\r\n\r\nroot@abc:/# \n  {}\t\r\nroot@abc:{}# \nmore\n", dir, dir);
        assert_eq!(parse_cwd(&reply), dir);
    }
}

#[test]
fn directory_whose_name_is_noise_is_not_reported() {
    assert_eq!(parse_cwd("pwd\n/home/pwd-tools\nroot@abc:/# \n"), "/");
    assert_eq!(parse_cwd("pwd\n/home/c#\nroot@abc:/# \n"), "/");
}
