use ws_ide::error::ErrorKind;
use ws_ide::events::{Emit, OutEvent};
use ws_ide::files::{
    get_file_data, plan_save, read_outcome, rename_outcome, save_file_data, tee_outcome,
    ExecResult, FileEvent, FileOrder, FileStep, SaveFile, TeeResult,
};
use ws_ide::registry::Registry;

fn with_container() -> Registry {
    let mut r = Registry::new();
    r.register("alice@x.com", "c1");
    r.attach("alice@x.com", 3, "box-a").unwrap();
    r
}

fn ran(success: bool, stdout: &str, stderr: &str) -> ExecResult {
    ExecResult::Ran { success, stdout: stdout.to_string(), stderr: stderr.to_string() }
}

#[test]
fn file_is_read_with_cat_in_the_container() {
    let r = with_container();
    assert_eq!(
        get_file_data(&r, "alice@x.com", "/home/a b.txt").unwrap(),
        vec!["exec", "box-a", "cat", "/home/a b.txt"]
    );
}

#[test]
fn unknown_user_has_no_container_for_files() {
    let r = Registry::new();
    let f = get_file_data(&r, "alice@x.com", "/x").unwrap_err();
    assert_eq!(f.error.kind, ErrorKind::SessionNotFound);
    assert_eq!(f.error.message, "No Docker container found for email: alice@x.com");
    assert_eq!(
        f.frame(),
        Emit {
            event: OutEvent::FileError,
            text: "No Docker container found for email: alice@x.com".to_string(),
        }
    );
    let f = save_file_data(&r, "alice@x.com", "/x", "c").unwrap_err();
    assert_eq!(f.error.kind, ErrorKind::SessionNotFound);
}

#[test]
fn registered_user_without_container_is_bad_input() {
    let mut r = Registry::new();
    r.register("alice@x.com", "c1");
    let f = get_file_data(&r, "alice@x.com", "/x").unwrap_err();
    assert_eq!(f.error.kind, ErrorKind::BadInput);
    assert_eq!(f.error.message, "Missing container ID");
    assert_eq!(f.frame().event, OutEvent::FileError);
    assert_eq!(f.frame().text, "Missing container ID");
}

#[test]
fn content_read_is_sent_as_files_data() {
    let e = read_outcome("/x", ran(true, "line 1\nline 2\n", "")).unwrap();
    assert_eq!(e, Emit { event: OutEvent::FilesData, text: "line 1\nline 2\n".to_string() });
}

#[test]
fn failed_read_reports_the_error_stream() {
    let f = read_outcome("/x", ran(false, "", "cat: /x: No such file or directory\n")).unwrap_err();
    assert_eq!(f.error.kind, ErrorKind::BadInput);
    assert_eq!(
        f.error.message,
        "Failed to read file '/x': cat: /x: No such file or directory\n"
    );
}

#[test]
fn read_that_cannot_run_reports_the_system() {
    let f = read_outcome("/x", ExecResult::NotRun("docker: not found".to_string())).unwrap_err();
    assert_eq!(f.error.kind, ErrorKind::RuntimeUnavailable);
    assert_eq!(f.error.message, "Failed to execute docker command: docker: not found");
}

#[test]
fn save_writes_a_temporary_file_then_moves_it() {
    let r = with_container();
    let plan = save_file_data(&r, "alice@x.com", "/home/app/main.rs", "fn main() {}\n").unwrap();
    assert_eq!(
        plan.mkdir,
        Some(vec![
            "exec".to_string(),
            "box-a".to_string(),
            "mkdir".to_string(),
            "-p".to_string(),
            "/home/app".to_string(),
        ])
    );
    assert_eq!(plan.tee, vec!["exec", "-i", "box-a", "tee", "/home/app/main.rs.tmp"]);
    assert_eq!(plan.input, b"fn main() {}\n".to_vec());
    assert_eq!(plan.temp_path, "/home/app/main.rs.tmp");
    assert_eq!(
        plan.rename,
        vec!["exec", "box-a", "mv", "/home/app/main.rs.tmp", "/home/app/main.rs"]
    );
    assert_eq!(plan.verify, vec!["exec", "box-a", "wc", "-c", "/home/app/main.rs"]);
}

#[test]
fn save_hands_the_content_over_byte_for_byte() {
    let r = with_container();
    for content in ["", "a", "ünï©ødé €\n", "tab\tand\r\nline ends", "\u{0}\u{7f}"] {
        let plan = save_file_data(&r, "alice@x.com", "/f", content).unwrap();
        assert_eq!(plan.input, content.as_bytes().to_vec());
        assert_eq!(String::from_utf8(plan.input).unwrap(), content);
    }
    let big = "x€".repeat(262144);
    let plan = save_file_data(&r, "alice@x.com", "/f", &big).unwrap();
    assert_eq!(plan.input.len(), 1048576);
    assert_eq!(plan.input, big.as_bytes().to_vec());
}

#[test]
fn save_at_the_root_makes_no_directory() {
    let r = with_container();
    let plan = save_file_data(&r, "alice@x.com", "/", "x").unwrap();
    assert_eq!(plan.mkdir, None);
}

#[test]
fn plan_save_takes_the_directory_as_given() {
    let plan = plan_save("box", "a/b", Some("a"), "c");
    assert_eq!(
        plan.mkdir,
        Some(vec![
            "exec".to_string(),
            "box".to_string(),
            "mkdir".to_string(),
            "-p".to_string(),
            "a".to_string(),
        ])
    );
    let plan = plan_save("box", "a/b", None, "c");
    assert_eq!(plan.mkdir, None);
    assert_eq!(plan.temp_path, "a/b.tmp");
}

#[test]
fn temporary_file_outcomes() {
    let ok = TeeResult::Ran { success: true, stderr: String::new() };
    assert_eq!(tee_outcome("/f.tmp", &ok), Ok(()));

    let bad = TeeResult::Ran { success: false, stderr: "tee: denied".to_string() };
    let f = tee_outcome("/f.tmp", &bad).unwrap_err();
    assert_eq!(f.error.kind, ErrorKind::BadInput);
    assert_eq!(f.error.message, "Failed to write temp file '/f.tmp': tee: denied");

    let f = tee_outcome("/f.tmp", &TeeResult::SpawnFailed("enoent".to_string())).unwrap_err();
    assert_eq!(f.error.kind, ErrorKind::RuntimeUnavailable);
    assert_eq!(f.error.message, "Failed to spawn docker command: enoent");

    let f = tee_outcome("/f.tmp", &TeeResult::WriteFailed("epipe".to_string())).unwrap_err();
    assert_eq!(f.error.message, "Failed to write to stdin: epipe");

    let f = tee_outcome("/f.tmp", &TeeResult::WaitFailed("echild".to_string())).unwrap_err();
    assert_eq!(f.error.message, "Failed to wait for process: echild");
}

#[test]
fn move_outcomes() {
    let e = rename_outcome("/f", &ran(true, "", "")).unwrap();
    assert_eq!(
        e,
        Emit { event: OutEvent::FileSaved, text: "File '/f' saved successfully".to_string() }
    );

    let f = rename_outcome("/f", &ran(false, "", "mv: busy")).unwrap_err();
    assert_eq!(f.error.kind, ErrorKind::BadInput);
    assert_eq!(f.error.message, "Failed to move temp file to '/f': mv: busy");

    let f = rename_outcome("/f", &ExecResult::NotRun("gone".to_string())).unwrap_err();
    assert_eq!(f.error.kind, ErrorKind::RuntimeUnavailable);
    assert_eq!(f.error.message, "Failed to execute mv command: gone");
}

fn args(items: &[&str]) -> Vec<String> {
    items.iter().map(|a| a.to_string()).collect()
}

#[test]
fn save_runs_its_commands_in_order() {
    let plan = plan_save("box", "/d/f", Some("/d"), "hello");
    let (mut flow, step) = SaveFile::begin("/d/f", plan);
    assert_eq!(
        step,
        FileStep::Run(FileOrder::MakeDirectory(args(&["exec", "box", "mkdir", "-p", "/d"])))
    );
    let step = flow.step(FileEvent::Ran(ran(false, "", "mkdir: exists")));
    assert_eq!(
        step,
        FileStep::Run(FileOrder::WriteTemp {
            args: args(&["exec", "-i", "box", "tee", "/d/f.tmp"]),
            input: b"hello".to_vec(),
        })
    );
    let step = flow.step(FileEvent::Wrote(TeeResult::Ran { success: true, stderr: String::new() }));
    assert_eq!(
        step,
        FileStep::Run(FileOrder::Rename(args(&["exec", "box", "mv", "/d/f.tmp", "/d/f"])))
    );
    let step = flow.step(FileEvent::Ran(ran(true, "", "")));
    assert_eq!(step, FileStep::Run(FileOrder::Verify(args(&["exec", "box", "wc", "-c", "/d/f"]))));
    let step = flow.step(FileEvent::Ran(ExecResult::NotRun("gone".to_string())));
    assert_eq!(
        step,
        FileStep::Saved(Emit {
            event: OutEvent::FileSaved,
            text: "File '/d/f' saved successfully".to_string(),
        })
    );
    assert_eq!(flow.step(FileEvent::Ran(ran(true, "", ""))), FileStep::Ignore);
}

#[test]
fn save_without_directory_starts_with_the_temporary_file() {
    let plan = plan_save("box", "f", None, "x");
    let (_, step) = SaveFile::begin("f", plan);
    assert_eq!(
        step,
        FileStep::Run(FileOrder::WriteTemp {
            args: args(&["exec", "-i", "box", "tee", "f.tmp"]),
            input: b"x".to_vec(),
        })
    );
}

#[test]
fn save_stops_at_the_first_failure() {
    let plan = plan_save("box", "f", None, "x");
    let (mut flow, _) = SaveFile::begin("f", plan);
    let step =
        flow.step(FileEvent::Wrote(TeeResult::Ran { success: false, stderr: "full".to_string() }));
    match step {
        FileStep::Failed(f) => {
            assert_eq!(f.error.message, "Failed to write temp file 'f.tmp': full");
            assert_eq!(f.frame().event, OutEvent::FileError);
        }
        other => panic!("unexpected: {:?}", other),
    }
    assert_eq!(flow.step(FileEvent::Ran(ran(true, "", ""))), FileStep::Ignore);

    let plan = plan_save("box", "f", None, "x");
    let (mut flow, _) = SaveFile::begin("f", plan);
    flow.step(FileEvent::Wrote(TeeResult::Ran { success: true, stderr: String::new() }));
    match flow.step(FileEvent::Ran(ran(false, "", "busy"))) {
        FileStep::Failed(f) => {
            assert_eq!(f.error.message, "Failed to move temp file to 'f': busy")
        }
        other => panic!("unexpected: {:?}", other),
    }
}

#[test]
fn save_ignores_results_out_of_turn() {
    let plan = plan_save("box", "f", None, "x");
    let (mut flow, _) = SaveFile::begin("f", plan);
    assert_eq!(flow.step(FileEvent::Ran(ran(true, "", ""))), FileStep::Ignore);
}

#[test]
fn every_failed_save_is_told_to_the_client() {
    let results = [
        TeeResult::Ran { success: false, stderr: "full".to_string() },
        TeeResult::SpawnFailed("enoent".to_string()),
        TeeResult::WriteFailed("epipe".to_string()),
        TeeResult::WaitFailed("echild".to_string()),
    ];
    for result in results {
        let plan = plan_save("box", "/d/f", None, "new");
        let (mut flow, _) = SaveFile::begin("/d/f", plan);
        match flow.step(FileEvent::Wrote(result)) {
            FileStep::Failed(f) => {
                let frame = f.frame();
                assert_eq!(frame.event, OutEvent::FileError);
                assert_eq!(frame.text, f.error.message);
            }
            other => panic!("unexpected: {:?}", other),
        }
        assert_eq!(flow.step(FileEvent::Ran(ran(true, "", ""))), FileStep::Ignore);
    }
}

#[test]
fn directory_made_is_the_parent_of_the_path() {
    let r = with_container();
    let cases = [
        ("/home/app/src/main.rs", Some("/home/app/src")),
        ("/top.txt", Some("/")),
        ("notes.txt", Some("")),
        ("/home/app/", Some("/home")),
        ("/", None),
        ("", None),
    ];
    for (path, parent) in cases {
        let plan = save_file_data(&r, "alice@x.com", path, "x").unwrap();
        let want = parent.map(|p| args(&["exec", "box-a", "mkdir", "-p", p]));
        assert_eq!(plan.mkdir, want, "{:?}", path);
    }
}
