use ws_ide::error::{ErrorKind, GatewayError};
use ws_ide::events::{Emit, OutEvent};
use ws_ide::orchestrator::{
    attach_secondary, load_terminal, LoadEvent, LoadTerminal, Order, PersistAnswer, Phase,
    ProfileAnswer, Step,
};
use ws_ide::pty::{pseudo_terminal, shell_command, shell_environment};
use ws_ide::registry::Registry;
use ws_ide::teardown::TeardownStep;

fn info(text: &str) -> Emit {
    Emit { event: OutEvent::TerminalInfo, text: text.to_string() }
}

fn error(text: &str) -> Emit {
    Emit { event: OutEvent::TerminalError, text: text.to_string() }
}

fn pull() -> Order {
    Order::PullImage { image: "ubuntu:20.04".to_string(), platform: "linux/amd64".to_string() }
}

fn open_pty() -> Order {
    let plan = pseudo_terminal(None);
    Order::OpenPty { winsize: plan.winsize, raw: plan.raw }
}

fn spawn(container: &str, master: u64) -> Order {
    Order::SpawnShell {
        container: container.to_string(),
        args: shell_command(container),
        env: shell_environment(),
        master,
    }
}

fn start(r: &mut Registry) -> LoadTerminal {
    let (flow, step) = load_terminal(r, "c1", "alice@x.com");
    assert_eq!(
        step.emits,
        vec![Emit {
            event: OutEvent::TerminalLoading,
            text: "Connecting to your development environment".to_string(),
        }]
    );
    assert_eq!(step.order, Order::LookUpProfile);
    assert_eq!(step.fault, None);
    assert_eq!(flow.phase(), Phase::LookingUp);
    assert_eq!(flow.client(), "c1");
    flow
}

fn drive(flow: &mut LoadTerminal, r: &mut Registry, events: Vec<LoadEvent>) -> Step {
    let mut last = None;
    for e in events {
        last = Some(flow.step(r, e));
    }
    last.unwrap()
}

fn created_up_to_pty() -> Vec<LoadEvent> {
    vec![
        LoadEvent::Profile(ProfileAnswer::NoContainer),
        LoadEvent::Runtime(Ok(())),
        LoadEvent::Pulled(Ok(())),
        LoadEvent::Created(Ok("c0ffee".to_string())),
        LoadEvent::Started(Ok(())),
        LoadEvent::Persisted(PersistAnswer::Stored),
    ]
}

#[test]
fn load_registers_the_user_for_the_client() {
    let mut r = Registry::new();
    let flow = start(&mut r);
    assert_eq!(flow.email(), "alice@x.com");
    assert_eq!(flow.container(), None);
    assert_eq!(r.client_of("alice@x.com"), Some("c1".to_string()));
    assert_eq!(r.master_of("alice@x.com"), None);
}

#[test]
fn load_releases_the_stale_session_first() {
    let mut r = Registry::new();
    r.register("alice@x.com", "c0");
    r.attach("alice@x.com", 3, "box").unwrap();
    let (_, step) = load_terminal(&mut r, "c1", "alice@x.com");
    assert_eq!(
        step.cleanup,
        vec![TeardownStep::StopPump, TeardownStep::ClosePty(3), TeardownStep::HangUpShell]
    );
    assert_eq!(r.len(), 1);
    assert_eq!(r.master_of("alice@x.com"), None);
}

#[test]
fn first_time_user_gets_a_new_container() {
    let mut r = Registry::new();
    let mut flow = start(&mut r);
    let mut frames: Vec<Emit> = Vec::new();

    let s = flow.step(&mut r, LoadEvent::Profile(ProfileAnswer::NoContainer));
    assert_eq!(s.order, Order::ConnectRuntime);
    frames.extend(s.emits);

    let s = flow.step(&mut r, LoadEvent::Runtime(Ok(())));
    assert_eq!(s.order, pull());
    assert_eq!(flow.phase(), Phase::Pulling);
    frames.extend(s.emits);

    let s = flow.step(&mut r, LoadEvent::Pulled(Ok(())));
    match &s.order {
        Order::CreateContainer(spec) => {
            assert_eq!(spec.name, "dev-env-alice-x-com");
            assert_eq!(spec.image, "ubuntu:20.04");
            assert_eq!(spec.platform, "linux/amd64");
        }
        other => panic!("unexpected order: {:?}", other),
    }
    frames.extend(s.emits);

    let s = flow.step(&mut r, LoadEvent::Created(Ok("c0ffee".to_string())));
    assert_eq!(s.order, Order::StartContainer("c0ffee".to_string()));
    frames.extend(s.emits);

    let s = flow.step(&mut r, LoadEvent::Started(Ok(())));
    assert_eq!(s.order, Order::PersistContainer("c0ffee".to_string()));
    frames.extend(s.emits);

    let s = flow.step(&mut r, LoadEvent::Persisted(PersistAnswer::Stored));
    assert_eq!(s.order, open_pty());
    frames.extend(s.emits);

    let s = flow.step(&mut r, LoadEvent::PtyOpened(Ok(7)));
    assert_eq!(s.order, spawn("c0ffee", 7));
    assert_eq!(r.master_of("alice@x.com"), None);
    frames.extend(s.emits);

    let s = flow.step(&mut r, LoadEvent::Spawned(Ok(())));
    assert_eq!(s.order, Order::Serve { master: 7 });
    assert_eq!(s.cleanup, vec![]);
    frames.extend(s.emits);

    assert_eq!(
        frames,
        vec![
            info("Creating new development environment..."),
            info("Pulling Ubuntu image, this may take a moment"),
            info("Image pulled successfully. Creating container"),
            info("Container created successfully. Starting container"),
            info("Container started successfully. Updating user profile"),
            info("Profile updated. Container ready for terminal session."),
            info("Container c0ffee ready. Starting terminal session"),
            Emit {
                event: OutEvent::TerminalSuccess,
                text: "Terminal created successfully".to_string(),
            },
        ]
    );
    assert_eq!(flow.phase(), Phase::Serving);
    assert_eq!(flow.container(), Some("c0ffee".to_string()));
    assert_eq!(r.master_of("alice@x.com"), Some(7));
    assert_eq!(r.container_of("alice@x.com"), Some("c0ffee".to_string()));
}

#[test]
fn reconnect_reuses_the_recorded_container() {
    let mut r = Registry::new();
    let mut flow = start(&mut r);
    let s = flow.step(&mut r, LoadEvent::Profile(ProfileAnswer::Recorded("abc123".to_string())));
    assert_eq!(s.order, Order::ConnectRuntime);
    assert_eq!(s.emits, vec![]);
    let s = flow.step(&mut r, LoadEvent::Runtime(Ok(())));
    assert_eq!(s.order, Order::StartContainer("abc123".to_string()));
    assert_eq!(s.emits, vec![]);
    let s = flow.step(&mut r, LoadEvent::Started(Ok(())));
    assert_eq!(s.order, open_pty());
    assert_eq!(s.emits, vec![info("Container abc123 ready. Starting terminal session")]);
    let s = flow.step(&mut r, LoadEvent::PtyOpened(Ok(5)));
    assert_eq!(s.order, spawn("abc123", 5));
    let s = flow.step(&mut r, LoadEvent::Spawned(Ok(())));
    assert_eq!(s.order, Order::Serve { master: 5 });
    assert_eq!(s.emits.len(), 1);
    assert_eq!(s.emits[0].event, OutEvent::TerminalSuccess);
    assert_eq!(r.container_of("alice@x.com"), Some("abc123".to_string()));
}

#[test]
fn recorded_container_that_does_not_start_is_replaced() {
    let mut r = Registry::new();
    let mut flow = start(&mut r);
    flow.step(&mut r, LoadEvent::Profile(ProfileAnswer::Recorded("gone".to_string())));
    flow.step(&mut r, LoadEvent::Runtime(Ok(())));
    let s = flow.step(&mut r, LoadEvent::Started(Err("No such container".to_string())));
    assert_eq!(s.order, pull());
    assert_eq!(
        s.emits,
        vec![
            info("Creating a new development environment"),
            info("Pulling Ubuntu image, this may take a moment"),
        ]
    );
    assert_eq!(
        s.fault,
        Some(GatewayError {
            kind: ErrorKind::ContainerStartFailed,
            message: "No such container".to_string(),
        })
    );
    assert_eq!(flow.phase(), Phase::Pulling);
    assert_eq!(flow.container(), None);
}

#[test]
fn unknown_user_fails_the_flow() {
    let mut r = Registry::new();
    let mut flow = start(&mut r);
    let s = flow.step(&mut r, LoadEvent::Profile(ProfileAnswer::NoUser));
    assert_eq!(s.emits, vec![error("No user found with email: alice@x.com")]);
    assert_eq!(s.order, Order::Stop);
    assert_eq!(
        s.fault,
        Some(GatewayError {
            kind: ErrorKind::StoreError,
            message: "No user found with email: alice@x.com".to_string(),
        })
    );
    assert_eq!(flow.phase(), Phase::Failed);
}

#[test]
fn store_failure_fails_the_flow() {
    let mut r = Registry::new();
    let mut flow = start(&mut r);
    let s = flow.step(&mut r, LoadEvent::Profile(ProfileAnswer::Failed("timeout".to_string())));
    assert_eq!(s.emits, vec![error("Database error: timeout")]);
    assert_eq!(s.order, Order::Stop);
    assert_eq!(s.fault.unwrap().kind, ErrorKind::StoreError);
}

#[test]
fn unreachable_engine_fails_the_flow() {
    let mut r = Registry::new();
    let mut flow = start(&mut r);
    flow.step(&mut r, LoadEvent::Profile(ProfileAnswer::NoContainer));
    let s = flow.step(&mut r, LoadEvent::Runtime(Err("no socket".to_string())));
    assert_eq!(s.emits, vec![error("Failed to connect to Docker: no socket")]);
    assert_eq!(s.order, Order::Stop);
    assert_eq!(s.fault.unwrap().kind, ErrorKind::RuntimeUnavailable);
    assert_eq!(flow.phase(), Phase::Failed);
}

#[test]
fn each_step_of_creation_can_fail() {
    let cases: Vec<(usize, LoadEvent, &str, ErrorKind)> = vec![
        (
            2,
            LoadEvent::Pulled(Err("net".to_string())),
            "Failed to pull image: net",
            ErrorKind::ImagePullFailed,
        ),
        (
            3,
            LoadEvent::Created(Err("conflict".to_string())),
            "Failed to create container: conflict",
            ErrorKind::RuntimeUnavailable,
        ),
        (
            4,
            LoadEvent::Started(Err("oom".to_string())),
            "Failed to start container: oom",
            ErrorKind::ContainerStartFailed,
        ),
        (
            5,
            LoadEvent::Persisted(PersistAnswer::UpdateFailed("ro".to_string())),
            "Failed to update profile: ro",
            ErrorKind::StoreError,
        ),
        (
            5,
            LoadEvent::Persisted(PersistAnswer::LookupFailed("down".to_string())),
            "Database error: down",
            ErrorKind::StoreError,
        ),
        (
            5,
            LoadEvent::Persisted(PersistAnswer::NoUser),
            "No user found with email: alice@x.com",
            ErrorKind::StoreError,
        ),
        (
            6,
            LoadEvent::PtyOpened(Err("ENOSPC".to_string())),
            "Failed to start terminal: ENOSPC",
            ErrorKind::PtyAllocFailed,
        ),
    ];
    for (done, failing, text, kind) in cases {
        let mut r = Registry::new();
        let mut flow = start(&mut r);
        let mut events = created_up_to_pty();
        events.truncate(done);
        for e in events {
            flow.step(&mut r, e);
        }
        let s = flow.step(&mut r, failing);
        assert_eq!(s.emits, vec![error(text)]);
        assert_eq!(s.order, Order::Stop);
        assert_eq!(s.fault, Some(GatewayError { kind, message: text.to_string() }));
        assert_eq!(flow.phase(), Phase::Failed);
        assert_eq!(r.master_of("alice@x.com"), None);
    }
}

#[test]
fn failed_spawn_releases_the_terminal() {
    let mut r = Registry::new();
    let mut flow = start(&mut r);
    drive(&mut flow, &mut r, created_up_to_pty());
    flow.step(&mut r, LoadEvent::PtyOpened(Ok(7)));
    let s = flow.step(&mut r, LoadEvent::Spawned(Err("not found".to_string())));
    assert_eq!(s.emits, vec![error("Failed to start docker exec: not found")]);
    assert_eq!(s.order, Order::Release { master: 7 });
    assert_eq!(s.fault.unwrap().kind, ErrorKind::PtyAllocFailed);
    assert_eq!(flow.phase(), Phase::Failed);
    assert_eq!(r.master_of("alice@x.com"), None);
}

#[test]
fn session_closed_meanwhile_releases_the_terminal_in_silence() {
    let mut r = Registry::new();
    let mut flow = start(&mut r);
    drive(&mut flow, &mut r, created_up_to_pty());
    flow.step(&mut r, LoadEvent::PtyOpened(Ok(7)));
    r.remove("alice@x.com");
    let s = flow.step(&mut r, LoadEvent::Spawned(Ok(())));
    assert_eq!(s.emits, vec![]);
    assert_eq!(s.order, Order::Release { master: 7 });
    assert_eq!(
        s.fault,
        Some(GatewayError {
            kind: ErrorKind::SessionNotFound,
            message: "No terminal found for email: alice@x.com".to_string(),
        })
    );
    assert_eq!(flow.phase(), Phase::Failed);
    assert_eq!(r.len(), 0);
}

#[test]
fn two_loads_for_one_user_leave_one_terminal() {
    let mut r = Registry::new();
    let mut first = start(&mut r);
    drive(&mut first, &mut r, created_up_to_pty());
    first.step(&mut r, LoadEvent::PtyOpened(Ok(7)));
    let (mut second, _) = load_terminal(&mut r, "c1", "alice@x.com");
    drive(&mut second, &mut r, created_up_to_pty());
    second.step(&mut r, LoadEvent::PtyOpened(Ok(8)));
    let s = first.step(&mut r, LoadEvent::Spawned(Ok(())));
    assert_eq!(s.order, Order::Serve { master: 7 });
    let s = second.step(&mut r, LoadEvent::Spawned(Ok(())));
    assert_eq!(s.order, Order::Serve { master: 8 });
    assert_eq!(s.cleanup, vec![TeardownStep::ClosePty(7)]);
    assert_eq!(r.len(), 1);
    assert_eq!(r.master_of("alice@x.com"), Some(8));
}

#[test]
fn event_out_of_turn_is_ignored() {
    let mut r = Registry::new();
    let mut flow = start(&mut r);
    let s = flow.step(&mut r, LoadEvent::Pulled(Ok(())));
    assert_eq!(s.order, Order::Ignore);
    assert_eq!(s.emits, vec![]);
    assert_eq!(flow.phase(), Phase::LookingUp);
    let s = flow.step(&mut r, LoadEvent::Spawned(Ok(())));
    assert_eq!(s.order, Order::Ignore);
    flow.step(&mut r, LoadEvent::Profile(ProfileAnswer::NoUser));
    let s = flow.step(&mut r, LoadEvent::Profile(ProfileAnswer::NoContainer));
    assert_eq!(s.order, Order::Ignore);
    assert_eq!(flow.phase(), Phase::Failed);
}

#[test]
fn second_terminal_is_recorded_for_shell_commands() {
    let mut r = Registry::new();
    r.register("alice@x.com", "c1");
    r.attach("alice@x.com", 7, "box").unwrap();
    assert_eq!(attach_secondary(&mut r, "alice@x.com", 8), vec![]);
    assert_eq!(r.secondary_of("alice@x.com"), Some(8));
    assert_eq!(r.master_of("alice@x.com"), Some(7));
    assert_eq!(attach_secondary(&mut r, "alice@x.com", 9), vec![TeardownStep::ClosePty(8)]);
    assert_eq!(r.secondary_of("alice@x.com"), Some(9));
}

#[test]
fn second_terminal_of_a_closed_session_is_released() {
    let mut r = Registry::new();
    assert_eq!(
        attach_secondary(&mut r, "alice@x.com", 8),
        vec![TeardownStep::ClosePty(8), TeardownStep::HangUpShell]
    );
    assert_eq!(r.len(), 0);
}
