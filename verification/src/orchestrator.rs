//! The session orchestrator: the flow from a client's request for a
//! terminal to a shell that is served, one decision per answer of the
//! profile store, the container engine and the system. The caller carries
//! out each order and hands back what came of it.

use crate::error::{ErrorKind, GatewayError};
use crate::events::{emit_views, Emit, OutEvent};
use crate::pty::{
    container_spec, image, platform, pseudo_terminal, raw_mode_flags, sandbox_image,
    sandbox_platform, sandbox_spec, shell_args, shell_env, ContainerSpec, ContainerSpecView,
    RawMode, TermFlag,
};
use crate::registry::{
    client_index, consistent, email_index, fresh_session, has_client, has_email, master_for,
    without_client, without_email, Registry, SessionView,
};
use crate::router::{no_terminal_text, session_not_found, Winsize};
use crate::teardown::{release, release_steps, step_views, TeardownStep, TeardownStepView};
use crate::text::{concat2, concat3, opt_text, pair_texts, texts};
use vstd::prelude::*;

verus! {

/// Where a flow stands.
#[derive(Clone, Copy, Debug, PartialEq, Eq, Structural)]
pub enum Phase {
    /// The profile of the user is being looked up.
    LookingUp,
    /// The container engine is being reached.
    Connecting,
    /// The container on record is being started.
    StartingRecorded,
    /// The sandbox image is being pulled.
    Pulling,
    /// A new container is being created.
    Creating,
    /// The new container is being started.
    StartingNew,
    /// The new container is being written to the profile.
    Persisting,
    /// A pseudo-terminal is being opened and made raw.
    OpeningPty,
    /// The shell is being started on the pseudo-terminal.
    Spawning,
    /// The session is live.
    Serving,
    /// The flow has ended without a session.
    Failed,
}

/// What the profile store says of a user.
#[derive(Debug, PartialEq, Eq)]
pub enum ProfileAnswer {
    /// The user has this container on record.
    Recorded(String),
    /// The user has no container on record.
    NoContainer,
    /// There is no such user.
    NoUser,
    /// The store failed, with its message.
    Failed(String),
}

/// What came of writing a container to the profile.
#[derive(Debug, PartialEq, Eq)]
pub enum PersistAnswer {
    /// The profile holds the container.
    Stored,
    /// There is no such user.
    NoUser,
    /// The profile could not be read, with the message of the store.
    LookupFailed(String),
    /// The profile could not be written, with the message of the store.
    UpdateFailed(String),
}

/// What came of an order.
#[derive(Debug, PartialEq, Eq)]
pub enum LoadEvent {
    /// The answer of the profile store.
    Profile(ProfileAnswer),
    /// The container engine was reached, or not.
    Runtime(Result<(), String>),
    /// The container was started, or not.
    Started(Result<(), String>),
    /// The image was pulled, or not.
    Pulled(Result<(), String>),
    /// The container was created, with its id, or not.
    Created(Result<String, String>),
    /// The answer of the profile store to the new container.
    Persisted(PersistAnswer),
    /// The pseudo-terminal was opened and made raw, with the handle of its
    /// master side, or not.
    PtyOpened(Result<u64, String>),
    /// The shell was started, or not.
    Spawned(Result<(), String>),
}

/// What the caller is to do next.
#[derive(Debug, PartialEq, Eq)]
pub enum Order {
    /// Ask the profile store for the container of the user.
    LookUpProfile,
    /// Reach the container engine.
    ConnectRuntime,
    /// Start this container.
    StartContainer(String),
    /// Pull this image for this platform.
    PullImage { image: String, platform: String },
    /// Create this container.
    CreateContainer(ContainerSpec),
    /// Write this container to the profile of the user.
    PersistContainer(String),
    /// Open a pseudo-terminal of this size and apply this change to its
    /// settings at once.
    OpenPty { winsize: Winsize, raw: RawMode },
    /// Start the shell of this container on this pseudo-terminal, with
    /// these arguments for the container engine and this environment.
    SpawnShell { container: String, args: Vec<String>, env: Vec<(String, String)>, master: u64 },
    /// Start the output pump and the watcher of the shell on this
    /// pseudo-terminal.
    Serve { master: u64 },
    /// Close this pseudo-terminal and end the flow.
    Release { master: u64 },
    /// End the flow.
    Stop,
    /// The event does not belong here: do nothing.
    Ignore,
}

/// An `Order` over plain sequences.
pub enum OrderView {
    LookUpProfile,
    ConnectRuntime,
    StartContainer(Seq<char>),
    PullImage { image: Seq<char>, platform: Seq<char> },
    CreateContainer(ContainerSpecView),
    PersistContainer(Seq<char>),
    OpenPty { winsize: Winsize, clear: Seq<TermFlag>, vmin: u8, vtime: u8 },
    SpawnShell {
        container: Seq<char>,
        args: Seq<Seq<char>>,
        env: Seq<(Seq<char>, Seq<char>)>,
        master: u64,
    },
    Serve { master: u64 },
    Release { master: u64 },
    Stop,
    Ignore,
}

impl View for Order {
    type V = OrderView;

    open spec fn view(&self) -> OrderView {
        match self {
            Order::LookUpProfile => OrderView::LookUpProfile,
            Order::ConnectRuntime => OrderView::ConnectRuntime,
            Order::StartContainer(id) => OrderView::StartContainer(id@),
            Order::PullImage { image, platform } => OrderView::PullImage {
                image: image@,
                platform: platform@,
            },
            Order::CreateContainer(spec) => OrderView::CreateContainer(spec@),
            Order::PersistContainer(id) => OrderView::PersistContainer(id@),
            Order::OpenPty { winsize, raw } => OrderView::OpenPty {
                winsize: *winsize,
                clear: raw.clear@,
                vmin: raw.vmin,
                vtime: raw.vtime,
            },
            Order::SpawnShell { container, args, env, master } => OrderView::SpawnShell {
                container: container@,
                args: texts(args@),
                env: pair_texts(env@),
                master: *master,
            },
            Order::Serve { master } => OrderView::Serve { master: *master },
            Order::Release { master } => OrderView::Release { master: *master },
            Order::Stop => OrderView::Stop,
            Order::Ignore => OrderView::Ignore,
        }
    }
}

/// One step of a flow: the frames to send, in order, what is to be released
/// first because a newer session has taken its place, the next order, and
/// the error that the event stood for, if it did.
#[derive(Debug, PartialEq, Eq)]
pub struct Step {
    pub emits: Vec<Emit>,
    pub cleanup: Vec<TeardownStep>,
    pub order: Order,
    pub fault: Option<GatewayError>,
}

/// The kind and the text of an optional error.
pub open spec fn fault_view(e: Option<GatewayError>) -> Option<(ErrorKind, Seq<char>)> {
    match e {
        Some(err) => Some((err.kind, err.message@)),
        None => None,
    }
}

/// The state of a flow, over plain sequences.
pub struct LoadView {
    pub email: Seq<char>,
    pub client: Seq<char>,
    pub phase: Phase,
    pub container: Option<Seq<char>>,
    pub master: Option<u64>,
}

/// The flow that loads the terminal of one user.
pub struct LoadTerminal {
    email: String,
    client: String,
    phase: Phase,
    container: Option<String>,
    master: Option<u64>,
}

impl View for LoadTerminal {
    type V = LoadView;

    closed spec fn view(&self) -> LoadView {
        LoadView {
            email: self.email@,
            client: self.client@,
            phase: self.phase,
            container: match self.container {
                Some(c) => Some(c@),
                None => None,
            },
            master: self.master,
        }
    }
}

/// What a flow decides: where it stands afterwards, the frames, the order,
/// and the error that the event stood for, if it did.
pub struct Decision {
    pub phase: Phase,
    pub container: Option<Seq<char>>,
    pub master: Option<u64>,
    pub emits: Seq<(OutEvent, Seq<char>)>,
    pub order: OrderView,
    pub fault: Option<(ErrorKind, Seq<char>)>,
}

/// A frame of progress.
pub open spec fn info(text: Seq<char>) -> (OutEvent, Seq<char>) {
    (OutEvent::TerminalInfo, text)
}

/// A frame that reports a failure.
pub open spec fn failure(text: Seq<char>) -> (OutEvent, Seq<char>) {
    (OutEvent::TerminalError, text)
}

/// The flow ends with an error of `kind`, which the client is told as
/// `text`.
pub open spec fn fail(v: LoadView, kind: ErrorKind, text: Seq<char>) -> Decision {
    Decision {
        phase: Phase::Failed,
        container: v.container,
        master: v.master,
        emits: seq![failure(text)],
        order: OrderView::Stop,
        fault: Some((kind, text)),
    }
}

/// The event does not belong to the phase: nothing changes.
pub open spec fn ignore(v: LoadView) -> Decision {
    Decision {
        phase: v.phase,
        container: v.container,
        master: v.master,
        emits: Seq::empty(),
        order: OrderView::Ignore,
        fault: None,
    }
}

/// A new container is made: the client is told so with `first`, and the
/// image is pulled. `fault` is the error that led here, if one did.
pub open spec fn begin_creation(
    v: LoadView,
    first: Seq<char>,
    fault: Option<(ErrorKind, Seq<char>)>,
) -> Decision {
    Decision {
        phase: Phase::Pulling,
        container: None,
        master: v.master,
        emits: seq![info(first), info("Pulling Ubuntu image, this may take a moment"@)],
        order: pull_image(),
        fault,
    }
}

/// The order to pull the sandbox image.
pub open spec fn pull_image() -> OrderView {
    OrderView::PullImage { image: sandbox_image(), platform: sandbox_platform() }
}

/// The order to open a pseudo-terminal: 24 rows of 80 columns, in raw mode.
pub open spec fn open_pty() -> OrderView {
    OrderView::OpenPty {
        winsize: Winsize { ws_row: 24, ws_col: 80, ws_xpixel: 0, ws_ypixel: 0 },
        clear: raw_mode_flags(),
        vmin: 1,
        vtime: 0,
    }
}

/// The order to start the shell of `container` on `master`.
pub open spec fn spawn_shell(container: Seq<char>, master: u64) -> OrderView {
    OrderView::SpawnShell {
        container,
        args: shell_args(container),
        env: shell_env(),
        master,
    }
}

/// The frame that names the container that is ready.
pub open spec fn ready_text(container: Seq<char>) -> Seq<char> {
    "Container "@ + container + " ready. Starting terminal session"@
}

/// The text of the container on record, or the empty text.
pub open spec fn container_text(v: LoadView) -> Seq<char> {
    match v.container {
        Some(c) => c,
        None => Seq::empty(),
    }
}

/// What the flow `v` decides on `event`. `known` says whether the user is
/// still registered, which matters once the shell has started.
///
/// A container on record is started, and a new one is made only where there
/// is none or it does not start. A new container is pulled, created,
/// started and written to the profile, in this order. Then a
/// pseudo-terminal is opened, the shell is started on it, and the session is
/// served. The first failure ends the flow with one frame that names it. An
/// event that does not belong to the phase changes nothing.
pub open spec fn decide(v: LoadView, event: LoadEvent, known: bool) -> Decision {
    match (v.phase, event) {
        (Phase::LookingUp, LoadEvent::Profile(answer)) => match answer {
            ProfileAnswer::Recorded(id) => Decision {
                phase: Phase::Connecting,
                container: Some(id@),
                master: v.master,
                emits: Seq::empty(),
                order: OrderView::ConnectRuntime,
                fault: None,
            },
            ProfileAnswer::NoContainer => Decision {
                phase: Phase::Connecting,
                container: None,
                master: v.master,
                emits: Seq::empty(),
                order: OrderView::ConnectRuntime,
                fault: None,
            },
            ProfileAnswer::NoUser => fail(
                v,
                ErrorKind::StoreError,
                "No user found with email: "@ + v.email,
            ),
            ProfileAnswer::Failed(e) => fail(v, ErrorKind::StoreError, "Database error: "@ + e@),
        },
        (Phase::Connecting, LoadEvent::Runtime(result)) => match result {
            Ok(_) => match v.container {
                Some(id) => Decision {
                    phase: Phase::StartingRecorded,
                    container: v.container,
                    master: v.master,
                    emits: Seq::empty(),
                    order: OrderView::StartContainer(id),
                    fault: None,
                },
                None => begin_creation(v, "Creating new development environment..."@, None),
            },
            Err(e) => fail(
                v,
                ErrorKind::RuntimeUnavailable,
                "Failed to connect to Docker: "@ + e@,
            ),
        },
        (Phase::StartingRecorded, LoadEvent::Started(result)) => match result {
            Ok(_) => Decision {
                phase: Phase::OpeningPty,
                container: v.container,
                master: v.master,
                emits: seq![info(ready_text(container_text(v)))],
                order: open_pty(),
                fault: None,
            },
            Err(e) => begin_creation(
                v,
                "Creating a new development environment"@,
                Some((ErrorKind::ContainerStartFailed, e@)),
            ),
        },
        (Phase::Pulling, LoadEvent::Pulled(result)) => match result {
            Ok(_) => Decision {
                phase: Phase::Creating,
                container: v.container,
                master: v.master,
                emits: seq![info("Image pulled successfully. Creating container"@)],
                order: OrderView::CreateContainer(sandbox_spec(v.email)),
                fault: None,
            },
            Err(e) => fail(v, ErrorKind::ImagePullFailed, "Failed to pull image: "@ + e@),
        },
        (Phase::Creating, LoadEvent::Created(result)) => match result {
            Ok(id) => Decision {
                phase: Phase::StartingNew,
                container: Some(id@),
                master: v.master,
                emits: seq![info("Container created successfully. Starting container"@)],
                order: OrderView::StartContainer(id@),
                fault: None,
            },
            Err(e) => fail(
                v,
                ErrorKind::RuntimeUnavailable,
                "Failed to create container: "@ + e@,
            ),
        },
        (Phase::StartingNew, LoadEvent::Started(result)) => match result {
            Ok(_) => Decision {
                phase: Phase::Persisting,
                container: v.container,
                master: v.master,
                emits: seq![info("Container started successfully. Updating user profile"@)],
                order: OrderView::PersistContainer(container_text(v)),
                fault: None,
            },
            Err(e) => fail(
                v,
                ErrorKind::ContainerStartFailed,
                "Failed to start container: "@ + e@,
            ),
        },
        (Phase::Persisting, LoadEvent::Persisted(answer)) => match answer {
            PersistAnswer::Stored => Decision {
                phase: Phase::OpeningPty,
                container: v.container,
                master: v.master,
                emits: seq![
                    info("Profile updated. Container ready for terminal session."@),
                    info(ready_text(container_text(v))),
                ],
                order: open_pty(),
                fault: None,
            },
            PersistAnswer::NoUser => fail(
                v,
                ErrorKind::StoreError,
                "No user found with email: "@ + v.email,
            ),
            PersistAnswer::LookupFailed(e) => fail(
                v,
                ErrorKind::StoreError,
                "Database error: "@ + e@,
            ),
            PersistAnswer::UpdateFailed(e) => fail(
                v,
                ErrorKind::StoreError,
                "Failed to update profile: "@ + e@,
            ),
        },
        (Phase::OpeningPty, LoadEvent::PtyOpened(result)) => match result {
            Ok(handle) => Decision {
                phase: Phase::Spawning,
                container: v.container,
                master: Some(handle),
                emits: Seq::empty(),
                order: spawn_shell(container_text(v), handle),
                fault: None,
            },
            Err(e) => fail(
                v,
                ErrorKind::PtyAllocFailed,
                "Failed to start terminal: "@ + e@,
            ),
        },
        (Phase::Spawning, LoadEvent::Spawned(result)) => match (result, v.master) {
            (Ok(_), Some(handle)) => if known {
                Decision {
                    phase: Phase::Serving,
                    container: v.container,
                    master: v.master,
                    emits: seq![(OutEvent::TerminalSuccess, "Terminal created successfully"@)],
                    order: OrderView::Serve { master: handle },
                    fault: None,
                }
            } else {
                Decision {
                    phase: Phase::Failed,
                    container: v.container,
                    master: v.master,
                    emits: Seq::empty(),
                    order: OrderView::Release { master: handle },
                    fault: Some((ErrorKind::SessionNotFound, no_terminal_text(v.email))),
                }
            },
            (Err(e), Some(handle)) => Decision {
                phase: Phase::Failed,
                container: v.container,
                master: v.master,
                emits: seq![failure("Failed to start docker exec: "@ + e@)],
                order: OrderView::Release { master: handle },
                fault: Some((ErrorKind::PtyAllocFailed, "Failed to start docker exec: "@ + e@)),
            },
            (_, None) => ignore(v),
        },
        _ => ignore(v),
    }
}

/// The registry after the flow `v` has met `event`: the pseudo-terminal and
/// the container are recorded when the shell has started and the user is
/// still registered; nothing else touches the registry.
pub open spec fn registry_after(s: Seq<SessionView>, v: LoadView, event: LoadEvent) -> Seq<
    SessionView,
> {
    match (v.phase, event, v.master) {
        (Phase::Spawning, LoadEvent::Spawned(Ok(_)), Some(handle)) => if has_email(s, v.email) {
            s.update(
                email_index(s, v.email),
                SessionView {
                    master: Some(handle),
                    container: Some(container_text(v)),
                    ..s[email_index(s, v.email)]
                },
            )
        } else {
            s
        },
        _ => s,
    }
}

/// What is released when the flow `v` meets `event`: a pseudo-terminal that
/// was recorded for the user when the new one is recorded.
pub open spec fn cleanup_for(s: Seq<SessionView>, v: LoadView, event: LoadEvent) -> Seq<
    TeardownStepView,
> {
    match (v.phase, event, v.master) {
        (Phase::Spawning, LoadEvent::Spawned(Ok(_)), Some(handle)) => match master_for(
            s,
            v.email,
        ) {
            Some(stale) => seq![TeardownStepView::ClosePty(stale)],
            None => Seq::empty(),
        },
        _ => Seq::empty(),
    }
}

/// The frame that opens every flow.
pub open spec fn loading_frame() -> (OutEvent, Seq<char>) {
    (OutEvent::TerminalLoading, "Connecting to your development environment"@)
}

/// What is released when `email` is registered anew for `client`: the
/// session that `email` had, and the session that `client` served.
pub open spec fn evicted_steps(s: Seq<SessionView>, email: Seq<char>, client: Seq<char>) -> Seq<
    TeardownStepView,
> {
    (if has_email(s, email) {
        release_steps(s[email_index(s, email)])
    } else {
        Seq::empty()
    }) + (if has_client(without_email(s, email), client) {
        release_steps(
            without_email(s, email)[client_index(
                without_email(s, email),
                client,
            )],
        )
    } else {
        Seq::empty()
    })
}

/// A frame of progress.
fn info_frame(text: String) -> (e: Emit)
    ensures
        e@ == info(text@),
{
    Emit::new(OutEvent::TerminalInfo, text)
}

/// A step without cleanup.
fn plain_step(emits: Vec<Emit>, order: Order, fault: Option<GatewayError>) -> (s: Step)
    ensures
        s.emits == emits,
        s.order == order,
        s.fault == fault,
        step_views(s.cleanup@) == Seq::<TeardownStepView>::empty(),
{
    let cleanup: Vec<TeardownStep> = Vec::new();
    assert(step_views(cleanup@) =~= Seq::<TeardownStepView>::empty());
    Step { emits, cleanup, order, fault }
}

/// The order to open a pseudo-terminal.
fn open_pty_order() -> (order: Order)
    ensures
        order@ == open_pty(),
{
    let plan = pseudo_terminal(None);
    Order::OpenPty { winsize: plan.winsize, raw: plan.raw }
}

/// No frames.
fn no_frames() -> (emits: Vec<Emit>)
    ensures
        emit_views(emits@) == Seq::<(OutEvent, Seq<char>)>::empty(),
{
    let emits: Vec<Emit> = Vec::new();
    assert(emit_views(emits@) =~= Seq::<(OutEvent, Seq<char>)>::empty());
    emits
}

/// The frame that reports a failure, and the error of `kind` with the same
/// text.
fn reported(kind: ErrorKind, text: String) -> (r: (Vec<Emit>, Option<GatewayError>))
    ensures
        emit_views(r.0@) == seq![failure(text@)],
        fault_view(r.1) == Some((kind, text@)),
{
    let mut emits: Vec<Emit> = Vec::new();
    emits.push(Emit::new(OutEvent::TerminalError, text.clone()));
    assert(emit_views(emits@) =~= seq![failure(text@)]);
    (emits, Some(GatewayError::new(kind, text)))
}

/// Begins the flow for `email`, asked for by `client`. The client is told
/// that its terminal is loading, and `email` is registered for `client`:
/// a session that `email` had, or that `client` served, leaves the
/// registry and is released first. The flow then asks for the profile.
pub fn load_terminal(registry: &mut Registry, client: &str, email: &str) -> (r: (
    LoadTerminal,
    Step,
))
    ensures
        consistent(final(registry)@),
        final(registry)@ == without_client(without_email(old(registry)@, email@), client@).push(
            fresh_session(email@, client@),
        ),
        r.0@ == (LoadView {
            email: email@,
            client: client@,
            phase: Phase::LookingUp,
            container: None,
            master: None,
        }),
        emit_views(r.1.emits@) == seq![loading_frame()],
        step_views(r.1.cleanup@) == evicted_steps(old(registry)@, email@, client@),
        r.1.order@ == OrderView::LookUpProfile,
        r.1.fault is None,
{
    let evicted = registry.register(email, client);
    let mut cleanup: Vec<TeardownStep> = Vec::new();
    match &evicted.0 {
        Some(session) => {
            cleanup = release(session);
        },
        None => {},
    }
    let ghost first = step_views(cleanup@);
    match &evicted.1 {
        Some(session) => {
            let mut more = release(session);
            let ghost second = step_views(more@);
            cleanup.append(&mut more);
            assert(step_views(cleanup@) =~= first + second);
        },
        None => {
            assert(step_views(cleanup@) =~= first + Seq::<TeardownStepView>::empty());
        },
    }
    let mut emits: Vec<Emit> = Vec::new();
    emits.push(
        Emit::new(
            OutEvent::TerminalLoading,
            "Connecting to your development environment".to_owned(),
        ),
    );
    assert(emit_views(emits@) =~= seq![loading_frame()]);
    let flow = LoadTerminal {
        email: email.to_owned(),
        client: client.to_owned(),
        phase: Phase::LookingUp,
        container: None,
        master: None,
    };
    (flow, Step { emits, cleanup, order: Order::LookUpProfile, fault: None })
}

impl LoadTerminal {
    /// Where the flow stands.
    pub fn phase(&self) -> (p: Phase)
        ensures
            p == self@.phase,
    {
        self.phase
    }

    /// The user of the flow.
    pub fn email(&self) -> (e: &String)
        ensures
            e@ == self@.email,
    {
        &self.email
    }

    /// The client that asked for the terminal.
    pub fn client(&self) -> (c: &String)
        ensures
            c@ == self@.client,
    {
        &self.client
    }

    /// The container of the flow, once known.
    pub fn container(&self) -> (c: Option<String>)
        ensures
            opt_text(c) == self@.container,
    {
        match &self.container {
            Some(c) => Some(c.clone()),
            None => None,
        }
    }

    /// The flow ends with an error of `kind`, which the client is told as
    /// `text`.
    fn fail_with(&mut self, kind: ErrorKind, text: String) -> (s: Step)
        ensures
            final(self)@ == (LoadView { phase: Phase::Failed, ..old(self)@ }),
            emit_views(s.emits@) == seq![failure(text@)],
            step_views(s.cleanup@) == Seq::<TeardownStepView>::empty(),
            s.order@ == OrderView::Stop,
            fault_view(s.fault) == Some((kind, text@)),
    {
        self.phase = Phase::Failed;
        let (emits, fault) = reported(kind, text);
        plain_step(emits, Order::Stop, fault)
    }

    /// The event does not belong to the phase.
    fn ignored(&self) -> (s: Step)
        ensures
            emit_views(s.emits@) == Seq::<(OutEvent, Seq<char>)>::empty(),
            step_views(s.cleanup@) == Seq::<TeardownStepView>::empty(),
            s.order@ == OrderView::Ignore,
            s.fault is None,
    {
        plain_step(no_frames(), Order::Ignore, None)
    }

    /// A new container is made. `fault` is the error that led here, if one
    /// did.
    fn create_container(&mut self, first: &str, fault: Option<GatewayError>) -> (s: Step)
        ensures
            final(self)@ == (LoadView {
                phase: Phase::Pulling,
                container: None,
                ..old(self)@
            }),
            emit_views(s.emits@) == seq![
                info(first@),
                info("Pulling Ubuntu image, this may take a moment"@),
            ],
            step_views(s.cleanup@) == Seq::<TeardownStepView>::empty(),
            s.order@ == pull_image(),
            s.fault == fault,
    {
        self.phase = Phase::Pulling;
        self.container = None;
        let mut emits: Vec<Emit> = Vec::new();
        emits.push(info_frame(first.to_owned()));
        emits.push(info_frame("Pulling Ubuntu image, this may take a moment".to_owned()));
        assert(emit_views(emits@) =~= seq![
            info(first@),
            info("Pulling Ubuntu image, this may take a moment"@),
        ]);
        plain_step(emits, Order::PullImage { image: image(), platform: platform() }, fault)
    }

    /// The flow goes on to `phase` with one frame of progress and `order`.
    fn proceed(&mut self, phase: Phase, text: String, order: Order) -> (s: Step)
        ensures
            final(self)@ == (LoadView { phase, ..old(self)@ }),
            emit_views(s.emits@) == seq![info(text@)],
            step_views(s.cleanup@) == Seq::<TeardownStepView>::empty(),
            s.order == order,
            s.fault is None,
    {
        self.phase = phase;
        let mut emits: Vec<Emit> = Vec::new();
        emits.push(info_frame(text));
        assert(emit_views(emits@) =~= seq![info(text@)]);
        plain_step(emits, order, None)
    }

    /// The flow goes on to `phase` with `order` and no frame.
    fn proceed_quietly(&mut self, phase: Phase, order: Order) -> (s: Step)
        ensures
            final(self)@ == (LoadView { phase, ..old(self)@ }),
            emit_views(s.emits@) == Seq::<(OutEvent, Seq<char>)>::empty(),
            step_views(s.cleanup@) == Seq::<TeardownStepView>::empty(),
            s.order == order,
            s.fault is None,
    {
        self.phase = phase;
        plain_step(no_frames(), order, None)
    }

    /// The text of the container of the flow, or the empty text.
    fn container_or_empty(&self) -> (r: String)
        ensures
            r@ == container_text(self@),
    {
        match &self.container {
            Some(c) => c.clone(),
            None => String::new(),
        }
    }

    /// The flow has met `event`: decides what is sent and what is done
    /// next. The registry changes only when the shell has started: the
    /// pseudo-terminal and the container of the user are then recorded.
    pub fn step(&mut self, registry: &mut Registry, event: LoadEvent) -> (s: Step)
        ensures
            consistent(final(registry)@),
            final(registry)@ == registry_after(old(registry)@, old(self)@, event),
            final(self)@.email == old(self)@.email,
            final(self)@.client == old(self)@.client,
            final(self)@.phase == decide(
                old(self)@,
                event,
                has_email(old(registry)@, old(self)@.email),
            ).phase,
            final(self)@.container == decide(
                old(self)@,
                event,
                has_email(old(registry)@, old(self)@.email),
            ).container,
            final(self)@.master == decide(
                old(self)@,
                event,
                has_email(old(registry)@, old(self)@.email),
            ).master,
            emit_views(s.emits@) == decide(
                old(self)@,
                event,
                has_email(old(registry)@, old(self)@.email),
            ).emits,
            s.order@ == decide(
                old(self)@,
                event,
                has_email(old(registry)@, old(self)@.email),
            ).order,
            fault_view(s.fault) == decide(
                old(self)@,
                event,
                has_email(old(registry)@, old(self)@.email),
            ).fault,
            step_views(s.cleanup@) == cleanup_for(old(registry)@, old(self)@, event),
    {
        proof {
            use_type_invariant(&*registry);
        }
        match (self.phase, event) {
            (Phase::LookingUp, LoadEvent::Profile(answer)) => match answer {
                ProfileAnswer::Recorded(id) => {
                    self.container = Some(id);
                    self.proceed_quietly(Phase::Connecting, Order::ConnectRuntime)
                },
                ProfileAnswer::NoContainer => {
                    self.container = None;
                    self.proceed_quietly(Phase::Connecting, Order::ConnectRuntime)
                },
                ProfileAnswer::NoUser => {
                    let text = concat2("No user found with email: ", self.email.as_str());
                    self.fail_with(ErrorKind::StoreError, text)
                },
                ProfileAnswer::Failed(e) => {
                    let text = concat2("Database error: ", e.as_str());
                    self.fail_with(ErrorKind::StoreError, text)
                },
            },
            (Phase::Connecting, LoadEvent::Runtime(result)) => match result {
                Ok(_) => {
                    let recorded = match &self.container {
                        Some(id) => Some(id.clone()),
                        None => None,
                    };
                    match recorded {
                        Some(id) => self.proceed_quietly(
                            Phase::StartingRecorded,
                            Order::StartContainer(id),
                        ),
                        None => self.create_container(
                            "Creating new development environment...",
                            None,
                        ),
                    }
                },
                Err(e) => {
                    let text = concat2("Failed to connect to Docker: ", e.as_str());
                    self.fail_with(ErrorKind::RuntimeUnavailable, text)
                },
            },
            (Phase::StartingRecorded, LoadEvent::Started(result)) => match result {
                Ok(_) => {
                    let id = self.container_or_empty();
                    let text = concat3(
                        "Container ",
                        id.as_str(),
                        " ready. Starting terminal session",
                    );
                    self.proceed(Phase::OpeningPty, text, open_pty_order())
                },
                Err(e) => self.create_container(
                    "Creating a new development environment",
                    Some(GatewayError::new(ErrorKind::ContainerStartFailed, e)),
                ),
            },
            (Phase::Pulling, LoadEvent::Pulled(result)) => match result {
                Ok(_) => {
                    let spec = container_spec(self.email.as_str());
                    self.proceed(
                        Phase::Creating,
                        "Image pulled successfully. Creating container".to_owned(),
                        Order::CreateContainer(spec),
                    )
                },
                Err(e) => {
                    let text = concat2("Failed to pull image: ", e.as_str());
                    self.fail_with(ErrorKind::ImagePullFailed, text)
                },
            },
            (Phase::Creating, LoadEvent::Created(result)) => match result {
                Ok(id) => {
                    self.container = Some(id.clone());
                    self.proceed(
                        Phase::StartingNew,
                        "Container created successfully. Starting container".to_owned(),
                        Order::StartContainer(id),
                    )
                },
                Err(e) => {
                    let text = concat2("Failed to create container: ", e.as_str());
                    self.fail_with(ErrorKind::RuntimeUnavailable, text)
                },
            },
            (Phase::StartingNew, LoadEvent::Started(result)) => match result {
                Ok(_) => {
                    let id = self.container_or_empty();
                    self.proceed(
                        Phase::Persisting,
                        "Container started successfully. Updating user profile".to_owned(),
                        Order::PersistContainer(id),
                    )
                },
                Err(e) => {
                    let text = concat2("Failed to start container: ", e.as_str());
                    self.fail_with(ErrorKind::ContainerStartFailed, text)
                },
            },
            (Phase::Persisting, LoadEvent::Persisted(answer)) => match answer {
                PersistAnswer::Stored => {
                    let id = self.container_or_empty();
                    let ready = concat3(
                        "Container ",
                        id.as_str(),
                        " ready. Starting terminal session",
                    );
                    self.phase = Phase::OpeningPty;
                    let mut emits: Vec<Emit> = Vec::new();
                    emits.push(
                        info_frame(
                            "Profile updated. Container ready for terminal session.".to_owned(),
                        ),
                    );
                    emits.push(info_frame(ready));
                    assert(emit_views(emits@) =~= seq![
                        info("Profile updated. Container ready for terminal session."@),
                        info(ready_text(container_text(old(self)@))),
                    ]);
                    plain_step(emits, open_pty_order(), None)
                },
                PersistAnswer::NoUser => {
                    let text = concat2("No user found with email: ", self.email.as_str());
                    self.fail_with(ErrorKind::StoreError, text)
                },
                PersistAnswer::LookupFailed(e) => {
                    let text = concat2("Database error: ", e.as_str());
                    self.fail_with(ErrorKind::StoreError, text)
                },
                PersistAnswer::UpdateFailed(e) => {
                    let text = concat2("Failed to update profile: ", e.as_str());
                    self.fail_with(ErrorKind::StoreError, text)
                },
            },
            (Phase::OpeningPty, LoadEvent::PtyOpened(result)) => match result {
                Ok(handle) => {
                    self.master = Some(handle);
                    let container = self.container_or_empty();
                    let plan = pseudo_terminal(Some(container.as_str()));
                    self.proceed_quietly(
                        Phase::Spawning,
                        Order::SpawnShell {
                            container,
                            args: plan.args,
                            env: plan.env,
                            master: handle,
                        },
                    )
                },
                Err(e) => {
                    let text = concat2("Failed to start terminal: ", e.as_str());
                    self.fail_with(ErrorKind::PtyAllocFailed, text)
                },
            },
            (Phase::Spawning, LoadEvent::Spawned(result)) => {
                let handle = match self.master {
                    Some(h) => h,
                    None => {
                        return self.ignored();
                    },
                };
                match result {
                    Ok(_) => {
                        let container = self.container_or_empty();
                        match registry.attach(self.email.as_str(), handle, container.as_str()) {
                            Ok(stale) => {
                                self.phase = Phase::Serving;
                                let mut cleanup: Vec<TeardownStep> = Vec::new();
                                match stale {
                                    Some(h) => {
                                        cleanup.push(TeardownStep::ClosePty(h));
                                        assert(step_views(cleanup@) =~= seq![
                                            TeardownStepView::ClosePty(h),
                                        ]);
                                    },
                                    None => {
                                        assert(step_views(cleanup@) =~= Seq::<
                                            TeardownStepView,
                                        >::empty());
                                    },
                                }
                                let mut emits: Vec<Emit> = Vec::new();
                                emits.push(
                                    Emit::new(
                                        OutEvent::TerminalSuccess,
                                        "Terminal created successfully".to_owned(),
                                    ),
                                );
                                assert(emit_views(emits@) =~= seq![
                                    (OutEvent::TerminalSuccess, "Terminal created successfully"@),
                                ]);
                                Step {
                                    emits,
                                    cleanup,
                                    order: Order::Serve { master: handle },
                                    fault: None,
                                }
                            },
                            Err(_) => {
                                self.phase = Phase::Failed;
                                let gone = session_not_found(self.email.as_str());
                                plain_step(
                                    no_frames(),
                                    Order::Release { master: handle },
                                    Some(gone),
                                )
                            },
                        }
                    },
                    Err(e) => {
                        self.phase = Phase::Failed;
                        let text = concat2("Failed to start docker exec: ", e.as_str());
                        let (emits, fault) = reported(ErrorKind::PtyAllocFailed, text);
                        plain_step(emits, Order::Release { master: handle }, fault)
                    },
                }
            },
            _ => self.ignored(),
        }
    }
}

/// The registry after the pseudo-terminal `handle` for shell commands has
/// been offered for `email`: it is recorded where the user is registered.
pub open spec fn with_secondary(s: Seq<SessionView>, email: Seq<char>, handle: u64) -> Seq<
    SessionView,
> {
    if has_email(s, email) {
        s.update(
            email_index(s, email),
            SessionView { secondary: Some(handle), ..s[email_index(s, email)] },
        )
    } else {
        s
    }
}

/// What is released when the pseudo-terminal `handle` for shell commands is
/// offered for `email`: the one that it replaces, if there was one; or
/// `handle` itself, with its shell, where the user is not registered any
/// more.
pub open spec fn secondary_cleanup(s: Seq<SessionView>, email: Seq<char>, handle: u64) -> Seq<
    TeardownStepView,
> {
    if has_email(s, email) {
        match s[email_index(s, email)].secondary {
            Some(stale) => seq![TeardownStepView::ClosePty(stale)],
            None => Seq::empty(),
        }
    } else {
        seq![TeardownStepView::ClosePty(handle), TeardownStepView::HangUpShell]
    }
}

/// Records a second pseudo-terminal of `email`, which serves the shell
/// commands of the tree view, so that they do not mix with the keystrokes
/// of the user. What the caller is to release comes back.
pub fn attach_secondary(registry: &mut Registry, email: &str, handle: u64) -> (steps: Vec<
    TeardownStep,
>)
    ensures
        consistent(final(registry)@),
        final(registry)@ == with_secondary(old(registry)@, email@, handle),
        step_views(steps@) == secondary_cleanup(old(registry)@, email@, handle),
{
    let mut steps: Vec<TeardownStep> = Vec::new();
    match registry.set_secondary(email, Some(handle)) {
        Ok(Some(stale)) => {
            steps.push(TeardownStep::ClosePty(stale));
        },
        Ok(None) => {},
        Err(_) => {
            steps.push(TeardownStep::ClosePty(handle));
            steps.push(TeardownStep::HangUpShell);
        },
    }
    assert(step_views(steps@) =~= secondary_cleanup(old(registry)@, email@, handle));
    steps
}

/// A flow never ends in silence while its client waits: every decision
/// that ends a running flow in failure names the error, and it sends exactly
/// one `terminal_error` frame with the text of that error, unless the user
/// was closed or taken over while the shell started. It orders the flow to
/// stop, with the pseudo-terminal released where one was opened for the
/// shell.
pub proof fn lemma_failure_is_reported(v: LoadView, event: LoadEvent, known: bool)
    requires
        v.phase != Phase::Failed,
        decide(v, event, known).phase == Phase::Failed,
    ensures
        decide(v, event, known).fault is Some,
        decide(v, event, known).order is Stop || decide(v, event, known).order is Release,
        decide(v, event, known).order matches OrderView::Release { master } ==> v.master == Some(
            master,
        ),
        (known || v.phase != Phase::Spawning) ==> (decide(v, event, known).fault matches Some(
            named,
        ) && decide(v, event, known).emits == seq![failure(named.1)]),
{
}

/// The kinds of the errors follow the step that failed: the store for
/// the profile, the container engine for reaching it and for creating a
/// container, the pull for the image, the start for a container, and the
/// pseudo-terminal for opening it and for starting the shell.
pub proof fn lemma_fault_kinds(v: LoadView, event: LoadEvent, known: bool)
    requires
        decide(v, event, known).fault is Some,
    ensures
        decide(v, event, known).fault matches Some(named) && match named.0 {
            ErrorKind::StoreError => v.phase == Phase::LookingUp || v.phase == Phase::Persisting,
            ErrorKind::RuntimeUnavailable => v.phase == Phase::Connecting || v.phase
                == Phase::Creating,
            ErrorKind::ImagePullFailed => v.phase == Phase::Pulling,
            ErrorKind::ContainerStartFailed => v.phase == Phase::StartingRecorded || v.phase
                == Phase::StartingNew,
            ErrorKind::PtyAllocFailed => v.phase == Phase::OpeningPty || v.phase
                == Phase::Spawning,
            ErrorKind::SessionNotFound => v.phase == Phase::Spawning && !known,
            _ => false,
        },
        decide(v, event, known).phase != Phase::Failed ==> v.phase == Phase::StartingRecorded
            && decide(v, event, known).order == pull_image(),
{
}

/// A session is served only when its shell has started: the decision that
/// makes a flow serve is taken while the shell is started, it reports
/// success to the client, and it orders the pump onto the pseudo-terminal
/// on which the shell was started.
pub proof fn lemma_serving_means_started(v: LoadView, event: LoadEvent, known: bool)
    requires
        v.phase != Phase::Serving,
        decide(v, event, known).phase == Phase::Serving,
    ensures
        v.phase == Phase::Spawning,
        event matches LoadEvent::Spawned(Ok(_)),
        known,
        decide(v, event, known).emits == seq![
            (OutEvent::TerminalSuccess, "Terminal created successfully"@),
        ],
        v.master matches Some(h) && decide(v, event, known).order == (OrderView::Serve {
            master: h,
        }),
{
}

/// A container on record that starts is used as it is: nothing is pulled,
/// created or written to the profile, and the pseudo-terminal is opened
/// next.
pub proof fn lemma_recorded_container_is_reused(v: LoadView, known: bool)
    requires
        v.phase == Phase::StartingRecorded,
    ensures
        decide(v, LoadEvent::Started(Ok(())), known).order == open_pty(),
        decide(v, LoadEvent::Started(Ok(())), known).container == v.container,
        decide(v, LoadEvent::Started(Ok(())), known).emits == seq![
            info(ready_text(container_text(v))),
        ],
{
}

} // verus!
