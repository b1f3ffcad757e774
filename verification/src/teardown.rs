//! The teardown controller: what is released, and in which order, when a
//! session ends. Taking the record out of the registry decides who does it:
//! the call that finds the record gets the steps, every other call gets
//! none.

use crate::events::{Emit, OutEvent};
use crate::pump::{PumpEnd, PumpEndView};
use crate::registry::{
    client_index, consistent, email_index, email_to_client, email_to_container, email_to_master,
    email_to_secondary, has_client, has_email, lemma_remove_consistent, master_for, without_client,
    without_email, Registry, Session, SessionView,
};
use crate::text::concat2;
use vstd::prelude::*;

verus! {

/// Why a session ends.
#[derive(Clone, Copy, Debug, PartialEq, Eq, Structural)]
pub enum CloseReason {
    /// The client asked for it.
    Requested,
    /// The client went away.
    Disconnected,
    /// The shell process ended.
    ShellExited,
    /// The output pump ended: the shell closed its output, or a read
    /// failed.
    PumpEnded,
}

/// One step of a teardown.
#[derive(Debug, PartialEq, Eq)]
pub enum TeardownStep {
    /// Tell the output pump to stop, and wait for it.
    StopPump,
    /// Close this master side, which the session owned.
    ClosePty(u64),
    /// Hang up on the shell process and reap it.
    HangUpShell,
    /// Send this frame, if the client is still there.
    Send(Emit),
}

/// A `TeardownStep` over plain sequences.
pub enum TeardownStepView {
    StopPump,
    ClosePty(u64),
    HangUpShell,
    Send(OutEvent, Seq<char>),
}

impl View for TeardownStep {
    type V = TeardownStepView;

    open spec fn view(&self) -> TeardownStepView {
        match self {
            TeardownStep::StopPump => TeardownStepView::StopPump,
            TeardownStep::ClosePty(h) => TeardownStepView::ClosePty(*h),
            TeardownStep::HangUpShell => TeardownStepView::HangUpShell,
            TeardownStep::Send(e) => TeardownStepView::Send(e.event, e.text@),
        }
    }
}

/// The views of the steps of `v`, in order.
pub open spec fn step_views(v: Seq<TeardownStep>) -> Seq<TeardownStepView> {
    Seq::new(v.len(), |i: int| v[i]@)
}

/// The steps that release what a session holds: the pump is stopped first,
/// then each pseudo-terminal of the session is closed, once, and at last the
/// shell is hung up on.
pub open spec fn release_steps(session: SessionView) -> Seq<TeardownStepView> {
    seq![TeardownStepView::StopPump] + (match session.master {
        Some(h) => seq![TeardownStepView::ClosePty(h)],
        None => Seq::empty(),
    }) + (match session.secondary {
        Some(h) => seq![TeardownStepView::ClosePty(h)],
        None => Seq::empty(),
    }) + seq![TeardownStepView::HangUpShell]
}

/// The frame that tells the client that its session is over: every reason
/// has one but the client's own going.
pub open spec fn closing_frame(reason: CloseReason) -> Seq<TeardownStepView> {
    match reason {
        CloseReason::Requested => seq![
            TeardownStepView::Send(OutEvent::TerminalClosed, "Terminal session closed"@),
        ],
        CloseReason::ShellExited => seq![
            TeardownStepView::Send(OutEvent::TerminalClosed, "Docker process terminated"@),
        ],
        CloseReason::PumpEnded => seq![
            TeardownStepView::Send(OutEvent::TerminalClosed, "Terminal session ended"@),
        ],
        CloseReason::Disconnected => Seq::empty(),
    }
}

/// The steps of the teardown of the record `removed`; none where no record
/// was found.
pub open spec fn teardown_steps(removed: Option<SessionView>, reason: CloseReason) -> Seq<
    TeardownStepView,
> {
    match removed {
        Some(session) => release_steps(session) + closing_frame(reason),
        None => Seq::empty(),
    }
}

/// The record for `email` in `s`, if there is one.
pub open spec fn record_of(s: Seq<SessionView>, email: Seq<char>) -> Option<SessionView> {
    if has_email(s, email) {
        Some(s[email_index(s, email)])
    } else {
        None
    }
}

/// The record served by `client` in `s`, if there is one.
pub open spec fn record_of_client(s: Seq<SessionView>, client: Seq<char>) -> Option<SessionView> {
    if has_client(s, client) {
        Some(s[client_index(s, client)])
    } else {
        None
    }
}

/// The steps that release what `session` holds.
pub fn release(session: &Session) -> (steps: Vec<TeardownStep>)
    ensures
        step_views(steps@) == release_steps(session@),
{
    let mut steps: Vec<TeardownStep> = Vec::new();
    steps.push(TeardownStep::StopPump);
    match session.master {
        Some(h) => {
            steps.push(TeardownStep::ClosePty(h));
        },
        None => {},
    }
    match session.secondary {
        Some(h) => {
            steps.push(TeardownStep::ClosePty(h));
        },
        None => {},
    }
    steps.push(TeardownStep::HangUpShell);
    assert(step_views(steps@) =~= release_steps(session@));
    steps
}

/// The steps for a record that was taken out of the registry.
fn steps_for(removed: &Option<Session>, reason: CloseReason) -> (steps: Vec<TeardownStep>)
    ensures
        step_views(steps@) == teardown_steps(
            match removed {
                Some(s) => Some(s@),
                None => None,
            },
            reason,
        ),
{
    match removed {
        Some(session) => {
            let mut steps = release(session);
            let ghost before = step_views(steps@);
            match reason {
                CloseReason::Requested => {
                    steps.push(
                        TeardownStep::Send(
                            Emit::new(
                                OutEvent::TerminalClosed,
                                "Terminal session closed".to_owned(),
                            ),
                        ),
                    );
                },
                CloseReason::ShellExited => {
                    steps.push(
                        TeardownStep::Send(
                            Emit::new(
                                OutEvent::TerminalClosed,
                                "Docker process terminated".to_owned(),
                            ),
                        ),
                    );
                },
                CloseReason::PumpEnded => {
                    steps.push(
                        TeardownStep::Send(
                            Emit::new(
                                OutEvent::TerminalClosed,
                                "Terminal session ended".to_owned(),
                            ),
                        ),
                    );
                },
                CloseReason::Disconnected => {},
            }
            assert(step_views(steps@) =~= before + closing_frame(reason));
            steps
        },
        None => {
            let steps: Vec<TeardownStep> = Vec::new();
            assert(step_views(steps@) =~= Seq::<TeardownStepView>::empty());
            steps
        },
    }
}

/// Ends the session of `email`. Its record leaves every index of the
/// registry. The call that found the record gets the steps that release the
/// session; a call that found none gets no step, so that a session is torn
/// down once however many triggers fire.
pub fn teardown(registry: &mut Registry, email: &str, reason: CloseReason) -> (steps: Vec<
    TeardownStep,
>)
    ensures
        consistent(final(registry)@),
        final(registry)@ == without_email(old(registry)@, email@),
        !has_email(final(registry)@, email@),
        master_for(final(registry)@, email@) is None,
        step_views(steps@) == teardown_steps(record_of(old(registry)@, email@), reason),
{
    let removed = registry.remove(email);
    steps_for(&removed, reason)
}

/// A client asked to close the terminal of `email`: the session is torn
/// down, and the client is told so with `terminal_closed`.
pub fn handle_close_terminal(registry: &mut Registry, email: &str) -> (steps: Vec<TeardownStep>)
    ensures
        consistent(final(registry)@),
        final(registry)@ == without_email(old(registry)@, email@),
        !has_email(final(registry)@, email@),
        step_views(steps@) == teardown_steps(
            record_of(old(registry)@, email@),
            CloseReason::Requested,
        ),
{
    teardown(registry, email, CloseReason::Requested)
}

/// The client `client` went away: the session that it served is torn down,
/// and nothing is sent.
pub fn handle_disconnect(registry: &mut Registry, client: &str) -> (steps: Vec<TeardownStep>)
    ensures
        consistent(final(registry)@),
        final(registry)@ == without_client(old(registry)@, client@),
        !has_client(final(registry)@, client@),
        step_views(steps@) == teardown_steps(
            record_of_client(old(registry)@, client@),
            CloseReason::Disconnected,
        ),
{
    let removed = registry.remove_client(client);
    steps_for(&removed, CloseReason::Disconnected)
}

/// The text of the frame that reports a failed read.
pub open spec fn read_error_text(message: Seq<char>) -> Seq<char> {
    "Terminal read error: "@ + message
}

/// The steps that follow the end of a pump. A read that failed is reported
/// to the client with `terminal_error`. Then the session is torn down like
/// on every other trigger: only where the record was still there are its
/// terminals released and `terminal_closed` sent.
pub open spec fn pump_end_steps(removed: Option<SessionView>, end: PumpEndView) -> Seq<
    TeardownStepView,
> {
    (match end {
        PumpEndView::Failed(message) => seq![
            TeardownStepView::Send(OutEvent::TerminalError, read_error_text(message)),
        ],
        PumpEndView::Eof => Seq::empty(),
    }) + teardown_steps(removed, CloseReason::PumpEnded)
}

/// The output pump of `email` has ended. The session is torn down: its
/// record leaves every index of the registry. A failed read is reported.
/// The frame that closes the session is sent only by the call that found
/// the record, so that the client is told once, whether the pump or the
/// watcher of the shell came first.
pub fn pump_ended(registry: &mut Registry, email: &str, end: PumpEnd) -> (steps: Vec<TeardownStep>)
    ensures
        consistent(final(registry)@),
        final(registry)@ == without_email(old(registry)@, email@),
        !has_email(final(registry)@, email@),
        master_for(final(registry)@, email@) is None,
        step_views(steps@) == pump_end_steps(record_of(old(registry)@, email@), end@),
{
    let mut steps: Vec<TeardownStep> = Vec::new();
    match end {
        PumpEnd::Failed(message) => {
            steps.push(
                TeardownStep::Send(
                    Emit::new(
                        OutEvent::TerminalError,
                        concat2("Terminal read error: ", message.as_str()),
                    ),
                ),
            );
        },
        PumpEnd::Eof => {},
    }
    let ghost first = step_views(steps@);
    let mut rest = teardown(registry, email, CloseReason::PumpEnded);
    let ghost second = step_views(rest@);
    steps.append(&mut rest);
    assert(step_views(steps@) =~= first + second);
    steps
}

/// Whether a step sends the frame that closes a session.
pub open spec fn is_closing(step: TeardownStepView) -> bool {
    step matches TeardownStepView::Send(event, text) && event == OutEvent::TerminalClosed
}

/// A teardown closes a session at most once: among its steps at most one
/// sends `terminal_closed`, and it is the last step.
pub proof fn lemma_one_closing_frame(removed: Option<SessionView>, reason: CloseReason)
    ensures
        forall|i: int|
            0 <= i < teardown_steps(removed, reason).len() && is_closing(
                #[trigger] teardown_steps(removed, reason)[i],
            ) ==> i == teardown_steps(removed, reason).len() - 1,
{
    match removed {
        Some(session) => {
            let r = release_steps(session);
            let c = closing_frame(reason);
            let all = r + c;
            assert forall|i: int| 0 <= i < all.len() && is_closing(#[trigger] all[i]) implies i
                == all.len() - 1 by {
                if i < r.len() {
                    assert(all[i] == r[i]);
                    assert(!is_closing(r[i]));
                }
            }
        },
        None => {},
    }
}

/// Whichever of the pump and the watcher of the shell comes first tears the
/// session down and tells the client; the other finds no record, releases
/// nothing and sends no closing frame. In both orders the client gets
/// `terminal_closed` once.
pub proof fn lemma_pump_and_watcher_close_once(s: Seq<SessionView>, email: Seq<char>)
    requires
        consistent(s),
    ensures
        teardown_steps(record_of(without_email(s, email), email), CloseReason::ShellExited)
            == Seq::<TeardownStepView>::empty(),
        pump_end_steps(record_of(without_email(s, email), email), PumpEndView::Eof) == Seq::<
            TeardownStepView,
        >::empty(),
        forall|message: Seq<char>, i: int|
            0 <= i < pump_end_steps(
                record_of(without_email(s, email), email),
                PumpEndView::Failed(message),
            ).len() ==> !is_closing(
                #[trigger] pump_end_steps(
                    record_of(without_email(s, email), email),
                    PumpEndView::Failed(message),
                )[i],
            ),
{
    lemma_closed_is_gone(s, email, CloseReason::ShellExited);
    lemma_closed_is_gone(s, email, CloseReason::PumpEnded);
    let gone = record_of(without_email(s, email), email);
    assert(pump_end_steps(gone, PumpEndView::Eof) =~= Seq::<TeardownStepView>::empty());
}

/// After a close no index of the registry knows the user, so that input
/// for the user finds no terminal; and a second close finds no record, so
/// that it has no step to take.
pub proof fn lemma_closed_is_gone(s: Seq<SessionView>, email: Seq<char>, reason: CloseReason)
    requires
        consistent(s),
    ensures
        !email_to_master(without_email(s, email)).dom().contains(email),
        !email_to_client(without_email(s, email)).dom().contains(email),
        !email_to_container(without_email(s, email)).dom().contains(email),
        !email_to_secondary(without_email(s, email)).dom().contains(email),
        master_for(without_email(s, email), email) is None,
        teardown_steps(record_of(without_email(s, email), email), reason)
            == Seq::<TeardownStepView>::empty(),
{
    if has_email(s, email) {
        lemma_remove_consistent(s, email_index(s, email));
    }
}

} // verus!
