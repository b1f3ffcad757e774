//! The frames that the gateway sends to a client.

use vstd::prelude::*;

verus! {

/// The events that the gateway sends.
#[derive(Clone, Copy, Debug, PartialEq, Eq, Structural)]
pub enum OutEvent {
    TerminalLoading,
    TerminalInfo,
    TerminalSuccess,
    TerminalData,
    TerminalClosed,
    TerminalError,
    RepoStructure,
    RepoCreated,
    FilesData,
    FileSaved,
    FileError,
    MessageBack,
}

/// The name of an event on the wire.
pub open spec fn event_name(event: OutEvent) -> Seq<char> {
    match event {
        OutEvent::TerminalLoading => "terminal_loading"@,
        OutEvent::TerminalInfo => "terminal_info"@,
        OutEvent::TerminalSuccess => "terminal_success"@,
        OutEvent::TerminalData => "terminal_data"@,
        OutEvent::TerminalClosed => "terminal_closed"@,
        OutEvent::TerminalError => "terminal_error"@,
        OutEvent::RepoStructure => "repo_structure"@,
        OutEvent::RepoCreated => "repo_created"@,
        OutEvent::FilesData => "files_data"@,
        OutEvent::FileSaved => "file_saved"@,
        OutEvent::FileError => "file_error"@,
        OutEvent::MessageBack => "message-back"@,
    }
}

impl OutEvent {
    /// The name of this event on the wire.
    pub fn name(&self) -> (r: String)
        ensures
            r@ == event_name(*self),
    {
        match self {
            OutEvent::TerminalLoading => "terminal_loading".to_owned(),
            OutEvent::TerminalInfo => "terminal_info".to_owned(),
            OutEvent::TerminalSuccess => "terminal_success".to_owned(),
            OutEvent::TerminalData => "terminal_data".to_owned(),
            OutEvent::TerminalClosed => "terminal_closed".to_owned(),
            OutEvent::TerminalError => "terminal_error".to_owned(),
            OutEvent::RepoStructure => "repo_structure".to_owned(),
            OutEvent::RepoCreated => "repo_created".to_owned(),
            OutEvent::FilesData => "files_data".to_owned(),
            OutEvent::FileSaved => "file_saved".to_owned(),
            OutEvent::FileError => "file_error".to_owned(),
            OutEvent::MessageBack => "message-back".to_owned(),
        }
    }
}

/// One frame for a client: the event and its text.
#[derive(Clone, Debug, PartialEq, Eq)]
pub struct Emit {
    pub event: OutEvent,
    pub text: String,
}

impl View for Emit {
    type V = (OutEvent, Seq<char>);

    open spec fn view(&self) -> (OutEvent, Seq<char>) {
        (self.event, self.text@)
    }
}

impl Emit {
    /// The frame of `event` with `text`.
    pub fn new(event: OutEvent, text: String) -> (e: Emit)
        ensures
            e@ == (event, text@),
    {
        Emit { event, text }
    }
}

/// The views of the frames of `v`, in order.
pub open spec fn emit_views(v: Seq<Emit>) -> Seq<(OutEvent, Seq<char>)> {
    Seq::new(v.len(), |i: int| v[i]@)
}

/// The events that a client sends.
#[derive(Clone, Copy, Debug, PartialEq, Eq, Structural)]
pub enum InEvent {
    Message,
    LoadTerminal,
    TerminalInput,
    TerminalResize,
    CloseTerminal,
    RepoTree,
    CreateRepo,
    GetFilesData,
    SaveData,
}

/// The name of an event of a client on the wire.
pub open spec fn in_event_name(event: InEvent) -> Seq<char> {
    match event {
        InEvent::Message => "message"@,
        InEvent::LoadTerminal => "load_terminal"@,
        InEvent::TerminalInput => "terminal_input"@,
        InEvent::TerminalResize => "terminal_resize"@,
        InEvent::CloseTerminal => "close_terminal"@,
        InEvent::RepoTree => "repo_tree"@,
        InEvent::CreateRepo => "create_repo"@,
        InEvent::GetFilesData => "get_files_data"@,
        InEvent::SaveData => "save_data"@,
    }
}

impl InEvent {
    /// The name of this event on the wire.
    pub fn name(&self) -> (r: String)
        ensures
            r@ == in_event_name(*self),
    {
        match self {
            InEvent::Message => "message".to_owned(),
            InEvent::LoadTerminal => "load_terminal".to_owned(),
            InEvent::TerminalInput => "terminal_input".to_owned(),
            InEvent::TerminalResize => "terminal_resize".to_owned(),
            InEvent::CloseTerminal => "close_terminal".to_owned(),
            InEvent::RepoTree => "repo_tree".to_owned(),
            InEvent::CreateRepo => "create_repo".to_owned(),
            InEvent::GetFilesData => "get_files_data".to_owned(),
            InEvent::SaveData => "save_data".to_owned(),
        }
    }
}

/// The answer to a `message` of a client.
pub fn message_back() -> (e: Emit)
    ensures
        e@ == (OutEvent::MessageBack, "Hello from server!"@),
{
    Emit::new(OutEvent::MessageBack, "Hello from server!".to_owned())
}

} // verus!
