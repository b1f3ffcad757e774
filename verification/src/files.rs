//! Reading and saving files of the sandbox: the commands that are run in
//! the container, and what their results mean for the client.

use crate::error::{ErrorKind, GatewayError};
use crate::events::{Emit, OutEvent};
use crate::registry::{container_for, has_email, Registry};
use crate::text::{concat2, concat3, opt_text, push_str, string_of, texts};
use vstd::prelude::*;
use vstd::slice::slice_to_vec;
use vstd::utf8::encode_utf8;

verus! {

/// The result of a command that was run in the container, or the reason
/// why it could not be run.
#[derive(Debug, PartialEq, Eq)]
pub enum ExecResult {
    /// The command ran.
    Ran { success: bool, stdout: String, stderr: String },
    /// The command could not be run, with the message of the system.
    NotRun(String),
}

/// The result of the command that takes the content of a file on its
/// input.
#[derive(Debug, PartialEq, Eq)]
pub enum TeeResult {
    /// The command ran.
    Ran { success: bool, stderr: String },
    /// The command could not be started.
    SpawnFailed(String),
    /// The content could not be written to the command.
    WriteFailed(String),
    /// The end of the command could not be awaited.
    WaitFailed(String),
}

/// A file request that failed. The client is sent the text of the error
/// as `file_error`, whatever failed.
#[derive(Debug, PartialEq, Eq)]
pub struct FileFailure {
    pub error: GatewayError,
}

/// A `FileFailure` over plain values.
pub struct FailureView {
    pub kind: ErrorKind,
    pub message: Seq<char>,
}

impl View for FileFailure {
    type V = FailureView;

    open spec fn view(&self) -> FailureView {
        FailureView { kind: self.error.kind, message: self.error.message@ }
    }
}

impl FileFailure {
    /// The frame that reports this failure to the client.
    pub fn frame(&self) -> (r: Emit)
        ensures
            r@ == (OutEvent::FileError, self.error.message@),
    {
        Emit::new(OutEvent::FileError, self.error.message.clone())
    }
}

/// A failure of the given kind and text.
fn failed(kind: ErrorKind, message: String) -> (f: FileFailure)
    ensures
        f@ == (FailureView { kind, message: message@ }),
{
    FileFailure { error: GatewayError::new(kind, message) }
}

/// Why no container can serve the files of `email`: the user is not
/// registered, or has no container on record.
pub open spec fn no_container_failure(registered: bool, email: Seq<char>) -> FailureView {
    if registered {
        FailureView {
            kind: ErrorKind::BadInput,
            message: "Missing container ID"@,
        }
    } else {
        FailureView {
            kind: ErrorKind::SessionNotFound,
            message: "No Docker container found for email: "@ + email,
        }
    }
}

/// The container that serves the files of `email`.
fn file_container(registry: &Registry, email: &str) -> (r: Result<String, FileFailure>)
    ensures
        r is Ok <==> container_for(registry@, email@) is Some,
        r matches Ok(c) ==> Some(c@) == container_for(registry@, email@),
        r matches Err(f) ==> f@ == no_container_failure(has_email(registry@, email@), email@),
{
    match registry.container_of(email) {
        Some(c) => Ok(c),
        None => {
            if registry.contains(email) {
                Err(failed(ErrorKind::BadInput, "Missing container ID".to_owned()))
            } else {
                Err(
                    failed(
                        ErrorKind::SessionNotFound,
                        concat2("No Docker container found for email: ", email),
                    ),
                )
            }
        },
    }
}

/// The arguments with which the container engine prints the file `path` of
/// `container`.
pub open spec fn read_args(container: Seq<char>, path: Seq<char>) -> Seq<Seq<char>> {
    seq!["exec"@, container, "cat"@, path]
}

/// Plans the reading of the file `path` of `email`: the command that
/// prints it in the container of the user.
pub fn get_file_data(registry: &Registry, email: &str, path: &str) -> (r: Result<
    Vec<String>,
    FileFailure,
>)
    ensures
        r is Ok <==> container_for(registry@, email@) is Some,
        r matches Ok(args) ==> texts(args@) == read_args(
            container_for(registry@, email@)->0,
            path@,
        ),
        r matches Err(f) ==> f@ == no_container_failure(has_email(registry@, email@), email@),
{
    match file_container(registry, email) {
        Ok(container) => {
            let mut args: Vec<String> = Vec::new();
            args.push("exec".to_owned());
            args.push(container);
            args.push("cat".to_owned());
            args.push(path.to_owned());
            assert(texts(args@) =~= read_args(container_for(registry@, email@)->0, path@));
            Ok(args)
        },
        Err(f) => Err(f),
    }
}

/// The text of the error for a file that could not be read.
pub open spec fn read_failed_text(path: Seq<char>, stderr: Seq<char>) -> Seq<char> {
    "Failed to read file '"@ + path + "': "@ + stderr
}

/// The text of the error for a command that could not be run.
pub open spec fn not_run_text(message: Seq<char>) -> Seq<char> {
    "Failed to execute docker command: "@ + message
}

/// What the result of reading `path` means: the content as `files_data`
/// where the command succeeded, and else a failure that the client is told,
/// with what the command wrote to its error stream or with the message of
/// the system.
pub fn read_outcome(path: &str, result: ExecResult) -> (r: Result<Emit, FileFailure>)
    ensures
        match result {
            ExecResult::Ran { success, stdout, stderr } => if success {
                r matches Ok(e) && e@ == (OutEvent::FilesData, stdout@)
            } else {
                r matches Err(f) && f@ == (FailureView {
                    kind: ErrorKind::BadInput,
                    message: read_failed_text(path@, stderr@),
                })
            },
            ExecResult::NotRun(m) => r matches Err(f) && f@ == (FailureView {
                kind: ErrorKind::RuntimeUnavailable,
                message: not_run_text(m@),
            }),
        },
{
    match result {
        ExecResult::Ran { success, stdout, stderr } => {
            if success {
                Ok(Emit::new(OutEvent::FilesData, stdout))
            } else {
                let mut text: Vec<char> = Vec::new();
                push_str(&mut text, "Failed to read file '");
                push_str(&mut text, path);
                push_str(&mut text, "': ");
                push_str(&mut text, stderr.as_str());
                assert(text@ =~= read_failed_text(path@, stderr@));
                Err(failed(ErrorKind::BadInput, string_of(&text)))
            }
        },
        ExecResult::NotRun(m) => Err(
            failed(
                ErrorKind::RuntimeUnavailable,
                concat2("Failed to execute docker command: ", m.as_str()),
            ),
        ),
    }
}

/// The directory that `std::path::Path::parent` gives for `path`: the path
/// without its last component, or `None` where it has none to leave out.
pub uninterp spec fn path_parent_of(path: Seq<char>) -> Option<Seq<char>>;

/// `std::path::Path::parent` of the standard library, on a path given as
/// text and with its answer as text. It looks at the text alone, so the
/// contract names the answer: the same path has the same parent.
#[verifier::external_body]
fn path_parent(path: &str) -> (r: Option<String>)
    ensures
        opt_text(r) == path_parent_of(path@),
{
    std::path::Path::new(path).parent().map(|p| p.to_string_lossy().into_owned())
}

/// What is run to save a file: the directory of the file is made, the
/// content is written to a temporary file beside it, this file is moved
/// over the file, and the size of the file is asked for.
#[derive(Debug, PartialEq, Eq)]
pub struct SavePlan {
    /// Makes the directory of the file, where the path has one.
    pub mkdir: Option<Vec<String>>,
    /// Takes the content on its input and writes the temporary file.
    pub tee: Vec<String>,
    /// The bytes handed to that command.
    pub input: Vec<u8>,
    /// The path of the temporary file.
    pub temp_path: String,
    /// Moves the temporary file over the file.
    pub rename: Vec<String>,
    /// Asks for the size of the file.
    pub verify: Vec<String>,
}

/// The path of the temporary file for `path`.
pub open spec fn temp_path_of(path: Seq<char>) -> Seq<char> {
    path + ".tmp"@
}

/// The arguments that make the directory `parent`.
pub open spec fn mkdir_args(container: Seq<char>, parent: Seq<char>) -> Seq<Seq<char>> {
    seq!["exec"@, container, "mkdir"@, "-p"@, parent]
}

/// The arguments that write the temporary file for `path` from the input.
pub open spec fn tee_args(container: Seq<char>, path: Seq<char>) -> Seq<Seq<char>> {
    seq!["exec"@, "-i"@, container, "tee"@, temp_path_of(path)]
}

/// The arguments that move the temporary file for `path` over `path`.
pub open spec fn rename_args(container: Seq<char>, path: Seq<char>) -> Seq<Seq<char>> {
    seq!["exec"@, container, "mv"@, temp_path_of(path), path]
}

/// The arguments that ask for the size of `path`.
pub open spec fn verify_args(container: Seq<char>, path: Seq<char>) -> Seq<Seq<char>> {
    seq!["exec"@, container, "wc"@, "-c"@, path]
}

/// The arguments of `v`, where there are any.
pub open spec fn opt_texts(v: Option<Vec<String>>) -> Option<Seq<Seq<char>>> {
    match v {
        Some(args) => Some(texts(args@)),
        None => None,
    }
}

/// Whether `plan` saves `content` to `path` in `container`, the directory
/// of the file being `parent`: the content goes to the temporary file
/// byte for byte.
pub open spec fn saves(
    plan: SavePlan,
    container: Seq<char>,
    path: Seq<char>,
    parent: Option<Seq<char>>,
    content: Seq<char>,
) -> bool {
    &&& opt_texts(plan.mkdir) == (match parent {
        Some(p) => Some(mkdir_args(container, p)),
        None => None,
    })
    &&& texts(plan.tee@) == tee_args(container, path)
    &&& plan.input@ == encode_utf8(content)
    &&& plan.temp_path@ == temp_path_of(path)
    &&& texts(plan.rename@) == rename_args(container, path)
    &&& texts(plan.verify@) == verify_args(container, path)
}

/// The plan that saves `content` to `path` in `container`, where the
/// directory of the file is `parent`.
pub fn plan_save(container: &str, path: &str, parent: Option<&str>, content: &str) -> (plan:
    SavePlan)
    ensures
        saves(
            plan,
            container@,
            path@,
            match parent {
                Some(p) => Some(p@),
                None => None,
            },
            content@,
        ),
{
    let mkdir = match parent {
        Some(p) => {
            let mut args: Vec<String> = Vec::new();
            args.push("exec".to_owned());
            args.push(container.to_owned());
            args.push("mkdir".to_owned());
            args.push("-p".to_owned());
            args.push(p.to_owned());
            assert(texts(args@) =~= mkdir_args(container@, p@));
            Some(args)
        },
        None => None,
    };
    let temp_path = concat2(path, ".tmp");
    let mut tee: Vec<String> = Vec::new();
    tee.push("exec".to_owned());
    tee.push("-i".to_owned());
    tee.push(container.to_owned());
    tee.push("tee".to_owned());
    tee.push(temp_path.clone());
    assert(texts(tee@) =~= tee_args(container@, path@));
    let mut rename: Vec<String> = Vec::new();
    rename.push("exec".to_owned());
    rename.push(container.to_owned());
    rename.push("mv".to_owned());
    rename.push(temp_path.clone());
    rename.push(path.to_owned());
    assert(texts(rename@) =~= rename_args(container@, path@));
    let mut verify: Vec<String> = Vec::new();
    verify.push("exec".to_owned());
    verify.push(container.to_owned());
    verify.push("wc".to_owned());
    verify.push("-c".to_owned());
    verify.push(path.to_owned());
    assert(texts(verify@) =~= verify_args(container@, path@));
    SavePlan { mkdir, tee, input: slice_to_vec(content.as_bytes()), temp_path, rename, verify }
}

/// Plans the saving of `content` to the file `path` of `email`. The
/// directory that is made first is the parent of `path`, as the standard
/// library has it; a path without a parent has no directory made.
pub fn save_file_data(registry: &Registry, email: &str, path: &str, content: &str) -> (r: Result<
    SavePlan,
    FileFailure,
>)
    ensures
        r is Ok <==> container_for(registry@, email@) is Some,
        r matches Ok(plan) ==> saves(
            plan,
            container_for(registry@, email@)->0,
            path@,
            path_parent_of(path@),
            content@,
        ),
        r matches Err(f) ==> f@ == no_container_failure(has_email(registry@, email@), email@),
{
    match file_container(registry, email) {
        Ok(container) => {
            let parent = path_parent(path);
            let plan = match &parent {
                Some(p) => plan_save(container.as_str(), path, Some(p.as_str()), content),
                None => plan_save(container.as_str(), path, None, content),
            };
            Ok(plan)
        },
        Err(f) => Err(f),
    }
}

/// The failure that the result of writing the temporary file `temp_path`
/// stands for, if it is one: the command ran and failed, or it could not be
/// started, fed or awaited.
pub open spec fn tee_failure(temp_path: Seq<char>, result: TeeResult) -> Option<FailureView> {
    match result {
        TeeResult::Ran { success, stderr } => if success {
            None
        } else {
            Some(
                FailureView {
                    kind: ErrorKind::BadInput,
                    message: "Failed to write temp file '"@ + temp_path + "': "@ + stderr@,
                },
            )
        },
        TeeResult::SpawnFailed(m) => Some(
            FailureView {
                kind: ErrorKind::RuntimeUnavailable,
                message: "Failed to spawn docker command: "@ + m@,
            },
        ),
        TeeResult::WriteFailed(m) => Some(
            FailureView {
                kind: ErrorKind::RuntimeUnavailable,
                message: "Failed to write to stdin: "@ + m@,
            },
        ),
        TeeResult::WaitFailed(m) => Some(
            FailureView {
                kind: ErrorKind::RuntimeUnavailable,
                message: "Failed to wait for process: "@ + m@,
            },
        ),
    }
}

/// What the result of writing the temporary file means: the save goes on
/// where the command succeeded, and fails otherwise.
pub fn tee_outcome(temp_path: &str, result: &TeeResult) -> (r: Result<(), FileFailure>)
    ensures
        r is Ok <==> tee_failure(temp_path@, *result) is None,
        r matches Err(f) ==> Some(f@) == tee_failure(temp_path@, *result),
{
    match result {
        TeeResult::Ran { success, stderr } => {
            if *success {
                Ok(())
            } else {
                let mut text: Vec<char> = Vec::new();
                push_str(&mut text, "Failed to write temp file '");
                push_str(&mut text, temp_path);
                push_str(&mut text, "': ");
                push_str(&mut text, stderr.as_str());
                assert(text@ =~= "Failed to write temp file '"@ + temp_path@ + "': "@ + stderr@);
                Err(failed(ErrorKind::BadInput, string_of(&text)))
            }
        },
        TeeResult::SpawnFailed(m) => Err(
            failed(
                ErrorKind::RuntimeUnavailable,
                concat2("Failed to spawn docker command: ", m.as_str()),
            ),
        ),
        TeeResult::WriteFailed(m) => Err(
            failed(
                ErrorKind::RuntimeUnavailable,
                concat2("Failed to write to stdin: ", m.as_str()),
            ),
        ),
        TeeResult::WaitFailed(m) => Err(
            failed(
                ErrorKind::RuntimeUnavailable,
                concat2("Failed to wait for process: ", m.as_str()),
            ),
        ),
    }
}

/// The text that tells the client that `path` was saved.
pub open spec fn saved_text(path: Seq<char>) -> Seq<char> {
    "File '"@ + path + "' saved successfully"@
}

/// The failure that the result of moving the temporary file over `path`
/// stands for, if it is one.
pub open spec fn rename_failure(path: Seq<char>, result: ExecResult) -> Option<FailureView> {
    match result {
        ExecResult::Ran { success, stdout, stderr } => if success {
            None
        } else {
            Some(
                FailureView {
                    kind: ErrorKind::BadInput,
                    message: "Failed to move temp file to '"@ + path + "': "@ + stderr@,
                },
            )
        },
        ExecResult::NotRun(m) => Some(
            FailureView {
                kind: ErrorKind::RuntimeUnavailable,
                message: "Failed to execute mv command: "@ + m@,
            },
        ),
    }
}

/// What the result of moving the temporary file over `path` means: the
/// file is saved, and the client is told so with `file_saved`, where the
/// command succeeded; the save has failed otherwise.
pub fn rename_outcome(path: &str, result: &ExecResult) -> (r: Result<Emit, FileFailure>)
    ensures
        r is Ok <==> rename_failure(path@, *result) is None,
        r matches Ok(e) ==> e@ == (OutEvent::FileSaved, saved_text(path@)),
        r matches Err(f) ==> Some(f@) == rename_failure(path@, *result),
{
    match result {
        ExecResult::Ran { success, stdout, stderr } => {
            if *success {
                Ok(Emit::new(OutEvent::FileSaved, concat3("File '", path, "' saved successfully")))
            } else {
                let mut text: Vec<char> = Vec::new();
                push_str(&mut text, "Failed to move temp file to '");
                push_str(&mut text, path);
                push_str(&mut text, "': ");
                push_str(&mut text, stderr.as_str());
                assert(text@ =~= "Failed to move temp file to '"@ + path@ + "': "@ + stderr@);
                Err(failed(ErrorKind::BadInput, string_of(&text)))
            }
        },
        ExecResult::NotRun(m) => Err(
            failed(
                ErrorKind::RuntimeUnavailable,
                concat2("Failed to execute mv command: ", m.as_str()),
            ),
        ),
    }
}

/// A `SavePlan` over plain sequences.
pub struct SavePlanView {
    pub mkdir: Option<Seq<Seq<char>>>,
    pub tee: Seq<Seq<char>>,
    pub input: Seq<u8>,
    pub temp_path: Seq<char>,
    pub rename: Seq<Seq<char>>,
    pub verify: Seq<Seq<char>>,
}

impl View for SavePlan {
    type V = SavePlanView;

    open spec fn view(&self) -> SavePlanView {
        SavePlanView {
            mkdir: opt_texts(self.mkdir),
            tee: texts(self.tee@),
            input: self.input@,
            temp_path: self.temp_path@,
            rename: texts(self.rename@),
            verify: texts(self.verify@),
        }
    }
}

/// A command of a save.
#[derive(Debug, PartialEq, Eq)]
pub enum FileOrder {
    /// Make the directory of the file. What comes of it is not looked at.
    MakeDirectory(Vec<String>),
    /// Run the command and hand it the bytes on its input.
    WriteTemp { args: Vec<String>, input: Vec<u8> },
    /// Move the temporary file over the file.
    Rename(Vec<String>),
    /// Ask for the size of the file. What comes of it is not looked at.
    Verify(Vec<String>),
}

/// A `FileOrder` over plain sequences.
pub enum FileOrderView {
    MakeDirectory(Seq<Seq<char>>),
    WriteTemp { args: Seq<Seq<char>>, input: Seq<u8> },
    Rename(Seq<Seq<char>>),
    Verify(Seq<Seq<char>>),
}

impl View for FileOrder {
    type V = FileOrderView;

    open spec fn view(&self) -> FileOrderView {
        match self {
            FileOrder::MakeDirectory(args) => FileOrderView::MakeDirectory(texts(args@)),
            FileOrder::WriteTemp { args, input } => FileOrderView::WriteTemp {
                args: texts(args@),
                input: input@,
            },
            FileOrder::Rename(args) => FileOrderView::Rename(texts(args@)),
            FileOrder::Verify(args) => FileOrderView::Verify(texts(args@)),
        }
    }
}

/// What came of a command of a save.
#[derive(Debug, PartialEq, Eq)]
pub enum FileEvent {
    /// The result of a command without input.
    Ran(ExecResult),
    /// The result of the command that took the content.
    Wrote(TeeResult),
}

/// What a save does next.
#[derive(Debug, PartialEq, Eq)]
pub enum FileStep {
    /// Run this command.
    Run(FileOrder),
    /// The file is saved: send this frame.
    Saved(Emit),
    /// The save has failed.
    Failed(FileFailure),
    /// The event does not belong here: do nothing.
    Ignore,
}

/// A `FileStep` over plain sequences.
pub enum FileStepView {
    Run(FileOrderView),
    Saved(OutEvent, Seq<char>),
    Failed(FailureView),
    Ignore,
}

impl View for FileStep {
    type V = FileStepView;

    open spec fn view(&self) -> FileStepView {
        match self {
            FileStep::Run(order) => FileStepView::Run(order@),
            FileStep::Saved(e) => FileStepView::Saved(e.event, e.text@),
            FileStep::Failed(f) => FileStepView::Failed(f@),
            FileStep::Ignore => FileStepView::Ignore,
        }
    }
}

/// Where a save stands.
#[derive(Clone, Copy, Debug, PartialEq, Eq, Structural)]
pub enum SavePhase {
    MakingDirectory,
    WritingTemp,
    Renaming,
    Verifying,
    Done,
}

/// The saving of one file.
pub struct SaveFile {
    path: String,
    plan: SavePlan,
    phase: SavePhase,
}

/// The state of a save, over plain sequences.
pub struct SaveFileView {
    pub path: Seq<char>,
    pub plan: SavePlanView,
    pub phase: SavePhase,
}

impl View for SaveFile {
    type V = SaveFileView;

    closed spec fn view(&self) -> SaveFileView {
        SaveFileView { path: self.path@, plan: self.plan@, phase: self.phase }
    }
}

/// The command that writes the temporary file.
pub open spec fn write_temp(plan: SavePlanView) -> FileStepView {
    FileStepView::Run(FileOrderView::WriteTemp { args: plan.tee, input: plan.input })
}

/// How a save begins: with the directory of the file where the path has
/// one, else with the temporary file.
pub open spec fn save_begin(plan: SavePlanView) -> (SavePhase, FileStepView) {
    match plan.mkdir {
        Some(args) => (
            SavePhase::MakingDirectory,
            FileStepView::Run(FileOrderView::MakeDirectory(args)),
        ),
        None => (SavePhase::WritingTemp, write_temp(plan)),
    }
}

/// What a save decides on `event`. The content is written to the temporary
/// file whatever came of making the directory. The temporary file is moved
/// over the file only where writing it succeeded. The file counts as saved
/// once it is moved, and the client is told so after its size was asked
/// for, whatever the answer.
pub open spec fn save_decision(v: SaveFileView, event: FileEvent) -> (SavePhase, FileStepView) {
    match (v.phase, event) {
        (SavePhase::MakingDirectory, FileEvent::Ran(_)) => (
            SavePhase::WritingTemp,
            write_temp(v.plan),
        ),
        (SavePhase::WritingTemp, FileEvent::Wrote(result)) => match tee_failure(
            v.plan.temp_path,
            result,
        ) {
            Some(f) => (SavePhase::Done, FileStepView::Failed(f)),
            None => (SavePhase::Renaming, FileStepView::Run(FileOrderView::Rename(v.plan.rename))),
        },
        (SavePhase::Renaming, FileEvent::Ran(result)) => match rename_failure(v.path, result) {
            Some(f) => (SavePhase::Done, FileStepView::Failed(f)),
            None => (
                SavePhase::Verifying,
                FileStepView::Run(FileOrderView::Verify(v.plan.verify)),
            ),
        },
        (SavePhase::Verifying, FileEvent::Ran(_)) => (
            SavePhase::Done,
            FileStepView::Saved(OutEvent::FileSaved, saved_text(v.path)),
        ),
        _ => (v.phase, FileStepView::Ignore),
    }
}

/// A copy of a list of arguments.
fn copy_args(args: &Vec<String>) -> (r: Vec<String>)
    ensures
        texts(r@) == texts(args@),
{
    let mut r: Vec<String> = Vec::new();
    let mut i: usize = 0;
    while i < args.len()
        invariant
            i <= args.len(),
            texts(r@) == texts(args@).take(i as int),
        decreases args.len() - i,
    {
        let ghost before = texts(r@);
        r.push(args[i].clone());
        assert(texts(r@) =~= before.push(args@[i as int]@));
        assert(texts(r@) =~= texts(args@).take(i + 1));
        i += 1;
    }
    assert(texts(args@).take(args.len() as int) =~= texts(args@));
    r
}

impl SaveFile {
    /// Begins the save of `path` that `plan` describes.
    pub fn begin(path: &str, plan: SavePlan) -> (r: (SaveFile, FileStep))
        ensures
            r.0@.path == path@,
            r.0@.plan == plan@,
            (r.0@.phase, r.1@) == save_begin(plan@),
    {
        let mut flow = SaveFile { path: path.to_owned(), plan, phase: SavePhase::WritingTemp };
        let first = match &flow.plan.mkdir {
            Some(args) => Some(copy_args(args)),
            None => None,
        };
        match first {
            Some(args) => {
                flow.phase = SavePhase::MakingDirectory;
                (flow, FileStep::Run(FileOrder::MakeDirectory(args)))
            },
            None => {
                let step = flow.write_temp_step();
                (flow, step)
            },
        }
    }

    /// The step that writes the temporary file.
    fn write_temp_step(&self) -> (r: FileStep)
        ensures
            r@ == write_temp(self@.plan),
    {
        FileStep::Run(
            FileOrder::WriteTemp {
                args: copy_args(&self.plan.tee),
                input: slice_to_vec(self.plan.input.as_slice()),
            },
        )
    }

    /// The save has met `event`.
    pub fn step(&mut self, event: FileEvent) -> (r: FileStep)
        ensures
            final(self)@.path == old(self)@.path,
            final(self)@.plan == old(self)@.plan,
            (final(self)@.phase, r@) == save_decision(old(self)@, event),
    {
        match (self.phase, event) {
            (SavePhase::MakingDirectory, FileEvent::Ran(_)) => {
                self.phase = SavePhase::WritingTemp;
                self.write_temp_step()
            },
            (SavePhase::WritingTemp, FileEvent::Wrote(result)) => {
                match tee_outcome(self.plan.temp_path.as_str(), &result) {
                    Ok(_) => {
                        self.phase = SavePhase::Renaming;
                        FileStep::Run(FileOrder::Rename(copy_args(&self.plan.rename)))
                    },
                    Err(f) => {
                        self.phase = SavePhase::Done;
                        FileStep::Failed(f)
                    },
                }
            },
            (SavePhase::Renaming, FileEvent::Ran(result)) => {
                match rename_outcome(self.path.as_str(), &result) {
                    Ok(_) => {
                        self.phase = SavePhase::Verifying;
                        FileStep::Run(FileOrder::Verify(copy_args(&self.plan.verify)))
                    },
                    Err(f) => {
                        self.phase = SavePhase::Done;
                        FileStep::Failed(f)
                    },
                }
            },
            (SavePhase::Verifying, FileEvent::Ran(_)) => {
                self.phase = SavePhase::Done;
                FileStep::Saved(
                    Emit::new(
                        OutEvent::FileSaved,
                        concat3("File '", self.path.as_str(), "' saved successfully"),
                    ),
                )
            },
            _ => FileStep::Ignore,
        }
    }
}

/// A file never counts as saved unless its content went through the
/// temporary file: the client is told that the file is saved only after the
/// move succeeded, and the move is run only after the temporary file was
/// written, so that a save that fails has not touched the file. A failure
/// ends the save: nothing is run and nothing is sent after it.
pub proof fn lemma_saved_means_moved(v: SaveFileView, event: FileEvent)
    ensures
        save_decision(v, event).1 is Saved ==> v.phase == SavePhase::Verifying,
        save_decision(v, event).1 is Failed ==> save_decision(v, event).0 == SavePhase::Done,
        v.phase == SavePhase::Done ==> save_decision(v, event).1 is Ignore && save_decision(
            v,
            event,
        ).0 == SavePhase::Done,
        v.phase != SavePhase::Verifying && save_decision(v, event).0 == SavePhase::Verifying
            ==> v.phase == SavePhase::Renaming && event is Ran && rename_failure(
            v.path,
            event->Ran_0,
        ) is None,
        v.phase != SavePhase::Renaming && save_decision(v, event).0 == SavePhase::Renaming
            ==> v.phase == SavePhase::WritingTemp && event is Wrote && tee_failure(
            v.plan.temp_path,
            event->Wrote_0,
        ) is None,
{
}

} // verus!
