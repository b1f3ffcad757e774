//! What the pseudo-terminal manager asks of the system: the size of a new
//! terminal, the settings that make it raw, the command that puts a shell
//! of the container on it, and the name and shape of the container itself.

use crate::router::Winsize;
use crate::text::{chars_of, pair_texts, string_of, texts};
use vstd::prelude::*;

verus! {

/// Whether `c` is a letter or a digit in the sense of
/// `char::is_alphanumeric`.
pub uninterp spec fn unicode_alphanumeric(c: char) -> bool;

/// `char::is_alphanumeric` of the standard library. The contract only
/// names its answer.
pub assume_specification[ char::is_alphanumeric ](c: char) -> (b: bool)
    ensures
        b == unicode_alphanumeric(c),
;

/// The rows of a new terminal.
pub const INITIAL_ROWS: u16 = 24;

/// The columns of a new terminal.
pub const INITIAL_COLS: u16 = 80;

/// The size with which a pseudo-terminal is opened: 24 rows of 80 columns.
pub fn initial_winsize() -> (w: Winsize)
    ensures
        w == (Winsize { ws_row: 24, ws_col: 80, ws_xpixel: 0, ws_ypixel: 0 }),
{
    Winsize { ws_row: INITIAL_ROWS, ws_col: INITIAL_COLS, ws_xpixel: 0, ws_ypixel: 0 }
}

/// A flag of the terminal settings that raw mode clears.
#[derive(Clone, Copy, Debug, PartialEq, Eq, Structural)]
pub enum TermFlag {
    /// Input: carriage return becomes line feed.
    Icrnl,
    /// Input: start and stop control of output.
    Ixon,
    /// Input: the eighth bit is stripped.
    Istrip,
    /// Input: carriage return is ignored.
    Igncr,
    /// Input: line feed becomes carriage return.
    Inlcr,
    /// Output: output is post-processed.
    Opost,
    /// Local: input is echoed.
    Echo,
    /// Local: input comes line by line.
    Icanon,
    /// Local: control characters raise signals.
    Isig,
    /// Local: extended input processing.
    Iexten,
}

/// The group of settings that a flag belongs to.
#[derive(Clone, Copy, Debug, PartialEq, Eq, Structural)]
pub enum FlagGroup {
    Input,
    Output,
    Local,
}

/// The group of `flag`.
pub open spec fn flag_group(flag: TermFlag) -> FlagGroup {
    match flag {
        TermFlag::Icrnl => FlagGroup::Input,
        TermFlag::Ixon => FlagGroup::Input,
        TermFlag::Istrip => FlagGroup::Input,
        TermFlag::Igncr => FlagGroup::Input,
        TermFlag::Inlcr => FlagGroup::Input,
        TermFlag::Opost => FlagGroup::Output,
        TermFlag::Echo => FlagGroup::Local,
        TermFlag::Icanon => FlagGroup::Local,
        TermFlag::Isig => FlagGroup::Local,
        TermFlag::Iexten => FlagGroup::Local,
    }
}

impl TermFlag {
    /// The group of this flag.
    pub fn group(&self) -> (g: FlagGroup)
        ensures
            g == flag_group(*self),
    {
        match self {
            TermFlag::Icrnl => FlagGroup::Input,
            TermFlag::Ixon => FlagGroup::Input,
            TermFlag::Istrip => FlagGroup::Input,
            TermFlag::Igncr => FlagGroup::Input,
            TermFlag::Inlcr => FlagGroup::Input,
            TermFlag::Opost => FlagGroup::Output,
            TermFlag::Echo => FlagGroup::Local,
            TermFlag::Icanon => FlagGroup::Local,
            TermFlag::Isig => FlagGroup::Local,
            TermFlag::Iexten => FlagGroup::Local,
        }
    }
}

/// The change that makes a terminal raw.
#[derive(Debug, PartialEq, Eq)]
pub struct RawMode {
    /// The flags to clear.
    pub clear: Vec<TermFlag>,
    /// The least number of bytes that a read waits for.
    pub vmin: u8,
    /// The time that a read waits, in tenths of a second.
    pub vtime: u8,
}

/// The flags that raw mode clears: no translation of input, no
/// post-processing of output, no echo, no line buffering, no signals.
pub open spec fn raw_mode_flags() -> Seq<TermFlag> {
    seq![
        TermFlag::Icrnl,
        TermFlag::Ixon,
        TermFlag::Istrip,
        TermFlag::Igncr,
        TermFlag::Inlcr,
        TermFlag::Opost,
        TermFlag::Echo,
        TermFlag::Icanon,
        TermFlag::Isig,
        TermFlag::Iexten,
    ]
}

/// The change that makes a terminal raw: the flags of `raw_mode_flags` are
/// cleared, and a read returns as soon as one byte is there.
pub fn raw_mode() -> (r: RawMode)
    ensures
        r.clear@ == raw_mode_flags(),
        r.vmin == 1,
        r.vtime == 0,
{
    let mut clear: Vec<TermFlag> = Vec::new();
    clear.push(TermFlag::Icrnl);
    clear.push(TermFlag::Ixon);
    clear.push(TermFlag::Istrip);
    clear.push(TermFlag::Igncr);
    clear.push(TermFlag::Inlcr);
    clear.push(TermFlag::Opost);
    clear.push(TermFlag::Echo);
    clear.push(TermFlag::Icanon);
    clear.push(TermFlag::Isig);
    clear.push(TermFlag::Iexten);
    assert(clear@ =~= raw_mode_flags());
    RawMode { clear, vmin: 1, vtime: 0 }
}

/// The shell that runs in the container.
pub open spec fn shell_path() -> Seq<char> {
    "/bin/bash"@
}

/// The arguments with which the container engine puts an interactive
/// shell of `container` on a terminal.
pub open spec fn shell_args(container: Seq<char>) -> Seq<Seq<char>> {
    seq!["exec"@, "-it"@, container, shell_path()]
}

/// The arguments of the command that attaches a shell of `container`.
pub fn shell_command(container: &str) -> (args: Vec<String>)
    ensures
        texts(args@) == shell_args(container@),
{
    let mut args: Vec<String> = Vec::new();
    args.push("exec".to_owned());
    args.push("-it".to_owned());
    args.push(container.to_owned());
    args.push("/bin/bash".to_owned());
    assert(texts(args@) =~= shell_args(container@));
    args
}

/// The arguments of the command that starts a shell of a container on
/// pipes: those of `shell_command`, for the container given, or for
/// `your-container-id` where none is given.
pub fn start_pty_process(docker_container_id: Option<&str>) -> (args: Vec<String>)
    ensures
        texts(args@) == shell_args(
            match docker_container_id {
                Some(id) => id@,
                None => "your-container-id"@,
            },
        ),
{
    match docker_container_id {
        Some(id) => shell_command(id),
        None => shell_command("your-container-id"),
    }
}

/// The environment of the shell: a terminal with 256 colours, true colour,
/// and UTF-8.
pub open spec fn shell_env() -> Seq<(Seq<char>, Seq<char>)> {
    seq![
        ("TERM"@, "xterm-256color"@),
        ("COLORTERM"@, "truecolor"@),
        ("LC_ALL"@, "C.UTF-8"@),
    ]
}

/// The environment with which the shell is started.
pub fn shell_environment() -> (env: Vec<(String, String)>)
    ensures
        pair_texts(env@) == shell_env(),
{
    let mut env: Vec<(String, String)> = Vec::new();
    env.push(("TERM".to_owned(), "xterm-256color".to_owned()));
    env.push(("COLORTERM".to_owned(), "truecolor".to_owned()));
    env.push(("LC_ALL".to_owned(), "C.UTF-8".to_owned()));
    assert(pair_texts(env@) =~= shell_env());
    env
}

/// `email` with `-` in place of every character that is neither a letter
/// nor a digit.
pub open spec fn dashed(email: Seq<char>) -> Seq<char> {
    Seq::new(
        email.len(),
        |i: int|
            if unicode_alphanumeric(email[i]) {
                email[i]
            } else {
                '-'
            },
    )
}

/// The name of the container of `email`: `dev-env-` and the address with
/// `-` in place of what is neither a letter nor a digit.
pub open spec fn container_name_of(email: Seq<char>) -> Seq<char> {
    "dev-env-"@ + dashed(email)
}

/// The name of the container of `email`.
pub fn container_name(email: &str) -> (r: String)
    ensures
        r@ == container_name_of(email@),
{
    let chars = chars_of(email);
    let mut out = chars_of("dev-env-");
    let ghost head = out@;
    let mut i: usize = 0;
    assert(out@ =~= head + dashed(email@).take(0));
    while i < chars.len()
        invariant
            i <= chars.len(),
            chars@ == email@,
            head == "dev-env-"@,
            out@ == head + dashed(email@).take(i as int),
        decreases chars.len() - i,
    {
        let c = chars[i];
        if c.is_alphanumeric() {
            out.push(c);
        } else {
            out.push('-');
        }
        assert(out@ =~= head + dashed(email@).take(i + 1));
        i += 1;
    }
    assert(dashed(email@).take(chars.len() as int) =~= dashed(email@));
    string_of(&out)
}

/// The shape of the container that is created for a user.
#[derive(Debug, PartialEq, Eq)]
pub struct ContainerSpec {
    pub name: String,
    pub image: String,
    pub platform: String,
    pub cmd: Vec<String>,
    pub tty: bool,
    pub attach_stdin: bool,
    pub attach_stdout: bool,
    pub attach_stderr: bool,
    pub open_stdin: bool,
}

/// The image of every sandbox.
pub open spec fn sandbox_image() -> Seq<char> {
    "ubuntu:20.04"@
}

/// The platform of every sandbox.
pub open spec fn sandbox_platform() -> Seq<char> {
    "linux/amd64"@
}

/// The image of every sandbox.
pub fn image() -> (r: String)
    ensures
        r@ == sandbox_image(),
{
    "ubuntu:20.04".to_owned()
}

/// The platform of every sandbox.
pub fn platform() -> (r: String)
    ensures
        r@ == sandbox_platform(),
{
    "linux/amd64".to_owned()
}

/// A `ContainerSpec` over plain sequences.
pub struct ContainerSpecView {
    pub name: Seq<char>,
    pub image: Seq<char>,
    pub platform: Seq<char>,
    pub cmd: Seq<Seq<char>>,
    pub tty: bool,
    pub attach_stdin: bool,
    pub attach_stdout: bool,
    pub attach_stderr: bool,
    pub open_stdin: bool,
}

impl View for ContainerSpec {
    type V = ContainerSpecView;

    open spec fn view(&self) -> ContainerSpecView {
        ContainerSpecView {
            name: self.name@,
            image: self.image@,
            platform: self.platform@,
            cmd: texts(self.cmd@),
            tty: self.tty,
            attach_stdin: self.attach_stdin,
            attach_stdout: self.attach_stdout,
            attach_stderr: self.attach_stderr,
            open_stdin: self.open_stdin,
        }
    }
}

/// The container that is created for `email`: the sandbox image on its
/// platform, a shell as its command, a terminal, all three streams
/// attached and input kept open, under the name of the user.
pub open spec fn sandbox_spec(email: Seq<char>) -> ContainerSpecView {
    ContainerSpecView {
        name: container_name_of(email),
        image: sandbox_image(),
        platform: sandbox_platform(),
        cmd: seq![shell_path()],
        tty: true,
        attach_stdin: true,
        attach_stdout: true,
        attach_stderr: true,
        open_stdin: true,
    }
}

/// The container that is created for `email`.
pub fn container_spec(email: &str) -> (r: ContainerSpec)
    ensures
        r@ == sandbox_spec(email@),
{
    let mut cmd: Vec<String> = Vec::new();
    cmd.push("/bin/bash".to_owned());
    assert(texts(cmd@) =~= seq![shell_path()]);
    ContainerSpec {
        name: container_name(email),
        image: image(),
        platform: platform(),
        cmd,
        tty: true,
        attach_stdin: true,
        attach_stdout: true,
        attach_stderr: true,
        open_stdin: true,
    }
}

/// What is asked of the system to put a shell of a container on a new
/// pseudo-terminal.
#[derive(Debug, PartialEq, Eq)]
pub struct PtyPlan {
    /// The size with which the pseudo-terminal is opened.
    pub winsize: Winsize,
    /// The change of its settings, applied at once.
    pub raw: RawMode,
    /// The arguments with which the container engine starts the shell.
    pub args: Vec<String>,
    /// The environment of the shell.
    pub env: Vec<(String, String)>,
}

/// The container whose shell is attached where none is named.
pub open spec fn fallback_container() -> Seq<char> {
    "default-container"@
}

/// Plans a pseudo-terminal for a shell of the container given, or of
/// `default-container` where none is given: 24 rows of 80 columns, raw
/// mode, an interactive shell, and an environment with colours and UTF-8.
pub fn pseudo_terminal(docker_container_id: Option<&str>) -> (plan: PtyPlan)
    ensures
        plan.winsize == (Winsize { ws_row: 24, ws_col: 80, ws_xpixel: 0, ws_ypixel: 0 }),
        plan.raw.clear@ == raw_mode_flags(),
        plan.raw.vmin == 1,
        plan.raw.vtime == 0,
        texts(plan.args@) == shell_args(
            match docker_container_id {
                Some(id) => id@,
                None => fallback_container(),
            },
        ),
        pair_texts(plan.env@) == shell_env(),
{
    let args = match docker_container_id {
        Some(id) => shell_command(id),
        None => shell_command("default-container"),
    };
    PtyPlan { winsize: initial_winsize(), raw: raw_mode(), args, env: shell_environment() }
}

} // verus!
