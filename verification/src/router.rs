//! The input router: where keystrokes and window sizes of a client go.

use crate::error::{ErrorKind, GatewayError};
use crate::events::{Emit, OutEvent};
use crate::pump::lemma_encode_concat;
use crate::registry::{master_for, Registry, SessionView};
use crate::text::{push_signed_decimal, push_str, signed_decimal, string_of};
use vstd::prelude::*;
use vstd::slice::slice_to_vec;
use vstd::utf8::encode_utf8;

verus! {

/// The text of the error for a user without a terminal.
pub open spec fn no_terminal_text(email: Seq<char>) -> Seq<char> {
    "No terminal found for email: "@ + email
}

/// The error for a user without a terminal.
pub fn session_not_found(email: &str) -> (e: GatewayError)
    ensures
        e.kind == ErrorKind::SessionNotFound,
        e.message@ == no_terminal_text(email@),
{
    let mut text: Vec<char> = Vec::new();
    push_str(&mut text, "No terminal found for email: ");
    push_str(&mut text, email);
    assert(text@ =~= no_terminal_text(email@));
    GatewayError::new(ErrorKind::SessionNotFound, string_of(&text))
}

/// An order to write bytes to a pseudo-terminal, in one piece.
#[derive(Debug, PartialEq, Eq)]
pub struct WriteOrder {
    pub handle: u64,
    pub bytes: Vec<u8>,
}

/// The size of a terminal window.
#[derive(Clone, Copy, Debug, PartialEq, Eq, Structural)]
pub struct Winsize {
    pub ws_row: u16,
    pub ws_col: u16,
    pub ws_xpixel: u16,
    pub ws_ypixel: u16,
}

/// An order to set the window size of a pseudo-terminal.
#[derive(Clone, Copy, Debug, PartialEq, Eq, Structural)]
pub struct ResizeOrder {
    pub handle: u64,
    pub winsize: Winsize,
}

/// Where the input `data` of `email` goes: to the interactive
/// pseudo-terminal of `email`, as the bytes of `data` and nothing else. No
/// line end is added. A user without such a pseudo-terminal gets
/// `SessionNotFound`, and nothing is written.
pub fn handle_terminal_input(registry: &Registry, email: &str, data: &str) -> (r: Result<
    WriteOrder,
    GatewayError,
>)
    ensures
        r is Ok <==> master_for(registry@, email@) is Some,
        r matches Ok(order) ==> Some(order.handle) == master_for(registry@, email@) && order.bytes@
            == encode_utf8(data@),
        r matches Err(e) ==> e.kind == ErrorKind::SessionNotFound && e.message@
            == no_terminal_text(email@),
{
    match registry.master_of(email) {
        Some(handle) => Ok(WriteOrder { handle, bytes: slice_to_vec(data.as_bytes()) }),
        None => Err(session_not_found(email)),
    }
}

/// The text of the error for a write that failed with `message`.
pub open spec fn write_error_text(message: Seq<char>) -> Seq<char> {
    "Error writing to terminal: "@ + message
}

/// The text of the error for a flush that failed with `message`.
pub open spec fn flush_error_text(message: Seq<char>) -> Seq<char> {
    "Error flushing terminal: "@ + message
}

/// What failed when input was handed to the pseudo-terminal.
#[derive(Debug, PartialEq, Eq)]
pub enum WriteFailure {
    /// The write failed, with the message of the system.
    Write(String),
    /// The bytes were written and the flush failed, with the message of
    /// the system.
    Flush(String),
}

/// The error for input that could not be handed to the pseudo-terminal: a
/// `PtyIoError` whose text is shown to the client as `terminal_error`.
pub fn input_failed(failure: &WriteFailure) -> (e: GatewayError)
    ensures
        e.kind == ErrorKind::PtyIoError,
        e.message@ == match failure {
            WriteFailure::Write(m) => write_error_text(m@),
            WriteFailure::Flush(m) => flush_error_text(m@),
        },
{
    let mut text: Vec<char> = Vec::new();
    match failure {
        WriteFailure::Write(m) => {
            push_str(&mut text, "Error writing to terminal: ");
            push_str(&mut text, m.as_str());
            assert(text@ =~= write_error_text(m@));
        },
        WriteFailure::Flush(m) => {
            push_str(&mut text, "Error flushing terminal: ");
            push_str(&mut text, m.as_str());
            assert(text@ =~= flush_error_text(m@));
        },
    }
    GatewayError::new(ErrorKind::PtyIoError, string_of(&text))
}

/// The frame that reports `error` to the client.
pub fn terminal_error(error: &GatewayError) -> (e: Emit)
    ensures
        e@ == (OutEvent::TerminalError, error.message@),
{
    Emit::new(OutEvent::TerminalError, error.message.clone())
}

/// Where a new window size of `email` goes: to the interactive
/// pseudo-terminal of `email`, with the rows and columns as given and no
/// size in pixels. Every size is passed on. A user without such a
/// pseudo-terminal gets `SessionNotFound`.
pub fn handle_terminal_resize(registry: &Registry, email: &str, rows: u16, cols: u16) -> (r:
    Result<ResizeOrder, GatewayError>)
    ensures
        r is Ok <==> master_for(registry@, email@) is Some,
        r matches Ok(order) ==> Some(order.handle) == master_for(registry@, email@)
            && order.winsize == (Winsize {
            ws_row: rows,
            ws_col: cols,
            ws_xpixel: 0,
            ws_ypixel: 0,
        }),
        r matches Err(e) ==> e.kind == ErrorKind::SessionNotFound && e.message@
            == no_terminal_text(email@),
{
    match registry.master_of(email) {
        Some(handle) => Ok(
            ResizeOrder {
                handle,
                winsize: Winsize { ws_row: rows, ws_col: cols, ws_xpixel: 0, ws_ypixel: 0 },
            },
        ),
        None => Err(session_not_found(email)),
    }
}

/// The text of the error for a resize that the system answered with
/// `status`.
pub open spec fn resize_error_text(status: int) -> Seq<char> {
    "Failed to resize terminal: errno "@ + signed_decimal(status)
}

/// What the answer of the system to a resize means: zero is success, and
/// every other status is a `PtyIoError` that names the status.
pub fn resize_outcome(status: i32) -> (r: Result<(), GatewayError>)
    ensures
        r is Ok <==> status == 0,
        r matches Err(e) ==> e.kind == ErrorKind::PtyIoError && e.message@ == resize_error_text(
            status as int,
        ),
{
    if status == 0 {
        Ok(())
    } else {
        let mut text: Vec<char> = Vec::new();
        push_str(&mut text, "Failed to resize terminal: errno ");
        push_signed_decimal(&mut text, status as i64);
        assert(text@ =~= resize_error_text(status as int));
        Err(GatewayError::new(ErrorKind::PtyIoError, string_of(&text)))
    }
}

/// The bytes that reach the pseudo-terminal of `email` when the inputs
/// `inputs` are routed one after the other through a registry that does
/// not change: each input contributes the bytes of its write order, and
/// nothing where it is refused.
pub open spec fn routed_bytes(s: Seq<SessionView>, email: Seq<char>, inputs: Seq<Seq<char>>) -> Seq<
    u8,
>
    decreases inputs.len(),
{
    if inputs.len() == 0 {
        Seq::empty()
    } else {
        routed_bytes(s, email, inputs.drop_last()) + (if master_for(s, email) is Some {
            encode_utf8(inputs.last())
        } else {
            Seq::empty()
        })
    }
}

/// The inputs put together, in order.
pub open spec fn all_input(inputs: Seq<Seq<char>>) -> Seq<char>
    decreases inputs.len(),
{
    if inputs.len() == 0 {
        Seq::empty()
    } else {
        all_input(inputs.drop_last()) + inputs.last()
    }
}

/// Input reaches the shell in order and whole: for a user with a
/// pseudo-terminal, the bytes written for a run of inputs are the bytes of
/// the inputs put together, each input in one piece.
pub proof fn lemma_input_in_order(s: Seq<SessionView>, email: Seq<char>, inputs: Seq<Seq<char>>)
    requires
        master_for(s, email) is Some,
    ensures
        routed_bytes(s, email, inputs) == encode_utf8(all_input(inputs)),
    decreases inputs.len(),
{
    if inputs.len() > 0 {
        lemma_input_in_order(s, email, inputs.drop_last());
        lemma_encode_concat(all_input(inputs.drop_last()), inputs.last());
    }
}

} // verus!
