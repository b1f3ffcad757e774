use ws_ide::error::{ErrorKind, GatewayError};
use ws_ide::events::OutEvent;
use ws_ide::registry::Registry;
use ws_ide::router::{
    handle_terminal_input, handle_terminal_resize, input_failed, resize_outcome,
    session_not_found, terminal_error, ResizeOrder, Winsize, WriteFailure, WriteOrder,
};
use ws_ide::teardown::handle_close_terminal;

fn live(email: &str, master: u64) -> Registry {
    let mut r = Registry::new();
    r.register(email, "c1");
    r.attach(email, master, "box").unwrap();
    r
}

#[test]
fn input_goes_to_the_master_byte_for_byte() {
    let r = live("alice@x.com", 7);
    let order = handle_terminal_input(&r, "alice@x.com", "echo hi\n").unwrap();
    assert_eq!(order, WriteOrder { handle: 7, bytes: b"echo hi\n".to_vec() });
}

#[test]
fn input_gets_no_line_end_added() {
    let r = live("alice@x.com", 7);
    let order = handle_terminal_input(&r, "alice@x.com", "ls").unwrap();
    assert_eq!(order.bytes, b"ls".to_vec());
    let order = handle_terminal_input(&r, "alice@x.com", "").unwrap();
    assert_eq!(order.bytes, Vec::<u8>::new());
    let order = handle_terminal_input(&r, "alice@x.com", "\u{3}").unwrap();
    assert_eq!(order.bytes, vec![3u8]);
    let order = handle_terminal_input(&r, "alice@x.com", "é").unwrap();
    assert_eq!(order.bytes, vec![0xc3, 0xa9]);
}

#[test]
fn inputs_in_a_row_arrive_in_order() {
    let r = live("alice@x.com", 7);
    let mut stream: Vec<u8> = Vec::new();
    for piece in ["ec", "ho ", "h", "i\n"] {
        let order = handle_terminal_input(&r, "alice@x.com", piece).unwrap();
        assert_eq!(order.handle, 7);
        stream.extend_from_slice(&order.bytes);
    }
    assert_eq!(stream, b"echo hi\n".to_vec());
}

#[test]
fn input_without_session_is_not_found() {
    let r = Registry::new();
    let e = handle_terminal_input(&r, "alice@x.com", "x").unwrap_err();
    assert_eq!(
        e,
        GatewayError {
            kind: ErrorKind::SessionNotFound,
            message: "No terminal found for email: alice@x.com".to_string(),
        }
    );
}

#[test]
fn input_before_the_terminal_is_attached_is_not_found() {
    let mut r = Registry::new();
    r.register("alice@x.com", "c1");
    let e = handle_terminal_input(&r, "alice@x.com", "x").unwrap_err();
    assert_eq!(e.kind, ErrorKind::SessionNotFound);
}

#[test]
fn input_after_close_is_not_found() {
    let mut r = live("alice@x.com", 7);
    assert!(handle_terminal_input(&r, "alice@x.com", "x").is_ok());
    handle_close_terminal(&mut r, "alice@x.com");
    assert!(!r.contains("alice@x.com"));
    assert_eq!(r.master_of("alice@x.com"), None);
    assert_eq!(r.client_of("alice@x.com"), None);
    assert_eq!(r.container_of("alice@x.com"), None);
    assert_eq!(r.secondary_of("alice@x.com"), None);
    assert_eq!(r.email_of("c1"), None);
    let e = handle_terminal_input(&r, "alice@x.com", "x").unwrap_err();
    assert_eq!(e.kind, ErrorKind::SessionNotFound);
    assert!(e.message.contains("No terminal found"));
    let e = handle_terminal_resize(&r, "alice@x.com", 24, 80).unwrap_err();
    assert_eq!(e.kind, ErrorKind::SessionNotFound);
}

#[test]
fn session_not_found_names_the_user() {
    let e = session_not_found("bob@x.com");
    assert_eq!(e.kind, ErrorKind::SessionNotFound);
    assert_eq!(e.message, "No terminal found for email: bob@x.com");
}

#[test]
fn resize_carries_rows_and_columns() {
    let r = live("alice@x.com", 7);
    let order = handle_terminal_resize(&r, "alice@x.com", 40, 132).unwrap();
    assert_eq!(
        order,
        ResizeOrder {
            handle: 7,
            winsize: Winsize { ws_row: 40, ws_col: 132, ws_xpixel: 0, ws_ypixel: 0 },
        }
    );
}

#[test]
fn resize_accepts_the_extremes() {
    let r = live("alice@x.com", 7);
    let order = handle_terminal_resize(&r, "alice@x.com", 0, 0).unwrap();
    assert_eq!(order.winsize, Winsize { ws_row: 0, ws_col: 0, ws_xpixel: 0, ws_ypixel: 0 });
    let order = handle_terminal_resize(&r, "alice@x.com", 65535, 65535).unwrap();
    assert_eq!(
        order.winsize,
        Winsize { ws_row: 65535, ws_col: 65535, ws_xpixel: 0, ws_ypixel: 0 }
    );
}

#[test]
fn resize_without_session_is_not_found() {
    let r = Registry::new();
    let e = handle_terminal_resize(&r, "alice@x.com", 1, 1).unwrap_err();
    assert_eq!(e.kind, ErrorKind::SessionNotFound);
    assert_eq!(e.message, "No terminal found for email: alice@x.com");
}

#[test]
fn resize_outcome_zero_is_success() {
    assert_eq!(resize_outcome(0), Ok(()));
}

#[test]
fn resize_outcome_other_status_is_io_error() {
    let e = resize_outcome(-1).unwrap_err();
    assert_eq!(e.kind, ErrorKind::PtyIoError);
    assert_eq!(e.message, "Failed to resize terminal: errno -1");
    assert_eq!(resize_outcome(25).unwrap_err().message, "Failed to resize terminal: errno 25");
    assert_eq!(
        resize_outcome(i32::MIN).unwrap_err().message,
        "Failed to resize terminal: errno -2147483648"
    );
    assert_eq!(
        resize_outcome(i32::MAX).unwrap_err().message,
        "Failed to resize terminal: errno 2147483647"
    );
}

#[test]
fn write_and_flush_failures_are_io_errors() {
    let e = input_failed(&WriteFailure::Write("Broken pipe".to_string()));
    assert_eq!(e.kind, ErrorKind::PtyIoError);
    assert_eq!(e.message, "Error writing to terminal: Broken pipe");
    let e = input_failed(&WriteFailure::Flush("EIO".to_string()));
    assert_eq!(e.kind, ErrorKind::PtyIoError);
    assert_eq!(e.message, "Error flushing terminal: EIO");
}

#[test]
fn errors_are_shown_as_terminal_error() {
    let frame = terminal_error(&session_not_found("a@b"));
    assert_eq!(frame.event, OutEvent::TerminalError);
    assert_eq!(frame.text, "No terminal found for email: a@b");
}
