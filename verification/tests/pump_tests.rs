use ws_ide::events::OutEvent;
use ws_ide::pump::{
    decode_chunk, hex_escape, Chunk, OutputPump, PumpEnd, PumpOutput, READ_BUFFER_SIZE,
};

fn data(out: PumpOutput) -> String {
    match out {
        PumpOutput::Frame(e) => {
            assert_eq!(e.event, OutEvent::TerminalData);
            e.text
        }
        other => panic!("no data frame: {:?}", other),
    }
}

#[test]
fn decode_whole_text() {
    assert_eq!(
        decode_chunk(b"hello"),
        Chunk::Text { text: "hello".to_string(), rest: vec![] }
    );
    assert_eq!(
        decode_chunk("a€b".as_bytes()),
        Chunk::Text { text: "a€b".to_string(), rest: vec![] }
    );
}

#[test]
fn decode_keeps_split_character_for_later() {
    assert_eq!(
        decode_chunk(&[0x61, 0xe2, 0x82]),
        Chunk::Text { text: "a".to_string(), rest: vec![0xe2, 0x82] }
    );
    assert_eq!(
        decode_chunk(&[0x61, 0x62, 0xf0, 0x9f, 0x98]),
        Chunk::Text { text: "ab".to_string(), rest: vec![0xf0, 0x9f, 0x98] }
    );
}

#[test]
fn decode_empty_buffer_is_empty_text() {
    assert_eq!(decode_chunk(&[]), Chunk::Text { text: String::new(), rest: vec![] });
}

#[test]
fn decode_without_valid_prefix_is_hex() {
    assert_eq!(decode_chunk(&[0xff, 0x61]), Chunk::Binary { hex: "\\xff\\x61".to_string() });
    assert_eq!(decode_chunk(&[0xe2]), Chunk::Binary { hex: "\\xe2".to_string() });
}

#[test]
fn hex_escape_is_lower_case_two_digits() {
    assert_eq!(hex_escape(&[0x00, 0x0a, 0xab, 0xff]), "\\x00\\x0a\\xab\\xff");
    assert_eq!(hex_escape(&[]), "");
}

#[test]
fn buffer_size_is_four_kibibytes() {
    assert_eq!(READ_BUFFER_SIZE, 4096);
}

#[test]
fn pump_sends_text_as_terminal_data() {
    let mut pump = OutputPump::new();
    assert!(pump.is_running());
    assert_eq!(data(pump.on_bytes(b"hi\r\n")), "hi\r\n");
}

#[test]
fn pump_joins_a_character_split_across_reads() {
    let whole = "a€b😀c".as_bytes().to_vec();
    for cut in 1..whole.len() {
        let mut pump = OutputPump::new();
        let mut sent = String::new();
        for part in [&whole[..cut], &whole[cut..]] {
            match pump.on_bytes(part) {
                PumpOutput::Frame(e) => sent.push_str(&e.text),
                PumpOutput::Idle => {}
                PumpOutput::Undecodable(_) => {}
                other => panic!("unexpected: {:?}", other),
            }
        }
        let first_is_only_a_fragment = std::str::from_utf8(&whole[..cut]).is_err()
            && std::str::from_utf8(&whole[..cut]).unwrap_err().valid_up_to() == 0;
        if !first_is_only_a_fragment {
            assert_eq!(sent, "a€b😀c", "cut at {}", cut);
        }
    }
}

#[test]
fn pump_three_way_split_of_one_character() {
    let mut pump = OutputPump::new();
    assert_eq!(data(pump.on_bytes(&[0x61, 0xe2])), "a");
    assert_eq!(pump.on_bytes(&[]), PumpOutput::Undecodable("\\xe2".to_string()));
    let mut pump = OutputPump::new();
    assert_eq!(data(pump.on_bytes(&[0x78, 0xe2, 0x82])), "x");
    assert_eq!(data(pump.on_bytes(&[0xac, 0x79])), "€y");
}

#[test]
fn pump_fragment_alone_is_reported_as_bytes() {
    let mut pump = OutputPump::new();
    assert_eq!(pump.on_bytes(&[0xe2]), PumpOutput::Undecodable("\\xe2".to_string()));
    assert_eq!(pump.on_bytes(&[0x82, 0xac]), PumpOutput::Undecodable("\\x82\\xac".to_string()));
    assert_eq!(data(pump.on_bytes(b"ok")), "ok");
}

#[test]
fn pump_empty_read_is_idle() {
    let mut pump = OutputPump::new();
    assert_eq!(pump.on_bytes(&[]), PumpOutput::Idle);
}

#[test]
fn pump_ends_at_the_end_of_output() {
    let mut pump = OutputPump::new();
    assert_eq!(pump.on_eof(), PumpOutput::End(PumpEnd::Eof));
    assert!(!pump.is_running());
    assert_eq!(pump.on_bytes(b"x"), PumpOutput::Stopped);
    assert_eq!(pump.on_eof(), PumpOutput::Stopped);
}

#[test]
fn pump_ends_at_a_read_error() {
    let mut pump = OutputPump::new();
    assert_eq!(
        pump.on_error("Input/output error"),
        PumpOutput::End(PumpEnd::Failed("Input/output error".to_string()))
    );
    assert!(!pump.is_running());
    assert_eq!(pump.on_error("again"), PumpOutput::Stopped);
    assert_eq!(pump.on_bytes(b"late"), PumpOutput::Stopped);
}

#[test]
fn stopped_pump_sends_nothing() {
    let mut pump = OutputPump::new();
    pump.stop();
    assert!(!pump.is_running());
    assert_eq!(pump.on_bytes(b"late"), PumpOutput::Stopped);
    assert_eq!(pump.on_eof(), PumpOutput::Stopped);
    assert_eq!(pump.on_error("late"), PumpOutput::Stopped);
}
