use lcsm_slave::log::LogEvent;
use lcsm_slave::terminal::{terminal_input_step, terminal_output_step, TerminalAction, TerminalInput};

#[test]
fn terminal_forwards_output_whole() {
    match terminal_output_step(LogEvent::Chunk(b"line1\n".to_vec())) {
        TerminalAction::Forward(bytes) => assert_eq!(bytes, b"line1\n"),
        _ => panic!("output is forwarded"),
    }
}

#[test]
fn terminal_skips_lag_and_closes_with_the_stream() {
    assert!(matches!(terminal_output_step(LogEvent::Lagged(3)), TerminalAction::Skip));
    assert!(matches!(terminal_output_step(LogEvent::Closed), TerminalAction::Close));
}

#[test]
fn terminal_input_goes_to_stdin_verbatim() {
    match terminal_input_step::<String>(Some(Ok(b"ping\n".to_vec()))) {
        TerminalInput::Send(bytes) => assert_eq!(bytes, b"ping\n"),
        _ => panic!("a message is sent on"),
    }
    assert!(matches!(terminal_input_step::<String>(None), TerminalInput::Stop));
    match terminal_input_step(Some(Err("reset".to_string()))) {
        TerminalInput::Fail(e) => assert_eq!(e, "reset"),
        _ => panic!("a failed connection fails"),
    }
}
