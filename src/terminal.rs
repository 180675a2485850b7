//! Decisions of a terminal session: what reaches the client of the child's
//! output, and what ends the session.
use crate::log::LogEvent;
use vstd::prelude::*;

verus! {

/// What the terminal's output side does with one receive.
pub enum TerminalAction {
    /// Send these bytes to the client as one binary frame.
    Forward(Vec<u8>),
    /// The terminal fell behind; receive again.
    Skip,
    /// The stream closed: the output side ends.
    Close,
}

/// The decision on one receive from the child's stdout or stderr: output is
/// forwarded whole, a lag is passed over (the client can read what it
/// missed from the log), and a closed stream ends the terminal's output.
pub fn terminal_output_step(event: LogEvent) -> (r: TerminalAction)
    ensures
        match event {
            LogEvent::Chunk(c) => r matches TerminalAction::Forward(f) && f@ == c@,
            LogEvent::Lagged(_) => r is Skip,
            LogEvent::Closed => r is Close,
        },
{
    match event {
        LogEvent::Chunk(c) => TerminalAction::Forward(c),
        LogEvent::Lagged(_) => TerminalAction::Skip,
        LogEvent::Closed => TerminalAction::Close,
    }
}

/// What the terminal's input side does with one message from the client.
pub enum TerminalInput<E> {
    /// Queue these bytes for the child's stdin.
    Send(Vec<u8>),
    /// The client closed the connection: the input side ends.
    Stop,
    /// The connection failed: the input side ends with this error.
    Fail(E),
}

/// The decision on one message from the client: its payload goes to the
/// child's stdin verbatim; the end of the connection stops, an error fails.
pub fn terminal_input_step<E>(message: Option<Result<Vec<u8>, E>>) -> (r: TerminalInput<E>)
    ensures
        match message {
            Some(Ok(data)) => r matches TerminalInput::Send(d) && d@ == data@,
            Some(Err(e)) => r == TerminalInput::<E>::Fail(e),
            None => r is Stop,
        },
{
    match message {
        Some(Ok(data)) => TerminalInput::Send(data),
        Some(Err(e)) => TerminalInput::Fail(e),
        None => TerminalInput::Stop,
    }
}

} // verus!
