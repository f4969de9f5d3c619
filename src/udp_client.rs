//! UDP client: sends each line of input to the server and shows the answer.
use vstd::prelude::*;
use vstd::slice::slice_to_vec;
use vstd::utf8::{decode_utf8, valid_utf8};

use crate::text::utf8_text;
use crate::Failure;

verus! {

/// Where the client stands. `Stopped` is terminal.
#[derive(Clone, Copy, Debug, PartialEq, Eq, Structural)]
pub enum ClientState {
    /// Waiting for the next line of input.
    AwaitingLine,
    /// A line was sent; waiting for the answer.
    AwaitingReply,
    /// The client has ended, with this failure.
    Stopped(Failure),
}

/// The client's move on a line read from its input, `line` holding the
/// bytes read (none at the end of the input): in the state that waits for a
/// line, the line is sent as it is, and the end of the input stops the
/// client. In any other state nothing is sent and the state stays.
pub fn on_line(state: ClientState, line: &[u8]) -> (r: (ClientState, Option<Vec<u8>>))
    ensures
        state == ClientState::AwaitingLine && line@.len() > 0 ==> r.0 == ClientState::AwaitingReply
            && (r.1 matches Some(b) && b@ == line@),
        state == ClientState::AwaitingLine && line@.len() == 0 ==> r.0 == ClientState::Stopped(
            Failure::Input,
        ) && r.1 is None,
        state != ClientState::AwaitingLine ==> r.0 == state && r.1 is None,
{
    if state != ClientState::AwaitingLine {
        (state, None)
    } else if line.len() == 0 {
        (ClientState::Stopped(Failure::Input), None)
    } else {
        (ClientState::AwaitingReply, Some(slice_to_vec(line)))
    }
}

/// The client's move on an answer, where `text` is what decoding the whole
/// receive buffer as UTF-8 gave: in the state that waits for an answer, the
/// text is shown and the client waits for the next line, or the client
/// stops when the answer is not text. In any other state nothing is shown.
pub fn on_reply_decoded(state: ClientState, text: Option<String>) -> (r: (ClientState, Option<String>))
    ensures
        state == ClientState::AwaitingReply && text is Some ==> r.0 == ClientState::AwaitingLine
            && r.1 == text,
        state == ClientState::AwaitingReply && text is None ==> r.0 == ClientState::Stopped(
            Failure::Decode,
        ) && r.1 is None,
        state != ClientState::AwaitingReply ==> r.0 == state && r.1 is None,
{
    if state != ClientState::AwaitingReply {
        return (state, None);
    }
    match text {
        Some(t) => (ClientState::AwaitingLine, Some(t)),
        None => (ClientState::Stopped(Failure::Decode), None),
    }
}

/// The client's move on an answer received into `buffer`. The whole buffer
/// is shown, however many bytes the answer filled.
pub fn on_reply(state: ClientState, buffer: &[u8]) -> (r: (ClientState, Option<String>))
    ensures
        state == ClientState::AwaitingReply && valid_utf8(buffer@) ==> r.0
            == ClientState::AwaitingLine && (r.1 matches Some(t) && t@ == decode_utf8(buffer@)),
        state == ClientState::AwaitingReply && !valid_utf8(buffer@) ==> r.0 == ClientState::Stopped(
            Failure::Decode,
        ) && r.1 is None,
        state != ClientState::AwaitingReply ==> r.0 == state && r.1 is None,
{
    if state != ClientState::AwaitingReply {
        return (state, None);
    }
    on_reply_decoded(state, utf8_text(buffer))
}

/// The client's next state when reading its input fails.
pub fn on_input_error(state: ClientState) -> (r: ClientState)
    ensures
        state is Stopped ==> r == state,
        !(state is Stopped) ==> r == ClientState::Stopped(Failure::Input),
{
    match state {
        ClientState::Stopped(_) => state,
        _ => ClientState::Stopped(Failure::Input),
    }
}

/// The client's next state when sending or receiving a datagram fails.
pub fn on_datagram_error(state: ClientState) -> (r: ClientState)
    ensures
        state is Stopped ==> r == state,
        !(state is Stopped) ==> r == ClientState::Stopped(Failure::DatagramIo),
{
    match state {
        ClientState::Stopped(_) => state,
        _ => ClientState::Stopped(Failure::DatagramIo),
    }
}

} // verus!
