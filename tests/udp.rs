use socket_programming::udp_client::{
    on_datagram_error, on_input_error, on_line, on_reply, on_reply_decoded, ClientState,
};
use socket_programming::udp_server::{on_datagram, on_datagram_decoded};
use socket_programming::{fresh_buffer, Failure, BUFFER_LEN};

fn filled(payload: &[u8]) -> Vec<u8> {
    let mut buffer = fresh_buffer();
    buffer[..payload.len()].copy_from_slice(payload);
    buffer
}

#[test]
fn hello_scenario() {
    let buffer = filled(b"hello\n");
    let (text, reply) = on_datagram(&buffer, 6, "127.0.0.1:50000").unwrap();
    assert_eq!(text, "hello\n");
    assert_eq!(reply.to, "127.0.0.1:50000");
    assert_eq!(&reply.bytes[..6], b"hello\n");
}

#[test]
fn reply_is_the_whole_buffer() {
    let mut buffer = fresh_buffer();
    buffer[100] = 0x7a;
    buffer[..2].copy_from_slice(b"hi");
    let (text, reply) = on_datagram(&buffer, 2, 1u8).unwrap();
    assert_eq!(text, "hi");
    assert_eq!(reply.bytes.len(), BUFFER_LEN);
    assert_eq!(reply.bytes, buffer);
}

#[test]
fn non_text_datagram_ends_the_server() {
    let buffer = filled(&[0xc3, 0x28]);
    assert!(matches!(on_datagram(&buffer, 2, 0u8), Err(Failure::Decode)));
}

#[test]
fn empty_datagram_is_answered() {
    let buffer = fresh_buffer();
    let (text, reply) = on_datagram(&buffer, 0, 9u16).unwrap();
    assert_eq!(text, "");
    assert_eq!(reply.to, 9);
    assert_eq!(reply.bytes.len(), BUFFER_LEN);
}

#[test]
fn decoded_datagram_follows_the_given_text() {
    let buffer = filled(b"ok");
    let (text, reply) = on_datagram_decoded(&buffer, 2, 'a', Some("ok".to_string())).unwrap();
    assert_eq!(text, "ok");
    assert_eq!(reply.to, 'a');
    assert_eq!(reply.bytes, buffer);
    assert!(matches!(on_datagram_decoded(&buffer, 2, 'a', None), Err(Failure::Decode)));
}

#[test]
fn interleaved_senders_get_their_own_answers() {
    let from_a = filled(b"from a");
    let from_b = filled(b"from b");
    let (_, r1) = on_datagram(&from_a, 6, "a:1").unwrap();
    let (_, r2) = on_datagram(&from_b, 6, "b:2").unwrap();
    let (_, r3) = on_datagram(&from_a, 6, "a:1").unwrap();
    assert_eq!((r1.to, &r1.bytes[..6]), ("a:1", &b"from a"[..]));
    assert_eq!((r2.to, &r2.bytes[..6]), ("b:2", &b"from b"[..]));
    assert_eq!((r3.to, &r3.bytes[..6]), ("a:1", &b"from a"[..]));
}

#[test]
fn client_sends_each_line_and_shows_the_answer() {
    let (state, sent) = on_line(ClientState::AwaitingLine, b"hello\n");
    assert_eq!(state, ClientState::AwaitingReply);
    assert_eq!(sent, Some(b"hello\n".to_vec()));
    let answer = filled(b"hello\n");
    let (state, shown) = on_reply(state, &answer);
    assert_eq!(state, ClientState::AwaitingLine);
    let shown = shown.unwrap();
    assert_eq!(shown.len(), BUFFER_LEN);
    assert!(shown.starts_with("hello\n"));
}

#[test]
fn client_stops_at_end_of_input() {
    let (state, sent) = on_line(ClientState::AwaitingLine, b"");
    assert_eq!(state, ClientState::Stopped(Failure::Input));
    assert_eq!(sent, None);
}

#[test]
fn client_stops_on_non_text_answer() {
    let answer = filled(&[0xff]);
    let (state, shown) = on_reply(ClientState::AwaitingReply, &answer);
    assert_eq!(state, ClientState::Stopped(Failure::Decode));
    assert_eq!(shown, None);
    let (state, shown) = on_reply_decoded(ClientState::AwaitingReply, None);
    assert_eq!(state, ClientState::Stopped(Failure::Decode));
    assert_eq!(shown, None);
}

#[test]
fn client_ignores_events_out_of_turn() {
    let (state, sent) = on_line(ClientState::AwaitingReply, b"x\n");
    assert_eq!(state, ClientState::AwaitingReply);
    assert_eq!(sent, None);
    let (state, shown) = on_reply(ClientState::AwaitingLine, &fresh_buffer());
    assert_eq!(state, ClientState::AwaitingLine);
    assert_eq!(shown, None);
}

#[test]
fn client_failures() {
    assert_eq!(on_input_error(ClientState::AwaitingLine), ClientState::Stopped(Failure::Input));
    assert_eq!(
        on_datagram_error(ClientState::AwaitingReply),
        ClientState::Stopped(Failure::DatagramIo)
    );
    let stopped = ClientState::Stopped(Failure::Decode);
    assert_eq!(on_input_error(stopped), stopped);
    assert_eq!(on_datagram_error(stopped), stopped);
}
