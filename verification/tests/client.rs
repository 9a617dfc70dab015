use cord::ipc::client::{
    handshake_message, ActivityPayload, IpcClient, OPCODE_CLOSE, OPCODE_FRAME, OPCODE_HANDSHAKE,
};
use cord::ipc::error::ClientError;
use cord::ipc::reader::{read_frame, FrameReader};
use cord::ipc::utils::{encode, frame_of};

/// A transport that only records what is written to it.
#[derive(Debug, Default, PartialEq)]
struct Pipe {
    written: Vec<u8>,
}

fn activity(text: &str) -> ActivityPayload {
    ActivityPayload::new(text.to_string())
}

/// Announces `text` over the client's pipe, which delivers every frame, and
/// returns the number of frames that were written.
fn announce(client: &mut IpcClient<Pipe>, text: &str) -> usize {
    match client.update(activity(text)).unwrap() {
        Some(announcement) => {
            let frame = announcement.frame().clone();
            client.transport_mut().unwrap().written.extend_from_slice(&frame);
            client.finish_update(announcement, true).unwrap();
            1
        }
        None => 0,
    }
}

#[test]
fn opcodes_of_the_protocol() {
    assert_eq!(OPCODE_HANDSHAKE, 0);
    assert_eq!(OPCODE_FRAME, 1);
    assert_eq!(OPCODE_CLOSE, 2);
}

#[test]
fn new_client_is_connected_and_has_announced_nothing() {
    let client = IpcClient::new(12345, Pipe::default());
    assert_eq!(client.client_id(), 12345);
    assert!(client.is_connected());
    assert_eq!(client.last_activity(), None);
    assert_eq!(client.transport(), Some(&Pipe::default()));
}

#[test]
fn handshake_payload_is_byte_exact() {
    assert_eq!(handshake_message(12345), "{\"v\": 1,\"client_id\":\"12345\"}");
    let client = IpcClient::new(12345, Pipe::default());
    let frame = client.handshake().unwrap();
    let payload = b"{\"v\": 1,\"client_id\":\"12345\"}";
    assert_eq!(&frame[..8], &encode(0, payload.len() as u32));
    assert_eq!(&frame[8..], &payload[..]);
    assert_eq!(frame.len(), 8 + 28);
}

#[test]
fn handshake_writes_the_identifier_in_base_ten() {
    assert_eq!(handshake_message(0), "{\"v\": 1,\"client_id\":\"0\"}");
    assert_eq!(
        handshake_message(u64::MAX),
        "{\"v\": 1,\"client_id\":\"18446744073709551615\"}"
    );
    let client = IpcClient::new(u64::MAX, Pipe::default());
    let frame = client.handshake().unwrap();
    assert_eq!(frame.len(), 8 + 43);
    assert_eq!(&frame[..8], &[0, 0, 0, 0, 43, 0, 0, 0]);
}

#[test]
fn write_frames_the_payload() {
    let client = IpcClient::new(1, Pipe::default());
    assert_eq!(client.write(1, Some(b"abc")).unwrap(), vec![1, 0, 0, 0, 3, 0, 0, 0, 97, 98, 99]);
    assert_eq!(client.write(7, None).unwrap(), vec![7, 0, 0, 0, 0, 0, 0, 0]);
    assert_eq!(client.write(1, Some(b"abc")).unwrap(), frame_of(1, Some(b"abc")).unwrap());
}

#[test]
fn update_sends_the_activity_in_a_frame() {
    let client = IpcClient::new(1, Pipe::default());
    let announcement = client.update(activity("{\"state\":\"x\"}")).unwrap().unwrap();
    assert_eq!(announcement.frame(), &frame_of(1, Some(b"{\"state\":\"x\"}")).unwrap());
    assert_eq!(announcement.activity(), &activity("{\"state\":\"x\"}"));
}

#[test]
fn update_of_text_outside_ascii_counts_bytes() {
    let client = IpcClient::new(1, Pipe::default());
    let announcement = client.update(activity("héllo")).unwrap().unwrap();
    assert_eq!(&announcement.frame()[..8], &[1, 0, 0, 0, 6, 0, 0, 0]);
    assert_eq!(&announcement.frame()[8..], "héllo".as_bytes());
}

#[test]
fn same_activity_twice_is_written_once() {
    let mut client = IpcClient::new(1, Pipe::default());
    assert_eq!(announce(&mut client, "A"), 1);
    assert_eq!(announce(&mut client, "A"), 0);
    assert_eq!(client.transport().unwrap().written, frame_of(1, Some(b"A")).unwrap());
    assert_eq!(client.last_activity(), Some(&activity("A")));
}

#[test]
fn different_activity_is_written() {
    let mut client = IpcClient::new(1, Pipe::default());
    assert_eq!(announce(&mut client, "A"), 1);
    assert_eq!(announce(&mut client, "B"), 1);
    let mut expected = frame_of(1, Some(b"A")).unwrap();
    expected.extend(frame_of(1, Some(b"B")).unwrap());
    assert_eq!(client.transport().unwrap().written, expected);
    assert_eq!(client.last_activity(), Some(&activity("B")));
}

#[test]
fn earlier_activity_is_written_again_after_another() {
    let mut client = IpcClient::new(1, Pipe::default());
    assert_eq!(announce(&mut client, "A"), 1);
    assert_eq!(announce(&mut client, "B"), 1);
    assert_eq!(announce(&mut client, "A"), 1);
    assert_eq!(announce(&mut client, "A"), 0);
    assert_eq!(client.last_activity(), Some(&activity("A")));
}

#[test]
fn activity_is_compared_by_value() {
    let mut client = IpcClient::new(1, Pipe::default());
    let first = String::from("same text");
    let second = ["same", " ", "text"].concat();
    assert_eq!(announce(&mut client, &first), 1);
    assert_eq!(announce(&mut client, &second), 0);
    assert!(activity(&first).same_as(&activity(&second)));
    assert!(!activity("a").same_as(&activity("b")));
}

#[test]
fn failed_write_leaves_the_last_activity_as_it_was() {
    let mut client = IpcClient::new(1, Pipe::default());
    assert_eq!(announce(&mut client, "A"), 1);
    let announcement = client.update(activity("B")).unwrap().unwrap();
    assert_eq!(client.finish_update(announcement, false), Err(ClientError::Transport));
    assert_eq!(client.last_activity(), Some(&activity("A")));
    assert!(client.is_connected());
    assert!(client.update(activity("B")).unwrap().is_some());
    assert!(client.update(activity("A")).unwrap().is_none());
}

#[test]
fn failed_first_write_leaves_nothing_announced() {
    let mut client = IpcClient::new(1, Pipe::default());
    let announcement = client.update(activity("A")).unwrap().unwrap();
    assert_eq!(client.finish_update(announcement, false), Err(ClientError::Transport));
    assert_eq!(client.last_activity(), None);
    assert_eq!(announce(&mut client, "A"), 1);
}

#[test]
fn clear_sends_a_frame_without_payload() {
    let mut client = IpcClient::new(1, Pipe::default());
    assert_eq!(client.clear().unwrap(), vec![1, 0, 0, 0, 0, 0, 0, 0]);
    assert_eq!(announce(&mut client, "A"), 1);
    assert_eq!(client.clear().unwrap(), vec![1, 0, 0, 0, 0, 0, 0, 0]);
    assert_eq!(client.last_activity(), Some(&activity("A")));
}

#[test]
fn close_hands_out_the_transport_with_the_close_frame() {
    let mut client = IpcClient::new(1, Pipe { written: vec![1, 2, 3] });
    let (pipe, frame) = client.close().unwrap();
    assert_eq!(pipe, Pipe { written: vec![1, 2, 3] });
    assert_eq!(frame, vec![2, 0, 0, 0, 0, 0, 0, 0]);
    assert!(!client.is_connected());
    assert_eq!(client.transport(), None);
    assert!(client.transport_mut().is_none());
}

#[test]
fn close_twice_sends_one_close_frame() {
    let mut client = IpcClient::new(1, Pipe::default());
    assert_eq!(announce(&mut client, "A"), 1);
    assert!(client.close().is_some());
    assert!(client.close().is_none());
    assert!(client.close().is_none());
    assert!(!client.is_connected());
    assert_eq!(client.client_id(), 1);
    assert_eq!(client.last_activity(), Some(&activity("A")));
}

#[test]
fn closed_client_refuses_every_operation() {
    let mut client = IpcClient::new(1, Pipe::default());
    client.close();
    assert_eq!(client.write(1, Some(b"x")), Err(ClientError::NotConnected));
    assert_eq!(client.write(1, None), Err(ClientError::NotConnected));
    assert_eq!(client.handshake(), Err(ClientError::NotConnected));
    assert_eq!(client.clear(), Err(ClientError::NotConnected));
    assert!(matches!(client.update(activity("A")), Err(ClientError::NotConnected)));
    assert!(matches!(client.read(), Err(ClientError::NotConnected)));
}

#[test]
fn closed_client_refuses_an_activity_that_it_announced_last() {
    let mut client = IpcClient::new(1, Pipe::default());
    assert_eq!(announce(&mut client, "A"), 1);
    client.close();
    assert!(matches!(client.update(activity("A")), Err(ClientError::NotConnected)));
}

#[test]
fn reader_wants_the_header_and_then_the_payload() {
    let client = IpcClient::new(1, Pipe::default());
    let mut reader = client.read().unwrap();
    assert_eq!(reader.wanted(), 8);
    assert_eq!(reader.accept(&encode(1, 5)), Ok(None));
    assert_eq!(reader.wanted(), 5);
    assert_eq!(reader.accept(b"hello"), Ok(Some(b"hello".to_vec())));
    assert_eq!(reader.wanted(), 8);
}

#[test]
fn reader_takes_a_frame_without_payload() {
    let mut reader = FrameReader::new();
    assert_eq!(reader.accept(&encode(1, 0)), Ok(None));
    assert_eq!(reader.wanted(), 0);
    assert_eq!(reader.accept(&[]), Ok(Some(Vec::new())));
    assert_eq!(reader.wanted(), 8);
}

#[test]
fn reader_refuses_a_short_header() {
    let mut reader = FrameReader::new();
    assert_eq!(reader.accept(&[1, 0, 0, 0, 5]), Err(ClientError::Transport));
    assert_eq!(reader.wanted(), 8);
    assert_eq!(reader.accept(&[]), Err(ClientError::Transport));
    assert_eq!(reader.accept(&[0; 9]), Err(ClientError::Transport));
}

#[test]
fn reader_refuses_a_payload_that_is_cut_short() {
    let mut reader = FrameReader::new();
    assert_eq!(reader.accept(&encode(1, 100)), Ok(None));
    assert_eq!(reader.wanted(), 100);
    assert_eq!(reader.accept(&[7; 50]), Err(ClientError::Transport));
    assert_eq!(reader.wanted(), 100);
    assert_eq!(reader.accept(&[7; 100]), Ok(Some(vec![7; 100])));
}

#[test]
fn read_fails_on_a_payload_that_is_cut_short() {
    let mut stream = encode(1, 100).to_vec();
    stream.extend_from_slice(&[7; 50]);
    assert_eq!(read_frame(&stream), Err(ClientError::Transport));
    stream.extend_from_slice(&[7; 49]);
    assert_eq!(read_frame(&stream), Err(ClientError::Transport));
    stream.push(7);
    assert_eq!(read_frame(&stream), Ok(vec![7; 100]));
}

#[test]
fn read_fails_on_a_header_that_is_cut_short() {
    assert_eq!(read_frame(&[]), Err(ClientError::Transport));
    assert_eq!(read_frame(&[1, 0, 0, 0, 0, 0, 0]), Err(ClientError::Transport));
}

#[test]
fn read_returns_what_was_written() {
    let frame = frame_of(1, Some(b"{\"cmd\":\"DISPATCH\"}")).unwrap();
    assert_eq!(read_frame(&frame), Ok(b"{\"cmd\":\"DISPATCH\"}".to_vec()));
    assert_eq!(read_frame(&frame_of(1, None).unwrap()), Ok(Vec::new()));
}

#[test]
fn read_takes_one_frame_and_leaves_what_follows() {
    let mut stream = frame_of(1, Some(b"first")).unwrap();
    stream.extend(frame_of(1, Some(b"second")).unwrap());
    assert_eq!(read_frame(&stream), Ok(b"first".to_vec()));
}

#[test]
fn every_cut_of_a_frame_fails_to_read() {
    let frame = frame_of(1, Some(b"payload")).unwrap();
    for kept in 0..frame.len() {
        assert_eq!(read_frame(&frame[..kept]), Err(ClientError::Transport));
    }
    assert_eq!(read_frame(&frame), Ok(b"payload".to_vec()));
}
