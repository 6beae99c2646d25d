use std::sync::{mpsc, Arc, Mutex};
use std::time::Duration;

use e_chess::bluetooth::{
    chunks, decode_chunked, decode_guarded, frame_payload, terminated, BluetoothError, Frame,
    MAX_MULTI_FRAME_LEN, PROTOCOL_VERSION,
};
use e_chess::bridge::{
    await_step, stream_step, AwaitStep, BridgeHandler, BridgeRequest, BridgeResponse,
    ChannelTransport, RecvOutcome, RequestMethod, StreamStep, Transport,
};
use e_chess::requester::ErrorMessage;

#[test]
fn frames_are_cut_at_delimiters() {
    let mut buffer = b"ab".to_vec();
    let frames = decode_chunked(b"c\nde\rf", &mut buffer);
    assert_eq!(frames, vec![b"abc\n".to_vec(), b"de\r".to_vec()]);
    assert_eq!(buffer, b"f".to_vec());
}

#[test]
fn frames_do_not_depend_on_chunking() {
    let stream = b"{\"a\":1}\n{\"b\":2}\r\nrest";
    let mut whole = Vec::new();
    let all = decode_chunked(stream, &mut whole);
    for cut in 0..stream.len() {
        let mut buffer = Vec::new();
        let mut frames = decode_chunked(&stream[..cut], &mut buffer);
        frames.extend(decode_chunked(&stream[cut..], &mut buffer));
        assert_eq!(frames, all);
        assert_eq!(buffer, whole);
    }
}

#[test]
fn oversized_input_is_dropped() {
    let mut buffer = vec![b'x'; MAX_MULTI_FRAME_LEN];
    let frames = decode_guarded(b"y\n", &mut buffer);
    assert_eq!(frames, vec![b"y\n".to_vec()]);
    assert!(buffer.is_empty());
    let big = vec![b'z'; MAX_MULTI_FRAME_LEN + 1];
    let mut buffer = b"abc".to_vec();
    assert!(decode_guarded(&big, &mut buffer).is_empty());
    assert!(buffer.is_empty());
}

#[test]
fn notifications_are_cut_into_chunks() {
    let data: Vec<u8> = (0u8..45).collect();
    let parts = chunks(&data, 20);
    assert_eq!(parts.len(), 3);
    assert_eq!(parts[0], (0u8..20).collect::<Vec<u8>>());
    assert_eq!(parts[2], (40u8..45).collect::<Vec<u8>>());
    assert!(chunks(&[], 20).is_empty());
}

#[test]
fn frame_bytes() {
    let frame = Frame::new(7u32);
    assert_eq!(frame.v, PROTOCOL_VERSION);
    assert_eq!(frame.msg, 7);
    assert_eq!(terminated(b"{}".to_vec()), b"{}\n".to_vec());
    assert_eq!(frame_payload(b"{\"v\":1}\r\n"), b"{\"v\":1}".to_vec());
    assert_eq!(frame_payload(b"abc"), b"abc".to_vec());
}

#[test]
fn error_messages() {
    assert_eq!(BluetoothError::Transport("x".to_string()).message(), "transport error: x");
    assert_eq!(BluetoothError::Timeout.message(), "timeout waiting for response");
    assert_eq!(BluetoothError::Protocol("y".to_string()).message(), "protocol error: y");
}

#[test]
fn waiting_for_a_response() {
    let r = await_step(3, RecvOutcome::Message(BridgeResponse::Response { id: 3, body: "ok".to_string() }));
    assert!(matches!(r, AwaitStep::Done(Ok(ref b)) if b == "ok"));
    let r = await_step(3, RecvOutcome::Message(BridgeResponse::Response { id: 4, body: "no".to_string() }));
    assert!(matches!(r, AwaitStep::Wait));
    let r = await_step(3, RecvOutcome::Message(BridgeResponse::StreamClosed { id: 3 }));
    assert!(matches!(r, AwaitStep::Done(Ok(ref b)) if b.is_empty()));
    let r = await_step(3, RecvOutcome::Message(BridgeResponse::StreamData { id: 3, chunk: "c".to_string() }));
    assert!(matches!(r, AwaitStep::Wait));
    assert!(matches!(await_step(3, RecvOutcome::Timeout), AwaitStep::Done(Err(BluetoothError::Timeout))));
    let r = await_step(3, RecvOutcome::Disconnected);
    assert!(matches!(r, AwaitStep::Done(Err(BluetoothError::Transport(ref m))) if m == "channel disconnected"));
}

#[test]
fn handling_a_stream() {
    let r = stream_step(5, Some(BridgeResponse::StreamData { id: 5, chunk: "c".to_string() }));
    assert!(matches!(r, StreamStep::Data(ref c) if c == "c"));
    assert!(matches!(stream_step(5, Some(BridgeResponse::StreamData { id: 6, chunk: "c".to_string() })), StreamStep::Skip));
    assert!(matches!(stream_step(5, Some(BridgeResponse::StreamClosed { id: 5 })), StreamStep::Stop));
    assert!(matches!(stream_step(5, Some(BridgeResponse::Response { id: 5, body: String::new() })), StreamStep::Skip));
    assert!(matches!(stream_step(5, None), StreamStep::Stop));
}

#[test]
fn channel_transport_passes_messages() {
    let (to_phone, from_board) = mpsc::channel();
    let (to_board, from_phone) = mpsc::channel();
    let transport = ChannelTransport::new(to_phone, from_phone);
    transport.send(BridgeRequest::request(1, RequestMethod::Get, "u", None)).unwrap();
    match from_board.recv().unwrap() {
        BridgeRequest::Request { id, method, url, body } => {
            assert_eq!(id, 1);
            assert_eq!(method, RequestMethod::Get);
            assert_eq!(url, "u");
            assert_eq!(body, None);
        }
        other => panic!("unexpected {:?}", other),
    }
    to_board.send(BridgeResponse::StreamClosed { id: 9 }).unwrap();
    assert!(matches!(transport.recv(), Ok(BridgeResponse::StreamClosed { id: 9 })));
    drop(to_board);
    assert!(matches!(transport.recv(), Err(BluetoothError::Transport(ref m)) if m == "ble link closed"));
}

#[test]
fn bridge_handler_numbers_and_routes_requests() {
    let connected = Arc::new(Mutex::new(false));
    let (handler, to_phone, from_phone) = BridgeHandler::new(Duration::from_secs(3), connected.clone());
    assert_eq!(handler.request_timeout(), Duration::from_secs(3));
    assert!(!handler.is_connected());
    *connected.lock().unwrap() = true;
    assert!(handler.is_connected());
    let id = handler.next_id();
    assert_eq!(id, 1);
    handler.send_request(id, RequestMethod::Post, "https://x", Some("b")).unwrap();
    match to_phone.recv().unwrap() {
        BridgeRequest::Request { id, method, body, .. } => {
            assert_eq!(id, 1);
            assert_eq!(method, RequestMethod::Post);
            assert_eq!(body, Some("b".to_string()));
        }
        other => panic!("unexpected {:?}", other),
    }
    assert_eq!(handler.next_id(), 2);
    let rx = handler.open_channel(7);
    from_phone.send(BridgeResponse::Response { id: 7, body: "answer".to_string() }).unwrap();
    from_phone.send(BridgeResponse::Response { id: 8, body: "lost".to_string() }).unwrap();
    assert!(handler.dispatch_one());
    assert!(handler.dispatch_one());
    assert!(matches!(rx.try_recv(), Ok(BridgeResponse::Response { id: 7, ref body }) if body == "answer"));
    assert!(rx.try_recv().is_err());
    handler.close_channel(7);
    drop(from_phone);
    assert!(!handler.dispatch_one());
}

#[test]
fn stream_chunks_become_lines() {
    let (tx, rx) = mpsc::channel();
    let mut buffer = String::new();
    let first = BridgeHandler::push_chunk(&tx, &mut buffer, "{\"a\":1}\n{\"b\"");
    assert_eq!(first, vec!["{\"a\":1}".to_string()]);
    let second = BridgeHandler::push_chunk(&tx, &mut buffer, ":2}\n\n");
    assert_eq!(second, vec!["{\"b\":2}".to_string()]);
    assert_eq!(rx.try_recv().unwrap(), "{\"a\":1}");
    assert_eq!(rx.try_recv().unwrap(), "{\"b\":2}");
    assert!(rx.try_recv().is_err());
    assert!(buffer.is_empty());
}

#[test]
fn answers_are_routed_by_their_request() {
    let (tx, rx) = mpsc::channel();
    let mut channels = std::collections::HashMap::new();
    channels.insert(7u32, tx);
    e_chess::bridge::route(&channels, 7).unwrap().send(BridgeResponse::StreamClosed { id: 7 }).unwrap();
    assert!(matches!(rx.try_recv(), Ok(BridgeResponse::StreamClosed { id: 7 })));
    assert!(e_chess::bridge::route(&channels, 8).is_none());
}
