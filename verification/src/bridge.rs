//! The HTTP bridge over BLE: the board sends requests, the phone performs them and sends
//! back responses or streamed chunks. This module holds the messages, the channel
//! transport and the decisions taken on each incoming message.
use vstd::prelude::*;
use std::collections::HashMap;
use std::sync::atomic::AtomicU32;
use std::sync::mpsc::{Receiver, Sender};
use std::sync::{Arc, Mutex};
use std::time::Duration;
use crate::bluetooth::BluetoothError;
use crate::sync::{
    channel, guarded_flag, guarded_insert, guarded_map, guarded_recv, guarded_remove, lock, mutex,
    send,
};
use crate::text::complete_lines;

verus! {

broadcast use vstd::std_specs::hash::group_hash_axioms;

/// The kind of a bridged request.
#[derive(Debug, Clone, Copy, PartialEq, Eq, Structural)]
pub enum RequestMethod {
    Get,
    Post,
    Stream,
}

/// A message from the board to the phone.
#[derive(Debug, Clone)]
pub enum BridgeRequest {
    Request { id: u32, method: RequestMethod, url: String, body: Option<String> },
    Cancel { id: u32 },
}

/// A message from the phone to the board.
#[derive(Debug, Clone)]
pub enum BridgeResponse {
    Response { id: u32, body: String },
    StreamData { id: u32, chunk: String },
    StreamClosed { id: u32 },
}

/// The messages from the board to the phone, by their older name.
pub type BoardToPhone = BridgeRequest;

/// The messages from the phone to the board, by their older name.
pub type PhoneToBoard = BridgeResponse;

/// The request a response belongs to.
pub open spec fn response_id(r: BridgeResponse) -> u32 {
    match r {
        BridgeResponse::Response { id, .. } => id,
        BridgeResponse::StreamData { id, .. } => id,
        BridgeResponse::StreamClosed { id } => id,
    }
}

impl BridgeResponse {
    /// The request the response belongs to (the dispatcher routes by it).
    pub fn id(&self) -> (r: u32)
        ensures
            r == response_id(*self),
    {
        match self {
            BridgeResponse::Response { id, .. } => *id,
            BridgeResponse::StreamData { id, .. } => *id,
            BridgeResponse::StreamClosed { id } => *id,
        }
    }
}

/// A transport of bridge messages.
pub trait Transport {
    fn send(&self, msg: BridgeRequest) -> Result<(), BluetoothError>;

    fn recv(&self) -> Result<BridgeResponse, BluetoothError>;
}

/// A transport over channels: requests go into `from_board`, responses come from
/// `to_board`.
pub struct ChannelTransport {
    from_board: Sender<BridgeRequest>,
    to_board: Arc<Mutex<Receiver<BridgeResponse>>>,
}

impl ChannelTransport {
    /// The channel into which the transport sends the board's requests.
    pub closed spec fn requests(&self) -> Sender<BridgeRequest> {
        self.from_board
    }

    /// A transport that sends into `from_board` and receives from `to_board`.
    pub fn new(from_board: Sender<BridgeRequest>, to_board: Receiver<BridgeResponse>) -> (r: Self)
        ensures
            r.requests() == from_board,
    {
        ChannelTransport { from_board, to_board: Arc::new(mutex(to_board)) }
    }
}

impl Transport for ChannelTransport {
    /// A failed send is a transport error with the channel's message.
    fn send(&self, msg: BridgeRequest) -> (r: Result<(), BluetoothError>)
        ensures
            r is Ok || r matches Err(BluetoothError::Transport(_)),
    {
        match send(&self.from_board, msg) {
            Ok(()) => Ok(()),
            Err(e) => Err(BluetoothError::Transport(e)),
        }
    }

    /// A closed link is a transport error "ble link closed".
    fn recv(&self) -> (r: Result<BridgeResponse, BluetoothError>)
        ensures
            r is Ok || (r matches Err(BluetoothError::Transport(s)) && s@ == "ble link closed"@),
    {
        let guard = lock(&*self.to_board);
        match guarded_recv(&guard) {
            Some(msg) => Ok(msg),
            None => Err(BluetoothError::Transport("ble link closed".to_string())),
        }
    }
}

/// What waiting for a message gave.
pub enum RecvOutcome {
    Message(BridgeResponse),
    Timeout,
    Disconnected,
}

/// What to do after one wait for the response to a request.
pub enum AwaitStep {
    /// The request is over with this result.
    Done(Result<String, BluetoothError>),
    /// The message was for something else; wait again.
    Wait,
}

/// Waiting for request `id`: its response gives its body, its stream closing gives an
/// empty body, a timeout or a closed channel gives an error, other messages are skipped.
pub fn await_step(id: u32, outcome: RecvOutcome) -> (r: AwaitStep)
    ensures
        match outcome {
            RecvOutcome::Message(BridgeResponse::Response { id: rid, body }) => if rid == id {
                r matches AwaitStep::Done(Ok(b)) && b == body
            } else {
                r is Wait
            },
            RecvOutcome::Message(BridgeResponse::StreamClosed { id: rid }) => if rid == id {
                r matches AwaitStep::Done(Ok(b)) && b@.len() == 0
            } else {
                r is Wait
            },
            RecvOutcome::Message(BridgeResponse::StreamData { .. }) => r is Wait,
            RecvOutcome::Timeout => r matches AwaitStep::Done(Err(BluetoothError::Timeout)),
            RecvOutcome::Disconnected => r matches AwaitStep::Done(
                Err(BluetoothError::Transport(s)),
            ) && s@ == "channel disconnected"@,
        },
{
    match outcome {
        RecvOutcome::Message(BridgeResponse::Response { id: rid, body }) => {
            if rid == id {
                AwaitStep::Done(Ok(body))
            } else {
                AwaitStep::Wait
            }
        },
        RecvOutcome::Message(BridgeResponse::StreamClosed { id: rid }) => {
            if rid == id {
                AwaitStep::Done(Ok(String::new()))
            } else {
                AwaitStep::Wait
            }
        },
        RecvOutcome::Message(BridgeResponse::StreamData { .. }) => AwaitStep::Wait,
        RecvOutcome::Timeout => AwaitStep::Done(Err(BluetoothError::Timeout)),
        RecvOutcome::Disconnected => AwaitStep::Done(
            Err(BluetoothError::Transport("channel disconnected".to_string())),
        ),
    }
}

/// What a stream handler does with one message.
pub enum StreamStep {
    /// A chunk of the stream.
    Data(String),
    /// The stream is over.
    Stop,
    /// The message was for something else.
    Skip,
}

/// Handling stream `id`: its data is passed on, its closing (or a closed channel, `None`)
/// ends it, other messages are skipped.
pub fn stream_step(id: u32, msg: Option<BridgeResponse>) -> (r: StreamStep)
    ensures
        match msg {
            Some(BridgeResponse::StreamData { id: rid, chunk }) => if rid == id {
                r matches StreamStep::Data(c) && c == chunk
            } else {
                r is Skip
            },
            Some(BridgeResponse::StreamClosed { id: rid }) => if rid == id {
                r is Stop
            } else {
                r is Skip
            },
            Some(BridgeResponse::Response { .. }) => r is Skip,
            None => r is Stop,
        },
{
    match msg {
        Some(BridgeResponse::StreamData { id: rid, chunk }) => {
            if rid == id {
                StreamStep::Data(chunk)
            } else {
                StreamStep::Skip
            }
        },
        Some(BridgeResponse::StreamClosed { id: rid }) => {
            if rid == id {
                StreamStep::Stop
            } else {
                StreamStep::Skip
            }
        },
        Some(BridgeResponse::Response { .. }) => StreamStep::Skip,
        None => StreamStep::Stop,
    }
}

impl BridgeRequest {
    /// A request without body (`get`, `stream`) or with one (`post`).
    pub fn request(id: u32, method: RequestMethod, url: &str, body: Option<&str>) -> (r:
        BridgeRequest)
        ensures
            r matches BridgeRequest::Request { id: rid, method: m, url: u, body: b } && rid == id
                && m == method && u@ == url@ && match (b, body) {
                (Some(x), Some(y)) => x@ == y@,
                (None, None) => true,
                _ => false,
            },
    {
        let body = match body {
            Some(b) => Some(b.to_string()),
            None => None,
        };
        BridgeRequest::Request { id, method, url: url.to_string(), body }
    }
}

/// The channel registered for the answers to request `id`, if any.
pub fn route(channels: &HashMap<u32, Sender<BridgeResponse>>, id: u32) -> (r: Option<&Sender<BridgeResponse>>)
    ensures
        match r {
            Some(tx) => channels@.contains_key(id) && *tx == channels@[id],
            None => !channels@.contains_key(id),
        },
{
    channels.get(&id)
}

/// The board's end of the bridge: it numbers requests, sends them to the phone and routes
/// the phone's answers to the channel registered for each request. The waiting for an
/// answer is done by the firmware, with `await_step` and `stream_step` deciding on each
/// message.
pub struct BridgeHandler {
    transport: ChannelTransport,
    request_timeout: Duration,
    next_request_id: AtomicU32,
    request_channels: Arc<Mutex<HashMap<u32, Sender<BridgeResponse>>>>,
    is_connected: Arc<Mutex<bool>>,
}

impl BridgeHandler {
    /// How long a request waits for its answer.
    pub closed spec fn timeout(&self) -> Duration {
        self.request_timeout
    }

    /// The connection state shared with the BLE service.
    pub closed spec fn connection_flag(&self) -> Arc<Mutex<bool>> {
        self.is_connected
    }

    /// A handler whose requests time out after `request_timeout`, with the connection state
    /// shared with the BLE service. Also gives the receiving end of the requests to the
    /// phone and the sending end of the phone's answers.
    pub fn new(request_timeout: Duration, is_connected: Arc<Mutex<bool>>) -> (r: (
        BridgeHandler,
        Receiver<BridgeRequest>,
        Sender<BridgeResponse>,
    ))
        ensures
            r.0.timeout() == request_timeout,
            r.0.connection_flag() == is_connected,
    {
        let (to_phone_tx, to_phone_rx) = channel();
        let (from_phone_tx, from_phone_rx) = channel();
        let transport = ChannelTransport::new(to_phone_tx, from_phone_rx);
        let handler = BridgeHandler {
            transport,
            request_timeout,
            next_request_id: AtomicU32::new(1),
            request_channels: Arc::new(mutex(HashMap::new())),
            is_connected,
        };
        (handler, to_phone_rx, from_phone_tx)
    }

    /// How long a request waits for its answer.
    pub fn request_timeout(&self) -> (r: Duration)
        ensures
            r == self.timeout(),
    {
        self.request_timeout
    }

    /// A new request id (ids count up from 1).
    pub fn next_id(&self) -> u32 {
        self.next_request_id.fetch_add(1, std::sync::atomic::Ordering::SeqCst)
    }

    /// Registers a channel for the answers to request `id` and gives its receiving end.
    pub fn open_channel(&self, id: u32) -> Receiver<BridgeResponse> {
        let (tx, rx) = channel();
        let mut channels = lock(&*self.request_channels);
        guarded_insert(&mut channels, id, tx);
        rx
    }

    /// Forgets the channel of request `id`.
    pub fn close_channel(&self, id: u32) {
        let mut channels = lock(&*self.request_channels);
        guarded_remove(&mut channels, id);
    }

    /// Sends request `id` to the phone; a failed send is a transport error.
    pub fn send_request(&self, id: u32, method: RequestMethod, url: &str, body: Option<&str>) -> (r:
        Result<(), BluetoothError>)
        ensures
            r is Ok || r matches Err(BluetoothError::Transport(_)),
    {
        self.transport.send(BridgeRequest::request(id, method, url, body))
    }

    /// One round of the dispatcher: waits for an answer of the phone and passes it to the
    /// channel of its request (an answer to an unknown request is dropped). False once the
    /// link is closed.
    pub fn dispatch_one(&self) -> bool {
        match self.transport.recv() {
            Ok(msg) => {
                let id = msg.id();
                let channels = lock(&*self.request_channels);
                if let Some(tx) = route(guarded_map(&channels), id) {
                    let _ = send(tx, msg);
                }
                true
            },
            Err(_) => false,
        }
    }

    /// Appends a chunk of a stream to `buffer` and sends each complete line, trimmed, to
    /// `tx`, leaving out lines that are empty after trimming; the text after the last
    /// `\n` stays in `buffer`. Returns the lines, in the order in which they were sent
    /// (a send to a closed channel is passed over).
    pub fn push_chunk(tx: &Sender<String>, buffer: &mut String, chunk: &str) -> (r: Vec<String>)
        requires
            old(buffer)@.len() + chunk@.len() <= usize::MAX,
        ensures
            r@.map_values(|l: String| l@) == crate::text::cleaned(
                crate::text::lines_of(old(buffer)@ + chunk@),
            ),
            final(buffer)@ == crate::text::line_rest(old(buffer)@ + chunk@),
    {
        let lines = complete_lines(buffer, chunk);
        let mut i: usize = 0;
        while i < lines.len()
            decreases lines.len() - i,
        {
            let _ = send(tx, lines[i].clone());
            i += 1;
        }
        lines
    }

    /// Whether a phone is connected.
    pub fn is_connected(&self) -> bool {
        let flag = lock(&*self.is_connected);
        guarded_flag(&flag)
    }
}

} // verus!
