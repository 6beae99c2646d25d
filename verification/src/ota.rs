//! Firmware updates over BLE. The first write to the action characteristic holds the
//! size of the image (four bytes, little-endian); every later write is a chunk of the
//! image. The update itself (`esp_ota`) is done by the firmware; this module holds the
//! commands, the events and every decision taken between the steps of an update.
use vstd::prelude::*;
use vstd::bytes::{spec_u32_from_le_bytes, u32_from_le_bytes};
use crate::bluetooth::BluetoothError;

verus! {

broadcast use vstd::string::group_string_axioms;

/// A command decoded from a write to the action characteristic.
#[derive(Debug, Clone)]
pub enum OtaCommand {
    Start { size: u32 },
    Data { data: Vec<u8> },
}

/// An event announced to the phone.
#[derive(Debug, Clone)]
pub enum OtaEvent {
    OtaStarted { size: u32 },
    OtaComplete,
    OtaError { message: String },
}

/// The handler of firmware updates.
pub struct OtaHandler {}

impl OtaHandler {
    pub fn new() -> (r: OtaHandler) {
        OtaHandler {}
    }
}

/// What one write means: the first write, if it holds exactly four bytes, starts an update
/// of that many bytes (little-endian); every other write is a chunk of the image.
pub fn decode_write(first: bool, data: &[u8]) -> (r: OtaCommand)
    ensures
        first && data@.len() == 4 ==> r == (OtaCommand::Start {
            size: spec_u32_from_le_bytes(data@),
        }),
        !(first && data@.len() == 4) ==> (r matches OtaCommand::Data { data: d } && d@ == data@),
{
    if first && data.len() == 4 {
        OtaCommand::Start { size: u32_from_le_bytes(data) }
    } else {
        let mut v: Vec<u8> = Vec::new();
        let mut i: usize = 0;
        while i < data.len()
            invariant
                i <= data@.len(),
                v@ == data@.take(i as int),
            decreases data@.len() - i,
        {
            v.push(data[i]);
            i += 1;
            assert(v@ =~= data@.take(i as int));
        }
        assert(data@.take(data@.len() as int) =~= data@);
        OtaCommand::Data { data: v }
    }
}

/// Where an update stands.
#[derive(Debug, Clone, Copy, PartialEq, Eq, Structural)]
pub enum OtaState {
    Idle,
    Receiving { expected_size: u32, bytes_received: u32 },
}

/// What to do for a command before any outside work.
#[derive(Debug)]
pub enum OtaPlan {
    /// Begin an update of `size` bytes.
    Begin { size: u32 },
    /// Write the chunk to the update in progress.
    Write,
    /// Refuse the command; the state goes back to idle.
    Refuse(BluetoothError),
}

/// A start always begins a new update; data is written only while an update is in
/// progress and refused otherwise.
pub fn plan(state: &OtaState, cmd: &OtaCommand) -> (r: OtaPlan)
    ensures
        match cmd {
            OtaCommand::Start { size } => (r matches OtaPlan::Begin { size: s } && s == size),
            OtaCommand::Data { .. } => match state {
                OtaState::Idle => (r matches OtaPlan::Refuse(BluetoothError::Protocol(m)) && m@
                    == "OTA not in progress"@),
                OtaState::Receiving { .. } => r is Write,
            },
        },
{
    match cmd {
        OtaCommand::Start { size } => OtaPlan::Begin { size: *size },
        OtaCommand::Data { .. } => match state {
            OtaState::Idle => OtaPlan::Refuse(BluetoothError::Protocol("OTA not in progress".to_string())),
            OtaState::Receiving { .. } => OtaPlan::Write,
        },
    }
}

/// After beginning an update of `size` bytes: on success nothing is received yet and the
/// start is announced; on failure the state goes back to idle.
pub fn after_begin(size: u32, begun: bool) -> (r: (OtaState, Result<OtaEvent, BluetoothError>))
    ensures
        begun ==> r.0 == (OtaState::Receiving { expected_size: size, bytes_received: 0 })
            && (r.1 matches Ok(OtaEvent::OtaStarted { size: s }) && s == size),
        !begun ==> r.0 is Idle && (r.1 matches Err(BluetoothError::Transport(m)) && m@
            == "OTA begin failed"@),
{
    if begun {
        (OtaState::Receiving { expected_size: size, bytes_received: 0 }, Ok(OtaEvent::OtaStarted { size }))
    } else {
        (OtaState::Idle, Err(BluetoothError::Transport("OTA begin failed".to_string())))
    }
}

/// The state after a chunk of `len` bytes was written: an update in progress counts it
/// and ends once the count reaches its size; without an update the chunk is refused.
pub open spec fn after_chunk(state: OtaState, len: nat) -> OtaState {
    match state {
        OtaState::Idle => OtaState::Idle,
        OtaState::Receiving { expected_size, bytes_received } => if bytes_received + len
            >= expected_size {
            OtaState::Idle
        } else {
            OtaState::Receiving { expected_size, bytes_received: (bytes_received + len) as u32 }
        },
    }
}

/// The state after chunks were written in turn.
pub open spec fn after_chunks(state: OtaState, lens: Seq<nat>) -> OtaState
    decreases lens.len(),
{
    if lens.len() == 0 {
        state
    } else {
        after_chunk(after_chunks(state, lens.drop_last()), lens.last())
    }
}

/// The total of chunk lengths.
pub open spec fn total(lens: Seq<nat>) -> nat
    decreases lens.len(),
{
    if lens.len() == 0 {
        0
    } else {
        total(lens.drop_last()) + lens.last()
    }
}

/// An update of `size` bytes whose chunks are all written is still in progress, with all
/// their bytes counted, exactly while they total less than its size; it ends with the
/// chunk that reaches it (later chunks are refused).
pub proof fn law_update_ends_at_size(size: u32, lens: Seq<nat>)
    requires
        total(lens) <= u32::MAX,
    ensures
        total(lens) < size ==> after_chunks(
            OtaState::Receiving { expected_size: size, bytes_received: 0 },
            lens,
        ) == (OtaState::Receiving { expected_size: size, bytes_received: total(lens) as u32 }),
        total(lens) >= size && lens.len() > 0 ==> after_chunks(
            OtaState::Receiving { expected_size: size, bytes_received: 0 },
            lens,
        ) is Idle,
    decreases lens.len(),
{
    if lens.len() > 0 {
        law_update_ends_at_size(size, lens.drop_last());
    }
}

/// After writing a chunk of `len` bytes to an update of `expected_size` bytes of which
/// `bytes_received` had come: a failed write ends the update; otherwise the count grows
/// by `len`, and once it reaches the expected size the update is to be finished
/// (`Ok(true)`) and the state goes back to idle.
pub fn after_write(expected_size: u32, bytes_received: u32, len: usize, written: bool) -> (r: (
    OtaState,
    Result<bool, BluetoothError>,
))
    requires
        written ==> bytes_received + len <= u32::MAX,
    ensures
        written ==> r.0 == after_chunk(
            OtaState::Receiving { expected_size, bytes_received },
            len as nat,
        ),
        !written ==> r.0 is Idle && (r.1 matches Err(BluetoothError::Transport(m)) && m@
            == "Write failed"@),
        written && bytes_received + len >= expected_size ==> r.0 is Idle && r.1 == Ok::<
            bool,
            BluetoothError,
        >(true),
        written && bytes_received + len < expected_size ==> r.0 == (OtaState::Receiving {
            expected_size,
            bytes_received: (bytes_received + len) as u32,
        }) && r.1 == Ok::<bool, BluetoothError>(false),
{
    if !written {
        return (OtaState::Idle, Err(BluetoothError::Transport("Write failed".to_string())));
    }
    let total: u32 = bytes_received + len as u32;
    if total >= expected_size {
        (OtaState::Idle, Ok(true))
    } else {
        (OtaState::Receiving { expected_size, bytes_received: total }, Ok(false))
    }
}

/// After finishing an update: it is complete when it was finalized and marked as the boot
/// partition; the first step that failed is reported otherwise.
pub fn after_finish(finalized: bool, boot_set: bool) -> (r: Result<OtaEvent, BluetoothError>)
    ensures
        finalized && boot_set ==> r matches Ok(OtaEvent::OtaComplete),
        !finalized ==> (r matches Err(BluetoothError::Transport(m)) && m@ == "Finalize failed"@),
        finalized && !boot_set ==> (r matches Err(BluetoothError::Transport(m)) && m@
            == "Set boot failed"@),
{
    if !finalized {
        Err(BluetoothError::Transport("Finalize failed".to_string()))
    } else if !boot_set {
        Err(BluetoothError::Transport("Set boot failed".to_string()))
    } else {
        Ok(OtaEvent::OtaComplete)
    }
}

} // verus!
