//! The game characteristics of the BLE service: the phone writes commands, the board
//! announces loaded games. The JSON of the messages is written and read by the firmware;
//! this module holds the handler and the choice of what is announced.
use vstd::prelude::*;
use std::sync::mpsc::Sender;
use crate::chess_connector::OngoingGame;
use crate::game_events::{Event, GameCommandEvent, GameStateEvent};
use crate::sync::send;
use crate::bluetooth::{decode_chunked, frames_of};
use crate::text::{trim, trimmed};
use vstd::utf8::{decode_utf8, valid_utf8};

verus! {

/// A game event as announced to the phone.
#[derive(Debug, Clone)]
pub enum SerializableGameStateEvent {
    OngoingGamesLoaded { games: Vec<OngoingGame> },
    GameLoaded { game_key: String },
}

/// What the phone is told of an event of the game thread: the open games that were loaded
/// and the key of a game that was loaded; updates of a game are not announced.
pub fn serializable(event: GameStateEvent) -> (r: Option<SerializableGameStateEvent>)
    ensures
        match event {
            GameStateEvent::OngoingGamesLoaded(games) => r == Some(
                SerializableGameStateEvent::OngoingGamesLoaded { games },
            ),
            GameStateEvent::GameLoaded(game_key) => r == Some(
                SerializableGameStateEvent::GameLoaded { game_key },
            ),
            GameStateEvent::UpdateGame(_) => r is None,
        },
{
    match event {
        GameStateEvent::OngoingGamesLoaded(games) => Some(
            SerializableGameStateEvent::OngoingGamesLoaded { games },
        ),
        GameStateEvent::GameLoaded(game_key) => Some(SerializableGameStateEvent::GameLoaded { game_key }),
        GameStateEvent::UpdateGame(_) => None,
    }
}

/// Passes the phone's game commands to the game thread.
pub struct GameHandler {
    event_tx: Sender<Event>,
}

impl GameHandler {
    /// The channel to the game thread.
    pub closed spec fn events(&self) -> Sender<Event> {
        self.event_tx
    }

    /// A handler that passes commands into `event_tx`.
    pub fn new(event_tx: Sender<Event>) -> (r: Self)
        ensures
            r.events() == event_tx,
    {
        GameHandler { event_tx }
    }

    /// Passes a command to the game thread; false when it is gone.
    pub fn forward(&self, command: GameCommandEvent) -> bool {
        send(&self.event_tx, Event::GameCommand(command)).is_ok()
    }
}

/// `String::from_utf8_lossy`: the text of the bytes, with U+FFFD for each invalid
/// sequence.
pub uninterp spec fn lossy_text(bytes: Seq<u8>) -> Seq<char>;

/// `String::from_utf8_lossy`. Claims the result is the named value, and, as the
/// documentation states, that valid UTF-8 is decoded as it is.
#[verifier::external_body]
pub(crate) fn utf8_lossy(bytes: &[u8]) -> (r: String)
    ensures
        r@ == lossy_text(bytes@),
        valid_utf8(bytes@) ==> r@ == decode_utf8(bytes@),
{
    String::from_utf8_lossy(bytes).into_owned()
}

/// The game keys in a list of frames: each frame as text, trimmed, where it is not empty.
pub open spec fn keys_of(frames: Seq<Seq<u8>>) -> Seq<Seq<char>>
    decreases frames.len(),
{
    if frames.len() == 0 {
        Seq::empty()
    } else {
        let key = trimmed(lossy_text(frames.last()));
        keys_of(frames.drop_last()) + if key.len() > 0 {
            seq![key]
        } else {
            Seq::empty()
        }
    }
}

/// Handles a write to the game key characteristic: the bytes are added to `buffer`, and
/// the key of each complete line is given out (empty lines give none).
pub fn game_keys(data: &[u8], buffer: &mut Vec<u8>) -> (r: Vec<String>)
    requires
        old(buffer)@.len() + data@.len() <= usize::MAX,
    ensures
        r@.map_values(|k: String| k@) == keys_of(frames_of(old(buffer)@ + data@)),
        final(buffer)@ == crate::bluetooth::rest_of(old(buffer)@ + data@),
{
    let frames = decode_chunked(data, buffer);
    let ghost all = frames@.map_values(|f: Vec<u8>| f@);
    let mut keys: Vec<String> = Vec::new();
    let mut i: usize = 0;
    while i < frames.len()
        invariant
            all == frames@.map_values(|f: Vec<u8>| f@),
            i <= frames@.len(),
            keys@.map_values(|k: String| k@) == keys_of(all.take(i as int)),
        decreases frames@.len() - i,
    {
        assert(all.take(i as int + 1).drop_last() =~= all.take(i as int));
        assert(all.take(i as int + 1).last() == frames@[i as int]@);
        let text = utf8_lossy(frames[i].as_slice());
        let key = trim(text.as_str());
        let ghost before = keys@;
        if !key.as_str().is_empty() {
            keys.push(key);
            assert(keys@.map_values(|k: String| k@) =~= before.map_values(|k: String| k@) + seq![
                trimmed(lossy_text(all[i as int])),
            ]);
        } else {
            assert(keys@.map_values(|k: String| k@) =~= before.map_values(|k: String| k@) + Seq::<
                Seq<char>,
            >::empty());
        }
        i += 1;
    }
    assert(all.take(i as int) =~= all);
    keys
}

} // verus!
