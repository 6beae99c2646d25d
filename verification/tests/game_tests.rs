use chess::{File, Rank, Square};
use e_chess::bitboard_extensions::BitBoard;
use e_chess::chess_connector::{GameEvent, GameState, LocalChessConnector};
use e_chess::game::{ChessGame, ChessGameError, PlayingState};

fn square(rank: Rank, file: File) -> u8 {
    Square::make_square(rank, file).to_int()
}

#[test]
fn test_tick_invalid_board() -> Result<(), ChessGameError> {
    let mut chess = ChessGame::new(LocalChessConnector::new()).unwrap();
    chess.reset("")?;

    let mut physical = chess.expected_physical();

    // Set initally correct
    chess.tick(physical)?;
    let initially_expected = chess.expected_physical();
    assert!(initially_expected == physical);

    // Take two black that shouldn't be taken
    physical = physical
        .xor(BitBoard::from_square(square(Rank::Eighth, File::A)))
        .xor(BitBoard::from_square(square(Rank::Eighth, File::B)));
    chess.tick(physical)?;
    let expected = chess.expected_physical();
    assert!(expected == initially_expected);

    // Now take a2 - it should not try to make the move!
    physical = physical.xor(BitBoard::from_square(square(Rank::Second, File::A)));
    chess.tick(physical)?;
    let expected = chess.expected_physical();
    assert!(expected == initially_expected);

    // Try to place on a3
    physical = physical.or(BitBoard::from_square(square(Rank::Third, File::A)));
    chess.tick(physical)?;
    let expected = chess.expected_physical();
    assert!(expected == initially_expected);

    // Until now - no real move was done -> expected is still the initially expected.

    Ok(())
}

#[test]
fn start_position_expects_first_and_last_two_ranks() {
    let mut chess = ChessGame::new(LocalChessConnector::new()).unwrap();
    chess.reset("").unwrap();
    assert_eq!(chess.expected_physical().0, 0xFFFF_0000_0000_FFFF);
}

#[test]
fn lifting_and_placing_a_pawn_makes_the_move() {
    let mut chess = ChessGame::new(LocalChessConnector::new()).unwrap();
    chess.reset("").unwrap();
    let start = chess.expected_physical();
    let e2 = square(Rank::Second, File::E);
    let e4 = square(Rank::Fourth, File::E);
    // Lift e2.
    let lifted = start.xor(BitBoard::from_square(e2));
    chess.tick(lifted).unwrap();
    let state = chess.get_state().unwrap();
    assert!(state.playing_state == PlayingState::MovingPiece { piece: e_chess::position::Piece::Pawn, from: e2 });
    assert_eq!(state.possible_moves.0, (1u64 << 20) | (1u64 << 28));
    // Place on e4.
    let placed = lifted.or(BitBoard::from_square(e4));
    chess.tick(placed).unwrap();
    let state = chess.get_state().unwrap();
    assert!(state.playing_state == PlayingState::Idle);
    assert_eq!(state.expected_physical, placed);
    let last = chess.last_move().unwrap();
    assert_eq!((last.source, last.dest), (e2, e4));
    assert!(state.active_player == e_chess::position::Color::Black);
    assert_eq!(state.current_position.fen(), "rnbqkbnr/pppppppp/8/8/4P3/8/PPPP1PPP/RNBQKBNR b KQkq - 0 1");
}

#[test]
fn lifting_an_opponent_piece_does_nothing() {
    let mut chess = ChessGame::new(LocalChessConnector::new()).unwrap();
    chess.reset("").unwrap();
    let start = chess.expected_physical();
    let e7 = square(Rank::Seventh, File::E);
    chess.tick(start.xor(BitBoard::from_square(e7))).unwrap();
    assert!(chess.get_state().unwrap().playing_state == PlayingState::Idle);
    assert_eq!(chess.expected_physical(), start);
}

#[test]
fn illegal_placement_keeps_piece_lifted() {
    let mut chess = ChessGame::new(LocalChessConnector::new()).unwrap();
    chess.reset("").unwrap();
    let start = chess.expected_physical();
    let a2 = square(Rank::Second, File::A);
    let a5 = square(Rank::Fifth, File::A);
    let lifted = start.xor(BitBoard::from_square(a2));
    chess.tick(lifted).unwrap();
    chess.tick(lifted.or(BitBoard::from_square(a5))).unwrap();
    let state = chess.get_state().unwrap();
    assert!(state.playing_state == PlayingState::MovingPiece { piece: e_chess::position::Piece::Pawn, from: a2 });
    assert!(chess.last_move().is_none());
    assert_eq!(state.expected_physical, lifted);
}

#[test]
fn any_id_loads_the_start_position() {
    let mut chess = ChessGame::new(LocalChessConnector::new()).unwrap();
    chess.reset("not a fen").unwrap();
    assert_eq!(chess.expected_physical().0, 0xFFFF_0000_0000_FFFF);
    assert_eq!(chess.game_id(), "not a fen");
    assert!(chess.last_move().is_none());
}

/// Lifts the piece on `from` and puts it on the empty square `to`.
fn move_by_hand(chess: &mut ChessGame, from: u8, to: u8) {
    let lifted = chess.expected_physical().xor(BitBoard::from_square(from));
    chess.tick(lifted).unwrap();
    let placed = chess.expected_physical().or(BitBoard::from_square(to));
    chess.tick(placed).unwrap();
}

#[test]
fn a_finished_game_is_frozen() {
    let mut chess = ChessGame::new(LocalChessConnector::new()).unwrap();
    chess.reset("").unwrap();
    chess.tick(chess.expected_physical()).unwrap();
    move_by_hand(&mut chess, square(Rank::Second, File::F), square(Rank::Third, File::F));
    move_by_hand(&mut chess, square(Rank::Seventh, File::E), square(Rank::Fifth, File::E));
    move_by_hand(&mut chess, square(Rank::Second, File::G), square(Rank::Fourth, File::G));
    move_by_hand(&mut chess, square(Rank::Eighth, File::D), square(Rank::Fourth, File::H));
    let state = chess.get_state().unwrap();
    assert_eq!(state.current_position.fen(), "rnb1kbnr/pppp1ppp/8/4p3/6Pq/5P2/PPPPP2P/RNBQKBNR w KQkq - 0 1");
    let start = chess.expected_physical();
    let a2 = square(Rank::Second, File::A);
    chess.tick(start.xor(BitBoard::from_square(a2))).unwrap();
    let state = chess.get_state().unwrap();
    assert!(state.playing_state == PlayingState::Idle);
    assert_eq!(state.expected_physical, start);
    assert_eq!(state.possible_moves.0, 0);
}

#[test]
fn the_move_to_send_and_the_servers_answer() {
    let mut chess = ChessGame::new(LocalChessConnector::new()).unwrap();
    chess.reset("").unwrap();
    let start = chess.expected_physical();
    chess.tick(start).unwrap();
    let e2 = square(Rank::Second, File::E);
    let e4 = square(Rank::Fourth, File::E);
    let lifted = start.xor(BitBoard::from_square(e2));
    // Lifting sends nothing.
    assert!(chess.move_to_send(lifted).is_none());
    chess.apply_physical(lifted, false);
    let placed = lifted.or(BitBoard::from_square(e4));
    let m = chess.move_to_send(placed).unwrap();
    assert!(m == e_chess::position::ChessMove::new(e2, e4, None));
    // A refused move is not made: the pawn stays lifted.
    chess.apply_physical(placed, false);
    let state = chess.get_state().unwrap();
    assert!(chess.last_move().is_none());
    assert!(matches!(state.playing_state, PlayingState::MovingPiece { .. }));
    // An accepted one is.
    chess.apply_physical(placed, true);
    assert!(chess.last_move() == Some(m));
    assert_eq!(chess.expected_physical().0, 0xFFFF_0000_1000_EFFF);
}

#[test]
fn events_of_the_server() {
    let mut chess = ChessGame::new(LocalChessConnector::new()).unwrap();
    chess.reset("").unwrap();
    assert!(matches!(chess.apply_event(GameEvent::Unknown), Ok(false)));
    assert!(chess.last_move().is_none());
    let state = |moves: &[&str]| GameState {
        white_request_take_back: false,
        black_request_take_back: false,
        moves: moves.iter().map(|m| m.to_string()).collect(),
    };
    assert!(matches!(chess.apply_event(GameEvent::State(state(&["e2e4"]))), Ok(false)));
    assert_eq!(chess.expected_physical().0, 0xFFFF_0000_1000_EFFF);
    // No more moves than the server had: a take-back, the game is to be loaded again.
    assert!(matches!(chess.apply_event(GameEvent::State(state(&["e2e4"]))), Ok(true)));
    match chess.apply_event(GameEvent::State(state(&["e2e4", "zz"]))) {
        Err(ChessGameError::LoadingFen(t)) => assert_eq!(t, "zz"),
        _ => panic!("a last move that is no move is a loading error"),
    }
    assert_eq!(chess.expected_physical().0, 0xFFFF_0000_1000_EFFF);
}
