use e_chess::bitboard::{get, only_different, only_one_bit_set_to_one, set_bit};
use e_chess::bitboard_extensions::{board_text, BitBoard, BitBoardExtensions};
use e_chess::board_scan::{column_select, column_squares, read_board};
use e_chess::tic_tac_toe::{to_bit_board, TicTacToe};

#[test]
fn single_bits_are_recognised() {
    assert!(only_one_bit_set_to_one(1));
    assert!(only_one_bit_set_to_one(0x8000_0000));
    assert!(!only_one_bit_set_to_one(0));
    assert!(!only_one_bit_set_to_one(3));
}

#[test]
fn differing_bits_and_single_bits() {
    assert_eq!(only_different(0b1010, 0b0110), 0b1100);
    assert_eq!(set_bit(0, 3), 8);
    assert_eq!(set_bit(8, 3), 8);
    assert!(get(8, 3));
    assert!(!get(8, 2));
}

#[test]
fn bitboard_extensions_on_words() {
    let b = BitBoard::new(0b1000);
    assert!(b.only_one_bit_set_to_one());
    assert_eq!(b.first_one(), 3);
    assert_eq!(BitBoard::new(0).first_one(), 64);
    assert!(!BitBoard::new(0b1010).only_one_bit_set_to_one());
    assert!(b.get_different_bits(BitBoard::new(0b1100)) == BitBoard::new(0b0100));
    assert!(BitBoard::from_square(12).contains(12));
    assert!(!BitBoard::from_square(12).contains(13));
    assert!(BitBoard::new(0b11).without(BitBoard::new(0b1)) == BitBoard::new(0b10));
}

#[test]
fn board_text_marks_set_squares() {
    let text = board_text(BitBoard::from_square(0));
    let lines: Vec<&str> = text.lines().collect();
    assert_eq!(lines[0], "");
    assert_eq!(lines[1], "   a b c d e f g h");
    assert_eq!(lines[2], "  ---------------");
    assert_eq!(lines[3], "8  0 0 0 0 0 0 0 0");
    assert_eq!(lines[10], "1  1 0 0 0 0 0 0 0");
    assert_eq!(lines[11], "  ---------------");
    assert_eq!(lines[12], "   a b c d e f g h");
}

#[test]
fn column_select_drives_one_column_low() {
    assert_eq!(column_select(0), 0xFE);
    assert_eq!(column_select(3), 0xF7);
    assert_eq!(column_select(7), 0x7F);
}

#[test]
fn column_bytes_become_squares() {
    // Bit 1 low in column 2: rank 2, file c, square 8 + 2.
    assert_eq!(column_squares(0b1111_1101, 2), 1u64 << 10);
    assert_eq!(column_squares(0xFF, 5), 0);
    assert_eq!(column_squares(0x00, 0), 0x0101_0101_0101_0101);
    let mut columns = [0xFFu8; 8];
    columns[0] = 0b1111_1110; // a1
    columns[7] = 0b0111_1111; // h8
    assert!(read_board(&columns) == BitBoard::new(1 | (1u64 << 63)));
}

#[test]
fn tic_tac_toe_positions() {
    let mut board = [[false; 3]; 3];
    board[2][2] = true;
    assert_eq!(to_bit_board(board), 1);
    board[0][0] = true;
    assert_eq!(to_bit_board(board), 1 | (1 << 18));
}

#[test]
fn tic_tac_toe_winner_has_a_line_and_is_kept() {
    let mut game = TicTacToe::<3>::new();
    let mut board = [[false; 3]; 3];
    // Player 0 takes the bottom row, player 1 plays in the middle row.
    let moves = [(2, 0), (1, 0), (2, 1), (1, 1), (2, 2)];
    for (row, column) in moves {
        board[row][column] = true;
        game.tick(board);
    }
    assert_eq!(game.winner, Some(0));
    assert_eq!(game.players[0], 0b111);
    // A further stone changes nothing once there is a winner.
    board[0][0] = true;
    game.tick(board);
    assert_eq!(game.winner, Some(0));
    assert_eq!(game.last_board, 0b111 | (0b110 << 8));
    // An empty board restarts the game.
    game.tick([[false; 3]; 3]);
    assert_eq!(game.winner, None);
    assert_eq!(game.last_board, 0);
    assert_eq!(game.players, [0, 0]);
}

#[test]
fn tic_tac_toe_ignores_two_new_stones() {
    let mut game = TicTacToe::<3>::new();
    let mut board = [[false; 3]; 3];
    board[0][0] = true;
    board[1][1] = true;
    game.tick(board);
    assert_eq!(game.last_board, 0);
    assert_eq!(game.players, [0, 0]);
}

#[test]
fn tic_tac_toe_players_take_turns() {
    let mut game = TicTacToe::<3>::new();
    let mut board = [[false; 3]; 3];
    let moves = [(0, 0), (1, 1), (2, 2), (0, 1)];
    for (i, (row, column)) in moves.iter().enumerate() {
        board[*row][*column] = true;
        game.tick(board);
        let (a, b) = (game.players[0].count_ones(), game.players[1].count_ones());
        // Player 0 moves first: after an odd number of moves it has one stone more.
        assert_eq!(a, b + if i % 2 == 0 { 1 } else { 0 });
    }
}
