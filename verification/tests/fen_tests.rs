use e_chess::fen::kings_placed;

#[test]
fn both_kings_must_be_placed() {
    assert!(kings_placed("rnbqkbnr/pppppppp/8/8/8/8/PPPPPPPP/RNBQKBNR w KQkq - 0 1"));
    assert!(!kings_placed("8/8/8/8/8/8/8/8 w - - 0 1"));
    assert!(!kings_placed("8/8/8/8/8/8/8/K7 w - - 0 1"));
    assert!(!kings_placed("K7r/8/8/8/8/8/8/7k w - - 0 1"));
    assert!(kings_placed("K8r/8/8/8/8/8/8/7k w - - 0 1"));
    // Only the placement field counts.
    assert!(!kings_placed("8/8/8/8/8/8/8/8 K k - 0 1"));
    assert!(!kings_placed(""));
}
