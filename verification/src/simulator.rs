//! The commands of the board simulator: a piece is taken from or put on a square given in
//! algebraic notation, such as `take b5` or `put b5`.
use vstd::prelude::*;
use crate::bitboard_extensions::{bit_at, lemma_bit_ops, lemma_square_word};
use crate::text::{chars_of, is_space, is_whitespace, same_text, string_of, trim, trimmed};

verus! {

broadcast use vstd::string::group_string_axioms;

/// The square of algebraic notation such as `b5` (file letter, rank digit): `8 * rank +
/// file`, counting from 0.
pub open spec fn square_of_text(s: Seq<char>) -> Option<u32> {
    if s.len() == 2 && 'a' <= s[0] <= 'h' && '1' <= s[1] <= '8' {
        Some(((s[1] as u32 - 49) * 8 + (s[0] as u32 - 97)) as u32)
    } else {
        None
    }
}

/// Converts algebraic notation (e.g. "b5") to a board position (0-63).
pub fn parse_square(square: &str) -> (r: Option<u32>)
    ensures
        r == square_of_text(square@),
        r matches Some(p) ==> p < 64,
{
    let c = chars_of(square);
    if c.len() != 2 {
        return None;
    }
    let file = c[0];
    let rank = c[1];
    if !('a' <= file && file <= 'h') || !('1' <= rank && rank <= '8') {
        return None;
    }
    let file_idx: u32 = (file as u32) - 97;
    let rank_idx: u32 = (rank as u32) - 49;
    Some(rank_idx * 8 + file_idx)
}

/// `str::to_lowercase`.
pub uninterp spec fn lowercased(s: Seq<char>) -> Seq<char>;

/// `str::to_lowercase`. Claims the result is the named value.
#[verifier::external_body]
pub(crate) fn to_lowercase(s: &str) -> (r: String)
    ensures
        r@ == lowercased(s@),
{
    s.to_lowercase()
}

/// The text after the last white space.
pub open spec fn tail_run(s: Seq<char>) -> Seq<char>
    decreases s.len(),
{
    if s.len() == 0 {
        Seq::empty()
    } else if is_space(s.last()) {
        Seq::empty()
    } else {
        tail_run(s.drop_last()).push(s.last())
    }
}

/// The words of `s` that white space ends.
pub open spec fn ended_runs(s: Seq<char>) -> Seq<Seq<char>>
    decreases s.len(),
{
    if s.len() == 0 {
        Seq::empty()
    } else if is_space(s.last()) {
        ended_runs(s.drop_last()) + if tail_run(s.drop_last()).len() > 0 {
            seq![tail_run(s.drop_last())]
        } else {
            Seq::empty()
        }
    } else {
        ended_runs(s.drop_last())
    }
}

/// The words between runs of white space (`str::split_whitespace`).
pub open spec fn whitespace_words(s: Seq<char>) -> Seq<Seq<char>> {
    ended_runs(s) + if tail_run(s).len() > 0 {
        seq![tail_run(s)]
    } else {
        Seq::empty()
    }
}

/// The words between runs of white space.
pub fn split_whitespace(text: &str) -> (r: Vec<String>)
    ensures
        r@.map_values(|w: String| w@) == whitespace_words(text@),
{
    let t = chars_of(text);
    let mut out: Vec<String> = Vec::new();
    let mut current: Vec<char> = Vec::new();
    let mut i: usize = 0;
    while i < t.len()
        invariant
            t@ == text@,
            i <= t@.len(),
            out@.map_values(|w: String| w@) == ended_runs(t@.take(i as int)),
            current@ == tail_run(t@.take(i as int)),
        decreases t@.len() - i,
    {
        let c = t[i];
        assert(t@.take(i as int + 1).drop_last() =~= t@.take(i as int));
        assert(t@.take(i as int + 1).last() == c);
        if is_whitespace(c) {
            if current.len() > 0 {
                let ghost before = out@;
                out.push(string_of(current.as_slice()));
                assert(out@.map_values(|w: String| w@) =~= before.map_values(|w: String| w@)
                    + seq![current@]);
            } else {
                assert(ended_runs(t@.take(i as int + 1)) =~= ended_runs(t@.take(i as int)));
            }
            current = Vec::new();
        } else {
            current.push(c);
        }
        i += 1;
    }
    assert(t@.take(i as int) =~= text@);
    if current.len() > 0 {
        let ghost before = out@;
        out.push(string_of(current.as_slice()));
        assert(out@.map_values(|w: String| w@) =~= before.map_values(|w: String| w@) + seq![
            current@,
        ]);
    } else {
        assert(whitespace_words(text@) =~= ended_runs(text@));
    }
    out
}

/// A command of the simulator.
#[derive(Debug, Clone, Copy, PartialEq, Eq, Structural)]
pub enum Command {
    /// A piece is taken from the square.
    Take(u32),
    /// A piece is put on the square.
    Put(u32),
    Quit,
    /// A take or put without exactly one square after it.
    InvalidFormat,
    /// A take or put of something that is not a square.
    InvalidSquare,
    Unknown,
}

/// The text starts with `prefix`.
pub open spec fn starts_with(s: Seq<char>, prefix: Seq<char>) -> bool {
    s.len() >= prefix.len() && s.take(prefix.len() as int) == prefix
}

fn has_prefix(s: &str, prefix: &str) -> (r: bool)
    ensures
        r == starts_with(s@, prefix@),
{
    let a = chars_of(s);
    let b = chars_of(prefix);
    if a.len() < b.len() {
        return false;
    }
    let mut i: usize = 0;
    while i < b.len()
        invariant
            a@ == s@,
            b@ == prefix@,
            b@.len() <= a@.len(),
            i <= b@.len(),
            a@.take(i as int) == b@.take(i as int),
        decreases b@.len() - i,
    {
        if a[i] != b[i] {
            assert(a@.take(b@.len() as int)[i as int] != b@[i as int]);
            return false;
        }
        i += 1;
        assert(a@.take(i as int) =~= b@.take(i as int));
    }
    assert(b@.take(i as int) =~= b@);
    true
}

/// The command that a line of input gives: the line is trimmed and lower-cased, then read
/// by `command_of_input`.
pub open spec fn command_of(line: Seq<char>) -> Command {
    command_of_input(lowercased(trimmed(line)))
}

/// The command of a trimmed, lower-cased input: one starting with `take `, `put `, `t `
/// or `p ` must have exactly two words, the second a square; `quit` and `exit` end the
/// simulator.
pub open spec fn command_of_input(input: Seq<char>) -> Command {
    if starts_with(input, "take "@) || starts_with(input, "put "@) || starts_with(input, "t "@)
        || starts_with(input, "p "@) {
        let parts = whitespace_words(input);
        if parts.len() != 2 {
            Command::InvalidFormat
        } else {
            match square_of_text(parts[1]) {
                None => Command::InvalidSquare,
                Some(pos) => if parts[0] == "take"@ || parts[0] == "t"@ {
                    Command::Take(pos)
                } else if parts[0] == "put"@ || parts[0] == "p"@ {
                    Command::Put(pos)
                } else {
                    Command::Unknown
                },
            }
        }
    } else if input == "quit"@ || input == "exit"@ {
        Command::Quit
    } else {
        Command::Unknown
    }
}

/// Reads a command from a line of input.
pub fn parse_command(line: &str) -> (r: Command)
    ensures
        r == command_of(line@),
{
    let trimmed_line = trim(line);
    let input = to_lowercase(trimmed_line.as_str());
    parse_input(input.as_str())
}

/// Reads a command from a trimmed, lower-cased input.
pub fn parse_input(text: &str) -> (r: Command)
    ensures
        r == command_of_input(text@),
{
    if has_prefix(text, "take ") || has_prefix(text, "put ") || has_prefix(text, "t ")
        || has_prefix(text, "p ") {
        let parts = split_whitespace(text);
        if parts.len() != 2 {
            return Command::InvalidFormat;
        }
        assert(parts@.map_values(|w: String| w@)[1] == parts@[1]@);
        assert(parts@.map_values(|w: String| w@)[0] == parts@[0]@);
        match parse_square(parts[1].as_str()) {
            None => Command::InvalidSquare,
            Some(pos) => {
                let word = parts[0].as_str();
                if same_text(word, "take") || same_text(word, "t") {
                    Command::Take(pos)
                } else if same_text(word, "put") || same_text(word, "p") {
                    Command::Put(pos)
                } else {
                    Command::Unknown
                }
            },
        }
    } else if same_text(text, "quit") || same_text(text, "exit") {
        Command::Quit
    } else {
        Command::Unknown
    }
}

/// The physical board after a command: a take clears the square, a put sets it, other
/// commands leave the board as it is.
pub open spec fn applied(board: u64, command: Command) -> u64 {
    match command {
        Command::Take(p) => board & !(1u64 << (p as u64)),
        Command::Put(p) => board | (1u64 << (p as u64)),
        _ => board,
    }
}

/// Taking a piece from a square and putting it back leaves every other square as it was,
/// with the square occupied.
pub proof fn law_take_then_put(board: u64, p: u32)
    requires
        p < 64,
    ensures
        forall|j: u64| j < 64 ==> (bit_at(applied(applied(board, Command::Take(p)), Command::Put(p)), j)
            <==> (bit_at(board, j) || j == p)),
{
    let mask = 1u64 << (p as u64);
    lemma_square_word(p as u64);
    assert forall|j: u64| j < 64 implies (bit_at((board & !mask) | mask, j) <==> (bit_at(board, j) || j == p)) by {
        lemma_bit_ops(board, mask, j);
        lemma_bit_ops(board & !mask, mask, j);
    }
}

/// Clearing square `p` leaves the others; setting it adds it.
proof fn lemma_clear_set(board: u64, p: u64)
    requires
        p < 64,
    ensures
        forall|j: u64| j < 64 ==> (#[trigger] bit_at(board & !(1u64 << p), j) <==> (bit_at(board, j) && j != p)),
        forall|j: u64| j < 64 ==> (#[trigger] bit_at(board | (1u64 << p), j) <==> (bit_at(board, j) || j == p)),
{
    let mask = 1u64 << p;
    lemma_square_word(p);
    assert forall|j: u64| j < 64 implies (#[trigger] bit_at(board & !mask, j) <==> (bit_at(board, j) && j != p)) by {
        lemma_bit_ops(board, mask, j);
        assert(bit_at(mask, j) <==> j == p);
    }
    assert forall|j: u64| j < 64 implies (#[trigger] bit_at(board | mask, j) <==> (bit_at(board, j) || j == p)) by {
        lemma_bit_ops(board, mask, j);
        assert(bit_at(mask, j) <==> j == p);
    }
}

/// The physical board after a command.
pub fn apply_command(board: u64, command: Command) -> (r: u64)
    requires
        command matches Command::Take(p) ==> p < 64,
        command matches Command::Put(p) ==> p < 64,
    ensures
        r == applied(board, command),
        match command {
            Command::Take(p) => forall|j: u64| j < 64 ==> (bit_at(r, j) <==> (bit_at(board, j) && j != p)),
            Command::Put(p) => forall|j: u64| j < 64 ==> (bit_at(r, j) <==> (bit_at(board, j) || j == p)),
            _ => r == board,
        },
{
    match command {
        Command::Take(p) => {
            proof {
                lemma_clear_set(board, p as u64);
            }
            board & !(1u64 << (p as u64))
        },
        Command::Put(p) => {
            proof {
                lemma_clear_set(board, p as u64);
            }
            board | (1u64 << (p as u64))
        },
        _ => board,
    }
}

} // verus!
