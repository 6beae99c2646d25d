//! What the board's web pages read and show: the forms of the settings page, the query of
//! the page that loads a game, and the board as an HTML table. The HTTP server and the
//! page templates are the firmware's.
use vstd::prelude::*;
use crate::position::{board_status, color_on_spec, BoardStatus, Color, Piece, Position};
use crate::render::{piece_at, piece_symbol};
use vstd::string::StringSliceAdditionalSpecFns;
use vstd::utf8::{decode_utf8, encode_utf8, valid_utf8};
use crate::text::{chars_of, digit, digit_char, push_text, same_text, string_of};

verus! {

broadcast use vstd::string::group_string_axioms;

/// The parts of `s` between the separators `sep` (`str::split`: there is always at least
/// one part, possibly empty).
pub open spec fn split_on(s: Seq<char>, sep: char) -> Seq<Seq<char>>
    decreases s.len(),
{
    if s.len() == 0 {
        seq![Seq::empty()]
    } else {
        let p = split_on(s.drop_last(), sep);
        if s.last() == sep {
            p.push(Seq::empty())
        } else {
            p.update(p.len() - 1, p.last().push(s.last()))
        }
    }
}

proof fn lemma_split_nonempty(s: Seq<char>, sep: char)
    ensures
        split_on(s, sep).len() >= 1,
    decreases s.len(),
{
    if s.len() > 0 {
        lemma_split_nonempty(s.drop_last(), sep);
    }
}

/// The parts of `s` between the separators `sep`.
pub fn split_text(s: &str, sep: char) -> (r: Vec<String>)
    ensures
        r@.map_values(|p: String| p@) == split_on(s@, sep),
{
    let t = chars_of(s);
    let mut done: Vec<String> = Vec::new();
    let mut current: Vec<char> = Vec::new();
    let mut i: usize = 0;
    assert(t@.take(0) =~= Seq::<char>::empty());
    assert(done@.map_values(|p: String| p@).push(current@) =~= seq![Seq::<char>::empty()]);
    while i < t.len()
        invariant
            t@ == s@,
            i <= t@.len(),
            done@.map_values(|p: String| p@).push(current@) == split_on(t@.take(i as int), sep),
        decreases t@.len() - i,
    {
        let c = t[i];
        assert(t@.take(i as int + 1).drop_last() =~= t@.take(i as int));
        assert(t@.take(i as int + 1).last() == c);
        let ghost before = done@.map_values(|p: String| p@);
        let ghost old_current = current@;
        if c == sep {
            done.push(string_of(current.as_slice()));
            current = Vec::new();
            assert(done@.map_values(|p: String| p@) =~= before.push(old_current));
        } else {
            current.push(c);
            assert(before.push(old_current).update(before.len() as int, old_current.push(c)) =~= before.push(
                current@,
            ));
        }
        i += 1;
    }
    assert(t@.take(i as int) =~= s@);
    let ghost before = done@.map_values(|p: String| p@);
    let ghost last = current@;
    done.push(string_of(current.as_slice()));
    assert(done@.map_values(|p: String| p@) =~= before.push(last));
    done
}

/// The text holds a `%`, which starts an escape.
pub open spec fn has_escape(s: Seq<char>) -> bool {
    s.contains('%')
}

/// The value of a hexadecimal digit (either case).
pub open spec fn hex_value(b: u8) -> Option<u8> {
    if 48 <= b <= 57 {
        Some((b - 48) as u8)
    } else if 65 <= b <= 70 {
        Some((b - 55) as u8)
    } else if 97 <= b <= 102 {
        Some((b - 87) as u8)
    } else {
        None
    }
}

/// The bytes with each `%` followed by two hexadecimal digits replaced by the byte they
/// name; any other byte, a lone `%` among them, stays as it is.
pub open spec fn percent_decoded(b: Seq<u8>) -> Seq<u8>
    decreases b.len(),
{
    if b.len() == 0 {
        Seq::empty()
    } else if b[0] == 37 && b.len() >= 3 && hex_value(b[1]) is Some && hex_value(b[2]) is Some {
        seq![(hex_value(b[1]).unwrap() * 16 + hex_value(b[2]).unwrap()) as u8] + percent_decoded(
            b.skip(3),
        )
    } else {
        seq![b[0]] + percent_decoded(b.skip(1))
    }
}

/// `urlencoding::decode`: text without `%` as it is; else its UTF-8 bytes with their
/// `%XX` escapes decoded, read as UTF-8, or `None` where they are not UTF-8.
pub open spec fn url_decoded(s: Seq<char>) -> Option<Seq<char>> {
    if !has_escape(s) {
        Some(s)
    } else {
        let d = percent_decoded(encode_utf8(s));
        if valid_utf8(d) {
            Some(decode_utf8(d))
        } else {
            None
        }
    }
}

/// `urlencoding::decode`. Claims the result is `url_decoded`, as the crate's source
/// (`decode`, `decode_binary`) computes it.
#[verifier::external_body]
pub(crate) fn url_decode(s: &str) -> (r: Option<String>)
    ensures
        r matches Some(d) ==> url_decoded(s@) == Some(d@),
        r is None ==> url_decoded(s@) is None,
{
    urlencoding::decode(s).ok().map(|d| d.into_owned())
}

/// The key and the value of a form field `key=value` (what follows a second `=` is
/// dropped); a field without `=` has none.
pub open spec fn field_of(field: Seq<char>) -> Option<(Seq<char>, Seq<char>)> {
    let parts = split_on(field, '=');
    if parts.len() >= 2 {
        Some((parts[0], parts[1]))
    } else {
        None
    }
}

/// The fields of a form body `k1=v1&k2=v2...`, in order.
pub open spec fn form_fields(parts: Seq<Seq<char>>) -> Seq<(Seq<char>, Seq<char>)>
    decreases parts.len(),
{
    if parts.len() == 0 {
        Seq::empty()
    } else {
        form_fields(parts.drop_last()) + match field_of(parts.last()) {
            Some(f) => seq![f],
            None => Seq::empty(),
        }
    }
}

/// The (raw) value of the last field named `key`.
pub open spec fn last_value(fields: Seq<(Seq<char>, Seq<char>)>, key: Seq<char>) -> Option<Seq<char>>
    decreases fields.len(),
{
    if fields.len() == 0 {
        None
    } else if fields.last().0 == key {
        Some(fields.last().1)
    } else {
        last_value(fields.drop_last(), key)
    }
}

/// The decoded value of the last field named `key`: empty where there is none or it
/// cannot be decoded.
pub open spec fn form_value(body: Seq<char>, key: Seq<char>) -> Seq<char> {
    match last_value(form_fields(split_on(body, '&')), key) {
        None => Seq::empty(),
        Some(v) => match url_decoded(v) {
            Some(d) => d,
            None => Seq::empty(),
        },
    }
}

/// The decoded value of the last field named `key` of a form body.
pub fn form_value_of(body: &str, key: &str) -> (r: String)
    ensures
        r@ == form_value(body@, key@),
{
    let parts = split_text(body, '&');
    let ghost all = parts@.map_values(|p: String| p@);
    let mut found: Option<String> = None;
    let mut i: usize = 0;
    while i < parts.len()
        invariant
            all == parts@.map_values(|p: String| p@),
            i <= parts@.len(),
            match found {
                Some(v) => last_value(form_fields(all.take(i as int)), key@) == Some(v@),
                None => last_value(form_fields(all.take(i as int)), key@) is None,
            },
        decreases parts@.len() - i,
    {
        assert(all.take(i as int + 1).drop_last() =~= all.take(i as int));
        assert(all.take(i as int + 1).last() == parts@[i as int]@);
        let ghost prev = form_fields(all.take(i as int));
        let pieces = split_text(parts[i].as_str(), '=');
        if pieces.len() >= 2 {
            let ghost f = (pieces@[0]@, pieces@[1]@);
            assert(form_fields(all.take(i as int + 1)) =~= prev.push(f));
            if same_text(pieces[0].as_str(), key) {
                found = Some(pieces[1].clone());
            } else {
                assert(prev.push(f).drop_last() =~= prev);
            }
        } else {
            assert(form_fields(all.take(i as int + 1)) =~= prev);
        }
        i += 1;
    }
    assert(all.take(i as int) =~= all);
    match found {
        None => String::new(),
        Some(v) => match url_decode(v.as_str()) {
            Some(d) => d,
            None => String::new(),
        },
    }
}

/// The network to join from the body of the settings form: its SSID and password, when
/// both are given.
pub fn wifi_credentials(body: &str) -> (r: Option<(String, String)>)
    ensures
        form_value(body@, "ssid"@).len() > 0 && form_value(body@, "password"@).len() > 0 ==> (r matches Some(
            (ssid, password),
        ) && ssid@ == form_value(body@, "ssid"@) && password@ == form_value(body@, "password"@)),
        !(form_value(body@, "ssid"@).len() > 0 && form_value(body@, "password"@).len() > 0) ==> r is None,
{
    let ssid = form_value_of(body, "ssid");
    let password = form_value_of(body, "password");
    if !ssid.as_str().is_empty() && !password.as_str().is_empty() {
        Some((ssid, password))
    } else {
        None
    }
}

/// The API token from the body of the app settings form (empty where none is given).
pub fn api_token(body: &str) -> (r: String)
    ensures
        r@ == form_value(body@, "api_token"@),
{
    form_value_of(body, "api_token")
}

#[verifier::external_type_specification]
#[verifier::external_body]
pub struct ExHeaplessString<const N: usize>(heapless::String<N>);

/// `heapless::String::<N>::try_from`. Claims what the crate's source shows: it fails
/// exactly where the text has more than `N` bytes.
#[verifier::external_body]
pub(crate) fn bounded<const N: usize>(s: &str) -> (r: Option<heapless::String<N>>)
    ensures
        r is Some <==> s.spec_bytes().len() <= N,
{
    heapless::String::<N>::try_from(s).ok()
}

/// The SSID and the password as the Wi-Fi driver takes them: at most 32 and 64 bytes;
/// `None` where either is longer.
pub fn client_credentials(ssid: &str, password: &str) -> (r: Option<(heapless::String<32>, heapless::String<64>)>)
    ensures
        r is Some <==> ssid.spec_bytes().len() <= 32 && password.spec_bytes().len() <= 64,
{
    match (bounded::<32>(ssid), bounded::<64>(password)) {
        (Some(s), Some(p)) => Some((s, p)),
        _ => None,
    }
}

/// What the query of a request to load a game holds.
#[derive(Debug)]
pub enum KeyQuery {
    /// No `key=` parameter.
    Missing,
    /// A `key=` parameter that cannot be decoded.
    Undecodable,
    /// The decoded key.
    Key(String),
}

/// The first parameter of a query that starts with `key=`.
pub open spec fn key_param(params: Seq<Seq<char>>) -> Option<Seq<char>>
    decreases params.len(),
{
    if params.len() == 0 {
        None
    } else if params[0].len() >= 4 && params[0].take(4) == "key="@ {
        Some(params[0])
    } else {
        key_param(params.drop_first())
    }
}

/// The key of the game to load from the URI of the request: the value of the first
/// query parameter that starts with `key=`, decoded.
pub open spec fn key_query(uri: Seq<char>) -> Option<Option<Seq<char>>> {
    let parts = split_on(uri, '?');
    if parts.len() < 2 {
        None
    } else {
        match key_param(split_on(parts[1], '&')) {
            None => None,
            Some(p) => Some(url_decoded(split_on(p, '=')[1])),
        }
    }
}

/// A text that holds the separator splits into two parts at least.
proof fn lemma_split_at_sep(s: Seq<char>, sep: char, i: int)
    requires
        0 <= i < s.len(),
        s[i] == sep,
    ensures
        split_on(s, sep).len() >= 2,
    decreases s.len(),
{
    if i == s.len() - 1 {
        lemma_split_nonempty(s.drop_last(), sep);
    } else {
        lemma_split_at_sep(s.drop_last(), sep, i);
    }
}

proof fn lemma_key_param_split(p: Seq<char>)
    requires
        p.len() >= 4,
        p.take(4) == "key="@,
    ensures
        split_on(p, '=').len() >= 2,
{
    reveal_strlit("key=");
    assert(p[3] == p.take(4)[3]);
    lemma_split_at_sep(p, '=', 3);
}

/// Reads the key of the game to load from the URI of a request.
pub fn game_key_from_uri(uri: &str) -> (r: KeyQuery)
    ensures
        match key_query(uri@) {
            None => r is Missing,
            Some(None) => r is Undecodable,
            Some(Some(k)) => r matches KeyQuery::Key(s) && s@ == k,
        },
{
    let parts = split_text(uri, '?');
    if parts.len() < 2 {
        return KeyQuery::Missing;
    }
    assert(parts@.map_values(|p: String| p@)[1] == parts@[1]@);
    let params = split_text(parts[1].as_str(), '&');
    let ghost all = params@.map_values(|p: String| p@);
    let mut i: usize = 0;
    assert(all.skip(0) =~= all);
    while i < params.len()
        invariant
            split_on(uri@, '?').len() >= 2,
            all == split_on(split_on(uri@, '?')[1], '&'),
            all == params@.map_values(|p: String| p@),
            i <= params@.len(),
            key_param(all) == key_param(all.skip(i as int)),
        decreases params@.len() - i,
    {
        assert(all.skip(i as int)[0] == params@[i as int]@);
        assert(all.skip(i as int).drop_first() =~= all.skip(i as int + 1));
        let p = chars_of(params[i].as_str());
        if p.len() >= 4 && p[0] == 'k' && p[1] == 'e' && p[2] == 'y' && p[3] == '=' {
            proof {
                reveal_strlit("key=");
                assert(p@.take(4) =~= "key="@);
                lemma_key_param_split(p@);
            }
            let pieces = split_text(params[i].as_str(), '=');
            assert(key_param(all.skip(i as int)) == Some(p@));
            assert(pieces@.map_values(|x: String| x@)[1] == pieces@[1]@);
            return match url_decode(pieces[1].as_str()) {
                Some(d) => KeyQuery::Key(d),
                None => KeyQuery::Undecodable,
            };
        }
        proof {
            reveal_strlit("key=");
            if p@.len() >= 4 {
                assert(p@.take(4) != "key="@) by {
                    if p@.take(4) == "key="@ {
                        assert(p@[0] == p@.take(4)[0]);
                        assert(p@[1] == p@.take(4)[1]);
                        assert(p@[2] == p@.take(4)[2]);
                        assert(p@[3] == p@.take(4)[3]);
                    }
                }
            }
        }
        i += 1;
    }
    KeyQuery::Missing
}

/// The symbol of a piece on the web page (filled for both sides; the side is a class).
pub open spec fn web_symbol(p: Option<Piece>) -> Seq<char> {
    match p {
        Some(Piece::Pawn) => "♟"@,
        Some(Piece::Rook) => "♜"@,
        Some(Piece::Knight) => "♞"@,
        Some(Piece::Bishop) => "♝"@,
        Some(Piece::Queen) => "♛"@,
        Some(Piece::King) => "♚"@,
        None => ""@,
    }
}

fn web_symbol_text(p: Option<Piece>) -> (r: &'static str)
    ensures
        r@ == web_symbol(p),
{
    match p {
        Some(Piece::Pawn) => "♟",
        Some(Piece::Rook) => "♜",
        Some(Piece::Knight) => "♞",
        Some(Piece::Bishop) => "♝",
        Some(Piece::Queen) => "♛",
        Some(Piece::King) => "♚",
        None => "",
    }
}

/// The content of the cell of `square`: the symbol, in a span whose class names the side.
pub open spec fn web_piece(fen: Seq<char>, square: u8) -> Seq<char> {
    let sym = web_symbol(piece_at(fen, square));
    match color_on_spec(fen, square) {
        Some(Color::White) => "<span class='white-piece'>"@ + sym + "</span>"@,
        Some(Color::Black) => "<span class='black-piece'>"@ + sym + "</span>"@,
        None => sym,
    }
}

/// The cell of rank `rank` and file `file` (from 0).
pub open spec fn web_cell(fen: Seq<char>, rank: int, file: int) -> Seq<char> {
    "<td class='"@ + (if (rank + file) % 2 == 0 { "dark-square"@ } else { "light-square"@ }) + "'>"@
        + web_piece(fen, (rank * 8 + file) as u8) + "</td>"@
}

/// The cells of the first `n` files of `rank`.
pub open spec fn web_cells(fen: Seq<char>, rank: int, n: int) -> Seq<char>
    decreases n,
{
    if n <= 0 {
        Seq::empty()
    } else {
        web_cells(fen, rank, n - 1) + web_cell(fen, rank, n - 1)
    }
}

/// The row of `rank`: its number, then its cells.
pub open spec fn web_row(fen: Seq<char>, rank: int) -> Seq<char> {
    "<tr><td class='coord'>"@ + seq![digit(rank + 1)] + "</td>"@ + web_cells(fen, rank, 8) + "</tr>"@
}

/// The rows of the `k` highest ranks, from rank 8 down.
pub open spec fn web_rows(fen: Seq<char>, k: int) -> Seq<char>
    decreases k,
{
    if k <= 0 {
        Seq::empty()
    } else {
        web_rows(fen, k - 1) + web_row(fen, 8 - k)
    }
}

/// The row of file letters under the board.
pub open spec fn files_row() -> Seq<char> {
    "<tr><td></td><td class='coord'>a</td><td class='coord'>b</td><td class='coord'>c</td><td class='coord'>d</td><td class='coord'>e</td><td class='coord'>f</td><td class='coord'>g</td><td class='coord'>h</td></tr>"@
}

/// The board of the position with FEN `fen` as an HTML table.
pub open spec fn board_table(fen: Seq<char>) -> Seq<char> {
    "<table>"@ + web_rows(fen, 8) + files_row() + "</table>"@
}

/// Appends the cell of rank `rank` and file `file`.
fn push_cell(v: &mut Vec<char>, position: &Position, rank: u8, file: u8)
    requires
        rank < 8,
        file < 8,
    ensures
        final(v)@ == old(v)@ + web_cell(position@, rank as int, file as int),
{
    push_text(v, "<td class='");
    if (rank + file) % 2 == 0 {
        push_text(v, "dark-square");
    } else {
        push_text(v, "light-square");
    }
    push_text(v, "'>");
    let square: u8 = rank * 8 + file;
    let sym = web_symbol_text(position.piece_on(square));
    match position.color_on(square) {
        Some(Color::White) => {
            push_text(v, "<span class='white-piece'>");
            push_text(v, sym);
            push_text(v, "</span>");
        },
        Some(Color::Black) => {
            push_text(v, "<span class='black-piece'>");
            push_text(v, sym);
            push_text(v, "</span>");
        },
        None => push_text(v, sym),
    }
    push_text(v, "</td>");
    assert(v@ =~= old(v)@ + web_cell(position@, rank as int, file as int));
}

/// The board of a position as an HTML table.
pub fn board_html(position: &Position) -> (r: String)
    ensures
        r@ == board_table(position@),
{
    let mut v: Vec<char> = Vec::new();
    push_text(&mut v, "<table>");
    let ghost head = v@;
    let mut k: u8 = 0;
    while k < 8
        invariant
            k <= 8,
            v@ == head + web_rows(position@, k as int),
        decreases 8 - k,
    {
        let rank: u8 = 7 - k;
        let ghost row_start = v@;
        push_text(&mut v, "<tr><td class='coord'>");
        v.push(digit_char(rank + 1));
        push_text(&mut v, "</td>");
        let ghost cells_start = v@;
        let mut file: u8 = 0;
        while file < 8
            invariant
                file <= 8,
                rank < 8,
                v@ == cells_start + web_cells(position@, rank as int, file as int),
            decreases 8 - file,
        {
            push_cell(&mut v, position, rank, file);
            file += 1;
            assert(v@ =~= cells_start + web_cells(position@, rank as int, file as int));
        }
        push_text(&mut v, "</tr>");
        assert(v@ =~= row_start + web_row(position@, rank as int));
        k += 1;
        assert(v@ =~= head + web_rows(position@, k as int));
    }
    push_text(&mut v, "<tr><td></td><td class='coord'>a</td><td class='coord'>b</td><td class='coord'>c</td><td class='coord'>d</td><td class='coord'>e</td><td class='coord'>f</td><td class='coord'>g</td><td class='coord'>h</td></tr>");
    push_text(&mut v, "</table>");
    string_of(v.as_slice())
}

/// How the web page names the state of a game.
pub open spec fn status_name(s: BoardStatus) -> Seq<char> {
    match s {
        BoardStatus::Checkmate => "Checkmate!"@,
        BoardStatus::Stalemate => "Stalemate"@,
        BoardStatus::Ongoing => "In progress"@,
    }
}

/// How the web page names a side.
pub open spec fn player_name(c: Color) -> Seq<char> {
    match c {
        Color::White => "White"@,
        Color::Black => "Black"@,
    }
}

/// What the web page is told of the game.
#[derive(Debug)]
pub struct GameData {
    pub status: String,
    pub active_player: String,
    pub is_loaded: bool,
    pub game_key: String,
    pub board_html: String,
}

/// What the web page is told: nothing while no game is loaded (no key or no game), else
/// the state of the game, the side to move, the key and the board.
pub fn game_data(game: Option<&crate::game::ChessGameState>, game_key: &str) -> (r: GameData)
    ensures
        (game_key@.len() == 0 || game is None) ==> !r.is_loaded && r.status@.len() == 0
            && r.active_player@.len() == 0 && r.game_key@.len() == 0 && r.board_html@.len() == 0,
        game_key@.len() > 0 ==> match game {
            Some(s) => r.is_loaded && r.status@ == status_name(board_status(s.current_position@))
                && r.active_player@ == player_name(s.active_player) && r.game_key@ == game_key@
                && r.board_html@ == board_table(s.current_position@),
            None => true,
        },
{
    let s = match game {
        Some(s) => s,
        None => return GameData {
            status: String::new(),
            active_player: String::new(),
            is_loaded: false,
            game_key: String::new(),
            board_html: String::new(),
        },
    };
    if game_key.is_empty() {
        return GameData {
            status: String::new(),
            active_player: String::new(),
            is_loaded: false,
            game_key: String::new(),
            board_html: String::new(),
        };
    }
    let status = match s.current_position.status() {
        BoardStatus::Checkmate => "Checkmate!".to_string(),
        BoardStatus::Stalemate => "Stalemate".to_string(),
        BoardStatus::Ongoing => "In progress".to_string(),
    };
    let active_player = match s.active_player {
        Color::White => "White".to_string(),
        Color::Black => "Black".to_string(),
    };
    GameData {
        status,
        active_player,
        is_loaded: true,
        game_key: game_key.to_string(),
        board_html: board_html(&s.current_position),
    }
}

} // verus!

verus! {

/// The place of a piece kind among Unicode's chess symbols: king, queen, rook, bishop,
/// knight, pawn.
pub open spec fn unicode_chess_index(k: Piece) -> u32 {
    match k {
        Piece::King => 0,
        Piece::Queen => 1,
        Piece::Rook => 2,
        Piece::Bishop => 3,
        Piece::Knight => 4,
        Piece::Pawn => 5,
    }
}

/// Each piece kind is drawn with its own Unicode chess symbol: on the web board every
/// piece with the filled symbol of its kind (from U+265A, the one the text picture draws
/// for a black piece), in the text picture a white piece with the outlined symbol of its
/// kind (from U+2654); an empty square has no symbol on the web board.
pub proof fn law_pieces_have_their_chess_symbols(k: Piece)
    ensures
        web_symbol(Some(k)).len() == 1,
        web_symbol(Some(k))[0] as u32 == 0x265A + unicode_chess_index(k),
        web_symbol(Some(k))[0] == piece_symbol(Some(Color::Black), Some(k)),
        piece_symbol(Some(Color::White), Some(k)) as u32 == 0x2654 + unicode_chess_index(k),
        web_symbol(None).len() == 0,
{
    reveal_strlit("♟");
    reveal_strlit("♜");
    reveal_strlit("♞");
    reveal_strlit("♝");
    reveal_strlit("♛");
    reveal_strlit("♚");
    reveal_strlit("");
}

} // verus!
