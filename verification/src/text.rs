//! Text helpers: strings as sequences of characters, lines, and trimming.
use vstd::prelude::*;

verus! {

broadcast use vstd::string::group_string_axioms;

/// The characters of `s`.
pub fn chars_of(s: &str) -> (r: Vec<char>)
    ensures
        r@ == s@,
{
    let mut v: Vec<char> = Vec::new();
    for c in it: s.chars()
        invariant
            v@ == it.seq().take(it.index() as int),
            it.seq() == s@,
    {
        v.push(c);
        assert(v@ =~= it.seq().take(it.index() as int + 1));
    }
    v
}

/// `String::push`. Claims what the documentation states: the character is appended.
#[verifier::external_body]
pub(crate) fn push_char(s: &mut String, c: char)
    ensures
        final(s)@ == old(s)@.push(c),
{
    s.push(c)
}

/// A string of the characters `chars`.
pub fn string_of(chars: &[char]) -> (r: String)
    ensures
        r@ == chars@,
{
    let mut s = String::new();
    let mut i: usize = 0;
    while i < chars.len()
        invariant
            i <= chars@.len(),
            s@ == chars@.take(i as int),
        decreases chars@.len() - i,
    {
        push_char(&mut s, chars[i]);
        i += 1;
        assert(s@ =~= chars@.take(i as int));
    }
    assert(chars@.take(chars@.len() as int) =~= chars@);
    s
}

/// Unicode white space (the `White_Space` property): tab, line feed, vertical tab, form
/// feed, carriage return, space, next line, no-break space, ogham space mark, the spaces
/// from en quad to hair space, line separator, paragraph separator, narrow no-break space,
/// medium mathematical space and ideographic space.
pub open spec fn is_space(c: char) -> bool {
    ('\t' <= c <= '\r') || c == ' ' || c == '\u{85}' || c == '\u{a0}' || c == '\u{1680}' || (
    '\u{2000}' <= c <= '\u{200a}') || c == '\u{2028}' || c == '\u{2029}' || c == '\u{202f}' || c
        == '\u{205f}' || c == '\u{3000}'
}

/// The text without its leading white space.
pub open spec fn trimmed_start(s: Seq<char>) -> Seq<char>
    decreases s.len(),
{
    if s.len() > 0 && is_space(s[0]) {
        trimmed_start(s.drop_first())
    } else {
        s
    }
}

/// The text without its trailing white space.
pub open spec fn trimmed_end(s: Seq<char>) -> Seq<char>
    decreases s.len(),
{
    if s.len() > 0 && is_space(s.last()) {
        trimmed_end(s.drop_last())
    } else {
        s
    }
}

/// `str::trim`: the text without leading and trailing Unicode white space.
pub open spec fn trimmed(s: Seq<char>) -> Seq<char> {
    trimmed_end(trimmed_start(s))
}

/// Whether the character is Unicode white space (as `char::is_whitespace`).
pub fn is_whitespace(c: char) -> (r: bool)
    ensures
        r == is_space(c),
{
    ('\t' <= c && c <= '\r') || c == ' ' || c == '\u{85}' || c == '\u{a0}' || c == '\u{1680}' || (
    '\u{2000}' <= c && c <= '\u{200a}') || c == '\u{2028}' || c == '\u{2029}' || c == '\u{202f}'
        || c == '\u{205f}' || c == '\u{3000}'
}

/// The text without leading and trailing Unicode white space (as `str::trim`).
pub fn trim(s: &str) -> (r: String)
    ensures
        r@ == trimmed(s@),
{
    let chars = chars_of(s);
    let n = chars.len();
    let mut start: usize = 0;
    assert(s@.skip(0) =~= s@);
    while start < n && is_whitespace(chars[start])
        invariant
            chars@ == s@,
            n == s@.len(),
            start <= n,
            trimmed_start(s@) == trimmed_start(s@.skip(start as int)),
        decreases n - start,
    {
        assert(s@.skip(start as int).drop_first() =~= s@.skip(start as int + 1));
        start += 1;
    }
    assert(trimmed_start(s@) == s@.skip(start as int)) by {
        if start == n {
            assert(s@.skip(start as int) =~= Seq::<char>::empty());
        }
    }
    assert(s@.skip(start as int) =~= s@.subrange(start as int, n as int));
    let mut end: usize = n;
    while end > start && is_whitespace(chars[end - 1])
        invariant
            chars@ == s@,
            n == s@.len(),
            start <= end <= n,
            trimmed(s@) == trimmed_end(s@.subrange(start as int, end as int)),
        decreases end - start,
    {
        assert(s@.subrange(start as int, end as int).drop_last() =~= s@.subrange(
            start as int,
            end as int - 1,
        ));
        end -= 1;
    }
    assert(trimmed(s@) == s@.subrange(start as int, end as int)) by {
        if end == start {
            assert(s@.subrange(start as int, end as int) =~= Seq::<char>::empty());
        }
    }
    let mut v: Vec<char> = Vec::new();
    let mut i: usize = start;
    while i < end
        invariant
            chars@ == s@,
            start <= i <= end <= n,
            n == s@.len(),
            v@ == s@.subrange(start as int, i as int),
        decreases end - i,
    {
        v.push(chars[i]);
        i += 1;
        assert(v@ =~= s@.subrange(start as int, i as int));
    }
    string_of(v.as_slice())
}

/// The complete lines of a text, each with its `\n`.
pub open spec fn lines_of(s: Seq<char>) -> Seq<Seq<char>>
    decreases s.len(),
{
    if s.len() == 0 {
        Seq::empty()
    } else if s.last() == '\n' {
        lines_of(s.drop_last()).push(line_rest(s.drop_last()).push(s.last()))
    } else {
        lines_of(s.drop_last())
    }
}

/// The text after the last `\n`.
pub open spec fn line_rest(s: Seq<char>) -> Seq<char>
    decreases s.len(),
{
    if s.len() == 0 {
        Seq::empty()
    } else if s.last() == '\n' {
        Seq::empty()
    } else {
        line_rest(s.drop_last()).push(s.last())
    }
}

/// The trimmed lines that are not empty.
pub open spec fn cleaned(lines: Seq<Seq<char>>) -> Seq<Seq<char>>
    decreases lines.len(),
{
    if lines.len() == 0 {
        Seq::empty()
    } else if trimmed(lines.last()).len() == 0 {
        cleaned(lines.drop_last())
    } else {
        cleaned(lines.drop_last()).push(trimmed(lines.last()))
    }
}

/// Appends `chunk` to `buffer` and takes out the complete lines, trimmed, leaving out
/// those that are empty after trimming; the text after the last `\n` stays in `buffer`.
pub fn complete_lines(buffer: &mut String, chunk: &str) -> (r: Vec<String>)
    requires
        old(buffer)@.len() + chunk@.len() <= usize::MAX,
    ensures
        r@.map_values(|l: String| l@) == cleaned(lines_of(old(buffer)@ + chunk@)),
        final(buffer)@ == line_rest(old(buffer)@ + chunk@),
{
    let a = chars_of(buffer.as_str());
    let b = chars_of(chunk);
    let ghost total = a@ + b@;
    let mut out: Vec<String> = Vec::new();
    let mut current: Vec<char> = Vec::new();
    let n = a.len() + b.len();
    let mut i: usize = 0;
    while i < n
        invariant
            n == total.len(),
            total == a@ + b@,
            i <= n,
            out@.map_values(|l: String| l@) == cleaned(lines_of(total.take(i as int))),
            current@ == line_rest(total.take(i as int)),
        decreases n - i,
    {
        let c = if i < a.len() {
            a[i]
        } else {
            b[i - a.len()]
        };
        assert(c == total[i as int]);
        assert(total.take(i as int + 1).drop_last() =~= total.take(i as int));
        let ghost prev_lines = lines_of(total.take(i as int));
        current.push(c);
        if c == '\n' {
            proof {
                assert(lines_of(total.take(i as int + 1)) == prev_lines.push(current@));
                assert(prev_lines.push(current@).drop_last() =~= prev_lines);
            }
            let line = string_of(current.as_slice());
            let cleaned_line = trim(line.as_str());
            current = Vec::new();
            if !cleaned_line.as_str().is_empty() {
                let ghost before = out@;
                out.push(cleaned_line);
                assert(out@.map_values(|l: String| l@) =~= before.map_values(|l: String| l@).push(
                    cleaned_line@,
                ));
            }
        }
        i += 1;
    }
    assert(total.take(n as int) =~= total);
    *buffer = string_of(current.as_slice());
    out
}

} // verus!

verus! {

/// The text `a` followed by the text `b`.
pub fn join_text(a: &str, b: &str) -> (r: String)
    ensures
        r@ == a@ + b@,
{
    let mut v = chars_of(a);
    let w = chars_of(b);
    let ghost before = v@;
    let mut i: usize = 0;
    while i < w.len()
        invariant
            i <= w@.len(),
            v@ == before + w@.take(i as int),
        decreases w@.len() - i,
    {
        v.push(w[i]);
        i += 1;
        assert(v@ =~= before + w@.take(i as int));
    }
    assert(w@.take(w@.len() as int) =~= w@);
    string_of(v.as_slice())
}

} // verus!

verus! {

/// Whether the two texts are the same.
pub fn same_text(a: &str, b: &str) -> (r: bool)
    ensures
        r == (a@ == b@),
{
    let x = chars_of(a);
    let y = chars_of(b);
    if x.len() != y.len() {
        return false;
    }
    let mut i: usize = 0;
    while i < x.len()
        invariant
            x@ == a@,
            y@ == b@,
            x@.len() == y@.len(),
            i <= x@.len(),
            x@.take(i as int) == y@.take(i as int),
        decreases x@.len() - i,
    {
        if x[i] != y[i] {
            assert(a@[i as int] != b@[i as int]);
            return false;
        }
        i += 1;
        assert(x@.take(i as int) =~= y@.take(i as int));
    }
    assert(x@ =~= x@.take(i as int));
    assert(y@ =~= y@.take(i as int));
    true
}

} // verus!

verus! {

/// Appends the characters of `s` to `v`.
pub fn push_text(v: &mut Vec<char>, s: &str)
    ensures
        final(v)@ == old(v)@ + s@,
{
    let w = chars_of(s);
    let mut i: usize = 0;
    while i < w.len()
        invariant
            i <= w@.len(),
            v@ == old(v)@ + w@.take(i as int),
            w@ == s@,
        decreases w@.len() - i,
    {
        v.push(w[i]);
        i += 1;
        assert(v@ =~= old(v)@ + w@.take(i as int));
    }
    assert(w@.take(w@.len() as int) =~= w@);
}

/// The decimal digit `d`.
pub open spec fn digit(d: int) -> char {
    if d == 0 { '0' } else if d == 1 { '1' } else if d == 2 { '2' } else if d == 3 { '3' }
    else if d == 4 { '4' } else if d == 5 { '5' } else if d == 6 { '6' } else if d == 7 { '7' }
    else if d == 8 { '8' } else { '9' }
}

/// The decimal digit `d`.
pub fn digit_char(d: u8) -> (r: char)
    requires
        d < 10,
    ensures
        r == digit(d as int),
{
    if d == 0 { '0' } else if d == 1 { '1' } else if d == 2 { '2' } else if d == 3 { '3' }
    else if d == 4 { '4' } else if d == 5 { '5' } else if d == 6 { '6' } else if d == 7 { '7' }
    else if d == 8 { '8' } else { '9' }
}

/// The decimal text of `n`, below a hundred.
pub open spec fn small_decimal(n: int) -> Seq<char> {
    if n < 10 {
        seq![digit(n)]
    } else {
        seq![digit(n / 10), digit(n % 10)]
    }
}

} // verus!

verus! {

/// The text after the last space.
pub open spec fn tail_word(s: Seq<char>) -> Seq<char>
    decreases s.len(),
{
    if s.len() == 0 {
        Seq::empty()
    } else if s.last() == ' ' {
        Seq::empty()
    } else {
        tail_word(s.drop_last()).push(s.last())
    }
}

/// The words of `s` that a space ends, without the empty ones.
pub open spec fn ended_words(s: Seq<char>) -> Seq<Seq<char>>
    decreases s.len(),
{
    if s.len() == 0 {
        Seq::empty()
    } else if s.last() == ' ' {
        ended_words(s.drop_last()) + if tail_word(s.drop_last()).len() > 0 {
            seq![tail_word(s.drop_last())]
        } else {
            Seq::empty()
        }
    } else {
        ended_words(s.drop_last())
    }
}

/// The parts of `s` between single spaces, without the empty ones (`split(" ")`, then the
/// empty parts left out).
pub open spec fn words(s: Seq<char>) -> Seq<Seq<char>> {
    ended_words(s) + if tail_word(s).len() > 0 {
        seq![tail_word(s)]
    } else {
        Seq::empty()
    }
}

/// The parts of `text` between single spaces, without the empty ones.
pub fn split_words(text: &str) -> (r: Vec<String>)
    ensures
        r@.map_values(|w: String| w@) == words(text@),
{
    let t = chars_of(text);
    let mut out: Vec<String> = Vec::new();
    let mut current: Vec<char> = Vec::new();
    let mut i: usize = 0;
    while i < t.len()
        invariant
            t@ == text@,
            i <= t@.len(),
            out@.map_values(|w: String| w@) == ended_words(t@.take(i as int)),
            current@ == tail_word(t@.take(i as int)),
        decreases t@.len() - i,
    {
        let c = t[i];
        assert(t@.take(i as int + 1).drop_last() =~= t@.take(i as int));
        assert(t@.take(i as int + 1).last() == c);
        if c == ' ' {
            if current.len() > 0 {
                let ghost before = out@;
                out.push(string_of(current.as_slice()));
                assert(out@.map_values(|w: String| w@) =~= before.map_values(|w: String| w@)
                    + seq![current@]);
            } else {
                assert(ended_words(t@.take(i as int + 1)) =~= ended_words(t@.take(i as int)));
            }
            current = Vec::new();
        } else {
            current.push(c);
        }
        i += 1;
    }
    assert(t@.take(i as int) =~= text@);
    if current.len() > 0 {
        let ghost before = out@;
        out.push(string_of(current.as_slice()));
        assert(out@.map_values(|w: String| w@) =~= before.map_values(|w: String| w@) + seq![
            current@,
        ]);
    } else {
        assert(words(text@) =~= ended_words(text@));
    }
    out
}

} // verus!

verus! {

/// The decimal text of `n`.
pub open spec fn decimal(n: nat) -> Seq<char>
    decreases n,
{
    if n < 10 {
        seq![digit(n as int)]
    } else {
        decimal(n / 10).push(digit((n % 10) as int))
    }
}

/// The decimal text of `n`.
pub fn decimal_text(n: u64) -> (r: String)
    ensures
        r@ == decimal(n as nat),
{
    let mut rev: Vec<char> = Vec::new();
    let mut m = n;
    // rev holds the last digits of n, lowest first; m is what is left.
    while m >= 10
        invariant
            decimal(n as nat) == decimal(m as nat) + rev@.reverse(),
        decreases m,
    {
        let d = (m % 10) as u8;
        rev.push(digit_char(d));
        proof {
            assert(decimal(m as nat) == decimal((m / 10) as nat).push(digit((m % 10) as int)));
            assert(rev@.reverse() =~= seq![digit((m % 10) as int)] + rev@.drop_last().reverse());
        }
        m = m / 10;
    }
    let mut out: Vec<char> = Vec::new();
    out.push(digit_char(m as u8));
    let mut i: usize = rev.len();
    while i > 0
        invariant
            i <= rev@.len(),
            out@ == seq![digit(m as int)] + rev@.skip(i as int).reverse(),
        decreases i,
    {
        i -= 1;
        out.push(rev[i]);
        assert(rev@.skip(i as int).reverse() =~= rev@.skip(i as int + 1).reverse().push(rev@[i as int]));
    }
    assert(rev@.skip(0) =~= rev@);
    string_of(out.as_slice())
}

} // verus!

verus! {

/// The text after the last `\n` has no complete line and is its own rest.
pub proof fn lemma_line_rest_is_fixed(x: Seq<char>)
    ensures
        lines_of(line_rest(x)) == Seq::<Seq<char>>::empty(),
        line_rest(line_rest(x)) == line_rest(x),
    decreases x.len(),
{
    if x.len() > 0 {
        lemma_line_rest_is_fixed(x.drop_last());
        if x.last() != '\n' {
            let r = line_rest(x.drop_last());
            assert(line_rest(x) == r.push(x.last()));
            assert(line_rest(x).drop_last() =~= r);
        }
    }
}

/// Cleaning the lines of two parts is cleaning each part.
pub proof fn lemma_cleaned_append(a: Seq<Seq<char>>, b: Seq<Seq<char>>)
    ensures
        cleaned(a + b) == cleaned(a) + cleaned(b),
    decreases b.len(),
{
    if b.len() == 0 {
        assert(a + b =~= a);
        assert(cleaned(a) + cleaned(b) =~= cleaned(a));
    } else {
        lemma_cleaned_append(a, b.drop_last());
        assert((a + b).drop_last() =~= a + b.drop_last());
        assert((a + b).last() == b.last());
        if trimmed(b.last()).len() == 0 {
        } else {
            assert(cleaned(a + b) =~= cleaned(a) + cleaned(b));
        }
    }
}

/// A text fed in two pieces gives the lines of the whole text: the lines of the first
/// piece, then those of its rest followed by the second piece; the rest at the end is the
/// same. So the lines that `complete_lines` gives out do not depend on how a stream is cut
/// into chunks.
pub proof fn law_lines_split_anywhere(x: Seq<char>, y: Seq<char>)
    ensures
        lines_of(x + y) == lines_of(x) + lines_of(line_rest(x) + y),
        line_rest(x + y) == line_rest(line_rest(x) + y),
        cleaned(lines_of(x + y)) == cleaned(lines_of(x)) + cleaned(lines_of(line_rest(x) + y)),
    decreases y.len(),
{
    if y.len() == 0 {
        assert(x + y =~= x);
        assert(line_rest(x) + y =~= line_rest(x));
        lemma_line_rest_is_fixed(x);
        assert(lines_of(x) + lines_of(line_rest(x)) =~= lines_of(x));
    } else {
        let y0 = y.drop_last();
        law_lines_split_anywhere(x, y0);
        assert((x + y).drop_last() =~= x + y0);
        assert((line_rest(x) + y).drop_last() =~= line_rest(x) + y0);
        assert((x + y).last() == y.last());
        assert((line_rest(x) + y).last() == y.last());
        if y.last() == '\n' {
            assert(lines_of(x + y) =~= lines_of(x) + lines_of(line_rest(x) + y));
        }
    }
    lemma_cleaned_append(lines_of(x), lines_of(line_rest(x) + y));
}

} // verus!
