//! Requests over HTTP from the board. The HTTP client of ESP-IDF does the I/O; this module
//! holds the requester's data, its errors, and the decisions taken on what the client
//! returns: the status check, the cutting of the bytes read into valid UTF-8 text, and the
//! cutting of a stream into lines.
use vstd::prelude::*;
use vstd::utf8::{decode_utf8, valid_utf8};
use crate::requester::ErrorMessage;
use crate::text::{law_lines_split_anywhere, trim, trimmed, join_text, decimal, decimal_text, lines_of, line_rest, chars_of, string_of};

verus! {

broadcast use vstd::string::group_string_axioms;

/// Errors of a request. The errors of ESP-IDF are kept as their debug text.
#[derive(Debug)]
pub enum RequestError {
    Esp(String),
    EspIO(String),
    Status(u16),
    Read(String),
}

impl ErrorMessage for RequestError {
    /// The error as the firmware reports it.
    fn message(&self) -> (r: String)
        ensures
            match self {
                RequestError::Esp(e) => r@ == "ESP error: "@ + e@,
                RequestError::EspIO(e) => r@ == "ESP IO error: "@ + e@,
                RequestError::Status(code) => r@ == "HTTP status error: "@ + decimal(*code as nat),
                RequestError::Read(m) => r@ == "Read error: "@ + m@,
            },
    {
        match self {
            RequestError::Esp(e) => join_text("ESP error: ", e.as_str()),
            RequestError::EspIO(e) => join_text("ESP IO error: ", e.as_str()),
            RequestError::Status(code) => {
                let text = decimal_text(*code as u64);
                join_text("HTTP status error: ", text.as_str())
            },
            RequestError::Read(m) => join_text("Read error: ", m.as_str()),
        }
    }
}

/// A requester that authenticates with an API key.
pub struct EspRequester {
    api_key: String,
}

impl EspRequester {
    pub fn new(api_key: String) -> (r: EspRequester)
        ensures
            r.key() == api_key@,
    {
        EspRequester { api_key }
    }

    pub closed spec fn key(&self) -> Seq<char> {
        self.api_key@
    }

    /// The value of the `Authorization` header: `Bearer ` and the key.
    pub fn authorization(&self) -> (r: String)
        ensures
            r@ == "Bearer "@ + self.key(),
    {
        join_text("Bearer ", self.api_key.as_str())
    }
}

/// Whether a status is a success (200 to 299); other statuses are errors.
pub fn check_status(status: u16) -> (r: Result<(), RequestError>)
    ensures
        200 <= status <= 299 ==> r is Ok,
        !(200 <= status <= 299) ==> (r matches Err(RequestError::Status(s)) && s == status),
{
    if 200 <= status && status <= 299 {
        Ok(())
    } else {
        Err(RequestError::Status(status))
    }
}

/// `std::str::from_utf8`: the text of the bytes where they are valid UTF-8, else the
/// length of their longest valid prefix (`Utf8Error::valid_up_to`). Claims what the
/// documentation states: the text decodes the bytes, and no longer prefix than the one
/// given is valid.
#[verifier::external_body]
pub(crate) fn from_utf8(bytes: &[u8]) -> (r: Result<String, usize>)
    ensures
        match r {
            Ok(s) => valid_utf8(bytes@) && s@ == decode_utf8(bytes@),
            Err(k) => k < bytes@.len() && valid_utf8(bytes@.take(k as int)) && forall|j: int|
                k < j <= bytes@.len() ==> !valid_utf8(#[trigger] bytes@.take(j)),
        },
{
    std::str::from_utf8(bytes).map(|s| s.to_string()).map_err(|e| e.valid_up_to())
}

/// The length of the longest prefix of `bytes` that is valid UTF-8.
pub open spec fn valid_prefix_len(bytes: Seq<u8>, k: int) -> bool {
    &&& 0 <= k <= bytes.len()
    &&& valid_utf8(bytes.take(k))
    &&& forall|j: int| k < j <= bytes.len() ==> !valid_utf8(#[trigger] bytes.take(j))
}

/// Cuts the bytes read so far into the text of their longest valid UTF-8 prefix and the
/// bytes after it, which wait for the next read.
pub fn take_utf8(bytes: &[u8]) -> (r: (String, Vec<u8>))
    ensures
        exists|k: int| valid_prefix_len(bytes@, k) && r.0@ == decode_utf8(bytes@.take(k)) && r.1@
            == bytes@.skip(k),
{
    match from_utf8(bytes) {
        Ok(s) => {
            assert(bytes@.take(bytes@.len() as int) =~= bytes@);
            assert(bytes@.skip(bytes@.len() as int) =~= Seq::<u8>::empty());
            assert(valid_prefix_len(bytes@, bytes@.len() as int));
            (s, Vec::new())
        },
        Err(k) => {
            let mut head: Vec<u8> = Vec::new();
            let mut rest: Vec<u8> = Vec::new();
            let mut i: usize = 0;
            while i < bytes.len()
                invariant
                    k < bytes@.len(),
                    i <= bytes@.len(),
                    i <= k ==> head@ == bytes@.take(i as int) && rest@.len() == 0,
                    i > k ==> head@ == bytes@.take(k as int) && rest@ == bytes@.subrange(k as int, i as int),
                decreases bytes@.len() - i,
            {
                if i < k {
                    head.push(bytes[i]);
                    assert(head@ =~= bytes@.take(i as int + 1));
                } else {
                    rest.push(bytes[i]);
                    assert(rest@ =~= bytes@.subrange(k as int, i as int + 1));
                }
                i += 1;
            }
            assert(rest@ =~= bytes@.skip(k as int));
            assert(valid_prefix_len(bytes@, k as int));
            assert(head@.take(head@.len() as int) =~= head@);
            let text = match from_utf8(head.as_slice()) {
                Ok(t) => t,
                Err(_) => String::new(),
            };
            assert(text@ == decode_utf8(bytes@.take(k as int)));
            (text, rest)
        },
    }
}

/// The complete lines of a text, each without its `\n`, leaving out the empty ones.
pub open spec fn full_lines(lines: Seq<Seq<char>>) -> Seq<Seq<char>>
    decreases lines.len(),
{
    if lines.len() == 0 {
        Seq::empty()
    } else if lines.last().len() <= 1 {
        full_lines(lines.drop_last())
    } else {
        full_lines(lines.drop_last()).push(lines.last().drop_last())
    }
}

/// Taking the complete lines of two lists of lines is taking those of each.
pub proof fn lemma_full_lines_append(a: Seq<Seq<char>>, b: Seq<Seq<char>>)
    ensures
        full_lines(a + b) == full_lines(a) + full_lines(b),
    decreases b.len(),
{
    if b.len() == 0 {
        assert(a + b =~= a);
        assert(full_lines(a) + full_lines(b) =~= full_lines(a));
    } else {
        lemma_full_lines_append(a, b.drop_last());
        assert((a + b).drop_last() =~= a + b.drop_last());
        assert((a + b).last() == b.last());
        if b.last().len() > 1 {
            assert(full_lines(a + b) =~= full_lines(a) + full_lines(b));
        }
    }
}

/// The lines given out for a stream do not depend on how it is cut into reads: the text
/// of two reads gives the lines of the first, then those of what was left of it followed
/// by the second, and the same text is left at the end.
pub proof fn law_stream_lines_split_anywhere(x: Seq<char>, y: Seq<char>)
    ensures
        full_lines(lines_of(x + y)) == full_lines(lines_of(x)) + full_lines(
            lines_of(line_rest(x) + y),
        ),
        line_rest(x + y) == line_rest(line_rest(x) + y),
{
    law_lines_split_anywhere(x, y);
    lemma_full_lines_append(lines_of(x), lines_of(line_rest(x) + y));
}

/// Whether a text is empty once white space is trimmed (`str::trim`).
pub open spec fn blank(s: Seq<char>) -> bool {
    trimmed(s).len() == 0
}

/// Feeds text read from a stream: text that is blank is skipped (`None`; the reader keeps
/// its offset then); otherwise it is appended to `accumulated`, the complete lines that are
/// not empty are given out, and what follows the last `\n` stays in `accumulated`.
pub fn feed_stream(accumulated: &mut String, text: &str) -> (r: Option<Vec<String>>)
    requires
        old(accumulated)@.len() + text@.len() <= usize::MAX,
    ensures
        blank(text@) ==> r is None && final(accumulated)@ == old(accumulated)@,
        !blank(text@) ==> (r matches Some(v) && v@.map_values(|l: String| l@) == full_lines(
            lines_of(old(accumulated)@ + text@),
        )) && final(accumulated)@ == line_rest(old(accumulated)@ + text@),
{
    let trimmed_text = trim(text);
    if trimmed_text.as_str().is_empty() {
        return None;
    }
    let a = chars_of(accumulated.as_str());
    let b = chars_of(text);
    let ghost total = a@ + b@;
    let n = a.len() + b.len();
    let mut out: Vec<String> = Vec::new();
    let mut current: Vec<char> = Vec::new();
    let mut i: usize = 0;
    while i < n
        invariant
            n == total.len(),
            total == a@ + b@,
            i <= n,
            out@.map_values(|l: String| l@) == full_lines(lines_of(total.take(i as int))),
            current@ == line_rest(total.take(i as int)),
        decreases n - i,
    {
        let c = if i < a.len() { a[i] } else { b[i - a.len()] };
        assert(c == total[i as int]);
        assert(total.take(i as int + 1).drop_last() =~= total.take(i as int));
        let ghost prev = lines_of(total.take(i as int));
        if c == '\n' {
            proof {
                assert(lines_of(total.take(i as int + 1)) == prev.push(current@.push(c)));
                assert(prev.push(current@.push(c)).drop_last() =~= prev);
                assert(current@.push(c).drop_last() =~= current@);
            }
            if current.len() > 0 {
                let ghost before = out@;
                out.push(string_of(current.as_slice()));
                assert(out@.map_values(|l: String| l@) =~= before.map_values(|l: String| l@).push(
                    current@,
                ));
            }
            current = Vec::new();
        } else {
            current.push(c);
        }
        i += 1;
    }
    assert(total.take(n as int) =~= total);
    *accumulated = string_of(current.as_slice());
    Some(out)
}

/// What is left of a stream when it ends: the accumulated text, unless it is empty.
pub fn end_stream(accumulated: String) -> (r: Option<String>)
    ensures
        accumulated@.len() == 0 ==> r is None,
        accumulated@.len() > 0 ==> r == Some(accumulated),
{
    if accumulated.as_str().is_empty() {
        None
    } else {
        Some(accumulated)
    }
}

} // verus!
