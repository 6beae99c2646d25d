//! Shared pieces of the BLE protocol: versioned frames, errors, and the cutting of the
//! byte stream into newline-terminated frames and into notification-sized chunks.
use vstd::prelude::*;
use crate::requester::ErrorMessage;
use crate::text::join_text;

verus! {

broadcast use vstd::string::group_string_axioms;

/// Version of the frame protocol.
pub const PROTOCOL_VERSION: u8 = 1;

/// Notifications stay within the lowest BLE ATT payload.
pub const MIN_MTU_PAYLOAD: usize = 20;

/// Incoming bytes that wait for a delimiter are dropped beyond this many.
pub const MAX_MULTI_FRAME_LEN: usize = 4096;

/// A versioned protocol message.
#[derive(Debug, Clone)]
pub struct Frame<T> {
    pub v: u8,
    pub msg: T,
}

impl<T> Frame<T> {
    /// A message in a frame of the current protocol version.
    pub fn new(msg: T) -> (r: Frame<T>)
        ensures
            r.v == PROTOCOL_VERSION,
            r.msg == msg,
    {
        Frame { v: PROTOCOL_VERSION, msg }
    }
}

/// Errors of BLE communication.
#[derive(Debug)]
pub enum BluetoothError {
    Transport(String),
    Timeout,
    Protocol(String),
}

impl ErrorMessage for BluetoothError {
    /// The error as the firmware reports it.
    fn message(&self) -> (r: String)
        ensures
            match self {
                BluetoothError::Transport(m) => r@ == "transport error: "@ + m@,
                BluetoothError::Timeout => r@ == "timeout waiting for response"@,
                BluetoothError::Protocol(m) => r@ == "protocol error: "@ + m@,
            },
    {
        match self {
            BluetoothError::Transport(m) => join_text("transport error: ", m.as_str()),
            BluetoothError::Timeout => "timeout waiting for response".to_string(),
            BluetoothError::Protocol(m) => join_text("protocol error: ", m.as_str()),
        }
    }
}

/// A frame delimiter: `\n` or `\r`.
pub open spec fn is_delimiter(b: u8) -> bool {
    b == 10 || b == 13
}

/// The complete frames of a byte stream: each ends at a delimiter.
pub open spec fn frames_of(s: Seq<u8>) -> Seq<Seq<u8>>
    decreases s.len(),
{
    if s.len() == 0 {
        Seq::empty()
    } else if is_delimiter(s.last()) {
        frames_of(s.drop_last()).push(rest_of(s.drop_last()).push(s.last()))
    } else {
        frames_of(s.drop_last())
    }
}

/// The bytes of a stream after its last delimiter.
pub open spec fn rest_of(s: Seq<u8>) -> Seq<u8>
    decreases s.len(),
{
    if s.len() == 0 {
        Seq::empty()
    } else if is_delimiter(s.last()) {
        Seq::empty()
    } else {
        rest_of(s.drop_last()).push(s.last())
    }
}

/// A frame: non-empty, a delimiter at its end and nowhere before.
pub open spec fn is_frame(f: Seq<u8>) -> bool {
    &&& f.len() > 0
    &&& is_delimiter(f.last())
    &&& forall|i: int| 0 <= i < f.len() - 1 ==> !is_delimiter(#[trigger] f[i])
}

/// The frames and the rest make up the stream; every frame is one, and the rest holds no
/// delimiter.
pub proof fn lemma_frames_cover(s: Seq<u8>)
    ensures
        frames_of(s).flatten() + rest_of(s) == s,
        forall|i: int| 0 <= i < frames_of(s).len() ==> is_frame(#[trigger] frames_of(s)[i]),
        forall|i: int| 0 <= i < rest_of(s).len() ==> !is_delimiter(#[trigger] rest_of(s)[i]),
    decreases s.len(),
{
    broadcast use Seq::lemma_flatten_push;

    if s.len() > 0 {
        let p = s.drop_last();
        lemma_frames_cover(p);
        assert(p.push(s.last()) =~= s);
        if is_delimiter(s.last()) {
            let f = rest_of(p).push(s.last());
            assert(frames_of(s) == frames_of(p).push(f));
            assert(frames_of(s).flatten() =~= frames_of(p).flatten() + f);
            assert(frames_of(s).flatten() + rest_of(s) =~= s);
            assert forall|i: int| 0 <= i < frames_of(s).len() implies is_frame(
                #[trigger] frames_of(s)[i],
            ) by {
                if i == frames_of(p).len() {
                    assert(frames_of(s)[i] == f);
                }
            }
        } else {
            assert(frames_of(s).flatten() + rest_of(s) =~= s);
        }
    }
}

/// Feeding a stream in two pieces gives the frames of the whole stream: the frames of the
/// first piece, then those of its leftover bytes followed by the second piece; the
/// leftover at the end is the same.
pub proof fn law_frames_split_anywhere(x: Seq<u8>, y: Seq<u8>)
    ensures
        frames_of(x + y) == frames_of(x) + frames_of(rest_of(x) + y),
        rest_of(x + y) == rest_of(rest_of(x) + y),
    decreases y.len(),
{
    if y.len() == 0 {
        assert(x + y =~= x);
        assert(rest_of(x) + y =~= rest_of(x));
        lemma_rest_is_fixed(x);
        assert(frames_of(x) + frames_of(rest_of(x)) =~= frames_of(x));
    } else {
        let y0 = y.drop_last();
        law_frames_split_anywhere(x, y0);
        assert((x + y).drop_last() =~= x + y0);
        assert((rest_of(x) + y).drop_last() =~= rest_of(x) + y0);
        assert((x + y).last() == y.last());
        assert((rest_of(x) + y).last() == y.last());
        if is_delimiter(y.last()) {
            assert(frames_of(x + y) =~= frames_of(x) + frames_of(rest_of(x) + y));
        }
    }
}

/// The leftover of a stream has no frames and is its own leftover.
pub proof fn lemma_rest_is_fixed(x: Seq<u8>)
    ensures
        frames_of(rest_of(x)) == Seq::<Seq<u8>>::empty(),
        rest_of(rest_of(x)) == rest_of(x),
    decreases x.len(),
{
    if x.len() > 0 {
        lemma_rest_is_fixed(x.drop_last());
        if !is_delimiter(x.last()) {
            let r = rest_of(x.drop_last());
            assert(rest_of(x) == r.push(x.last()));
            assert(rest_of(x).drop_last() =~= r);
        }
    }
}

/// Appends incoming bytes to `buffer` and takes out every complete frame (each ends with
/// its delimiter); the bytes after the last delimiter stay in `buffer`.
pub fn decode_chunked(data: &[u8], buffer: &mut Vec<u8>) -> (frames: Vec<Vec<u8>>)
    requires
        old(buffer)@.len() + data@.len() <= usize::MAX,
    ensures
        frames@.map_values(|f: Vec<u8>| f@) == frames_of(old(buffer)@ + data@),
        final(buffer)@ == rest_of(old(buffer)@ + data@),
{
    let ghost total = old(buffer)@ + data@;
    let mut frames: Vec<Vec<u8>> = Vec::new();
    let mut current: Vec<u8> = Vec::new();
    let old_len = buffer.len();
    let n = old_len + data.len();
    let mut i: usize = 0;
    while i < n
        invariant
            n == total.len(),
            old_len == old(buffer)@.len(),
            buffer@ == old(buffer)@,
            total == old(buffer)@ + data@,
            i <= n,
            frames@.map_values(|f: Vec<u8>| f@) == frames_of(total.take(i as int)),
            current@ == rest_of(total.take(i as int)),
        decreases n - i,
    {
        let b = if i < old_len {
            buffer[i]
        } else {
            data[i - old_len]
        };
        assert(b == total[i as int]);
        assert(total.take(i as int + 1).drop_last() =~= total.take(i as int));
        current.push(b);
        if b == 10 || b == 13 {
            let frame = current;
            current = Vec::new();
            let ghost before = frames@;
            frames.push(frame);
            proof {
                assert(frames@.map_values(|f: Vec<u8>| f@) =~= before.map_values(|f: Vec<u8>| f@).push(frame@));
            }
        }
        i += 1;
    }
    assert(total.take(n as int) =~= total);
    *buffer = current;
    frames
}

/// `decode_chunked` with the guard of the BLE write handler: when the waiting bytes and
/// the new ones together exceed `MAX_MULTI_FRAME_LEN`, the waiting bytes are dropped, and
/// a write that alone exceeds it is dropped too (no frames).
pub fn decode_guarded(data: &[u8], buffer: &mut Vec<u8>) -> (frames: Vec<Vec<u8>>)
    ensures
        old(buffer)@.len() + data@.len() <= MAX_MULTI_FRAME_LEN ==> frames@.map_values(
            |f: Vec<u8>| f@,
        ) == frames_of(old(buffer)@ + data@) && final(buffer)@ == rest_of(old(buffer)@ + data@),
        old(buffer)@.len() + data@.len() > MAX_MULTI_FRAME_LEN && data@.len()
            <= MAX_MULTI_FRAME_LEN ==> frames@.map_values(|f: Vec<u8>| f@) == frames_of(data@)
            && final(buffer)@ == rest_of(data@),
        data@.len() > MAX_MULTI_FRAME_LEN ==> frames@.len() == 0 && final(buffer)@.len() == 0,
{
    if buffer.len() > MAX_MULTI_FRAME_LEN || data.len() > MAX_MULTI_FRAME_LEN - buffer.len() {
        buffer.clear();
        if data.len() > MAX_MULTI_FRAME_LEN {
            return Vec::new();
        }
    }
    let ghost b = buffer@;
    let frames = decode_chunked(data, buffer);
    proof {
        if b.len() == 0 {
            assert(b + data@ =~= data@);
        }
    }
    frames
}

/// Cuts `data` into pieces of `size` bytes (the last may be shorter), in order.
pub fn chunks(data: &[u8], size: usize) -> (r: Vec<Vec<u8>>)
    requires
        size > 0,
    ensures
        r@.map_values(|c: Vec<u8>| c@).flatten() == data@,
        forall|i: int| 0 <= i < r@.len() ==> 0 < (#[trigger] r@[i])@.len() <= size,
        forall|i: int| 0 <= i < r@.len() - 1 ==> (#[trigger] r@[i])@.len() == size,
{
    broadcast use Seq::lemma_flatten_push;

    let mut r: Vec<Vec<u8>> = Vec::new();
    let mut start: usize = 0;
    while start < data.len()
        invariant
            size > 0,
            start <= data@.len(),
            r@.map_values(|c: Vec<u8>| c@).flatten() == data@.take(start as int),
            forall|i: int| 0 <= i < r@.len() ==> 0 < (#[trigger] r@[i])@.len() <= size,
            forall|i: int| 0 <= i < r@.len() ==> (#[trigger] r@[i])@.len() == size,
        decreases data.len() - start,
    {
        let end = if data.len() - start > size {
            start + size
        } else {
            data.len()
        };
        let mut chunk: Vec<u8> = Vec::new();
        let mut j = start;
        while j < end
            invariant
                start <= j <= end <= data@.len(),
                chunk@ == data@.subrange(start as int, j as int),
            decreases end - j,
        {
            chunk.push(data[j]);
            j += 1;
            assert(chunk@ =~= data@.subrange(start as int, j as int));
        }
        let ghost before = r@;
        r.push(chunk);
        proof {
            assert(r@.map_values(|c: Vec<u8>| c@) =~= before.map_values(|c: Vec<u8>| c@).push(
                data@.subrange(start as int, end as int),
            ));
            assert(data@.take(start as int) + data@.subrange(start as int, end as int) =~= data@.take(
                end as int,
            ));
            before.map_values(|c: Vec<u8>| c@).lemma_flatten_push(
                data@.subrange(start as int, end as int),
            );
        }
        if end == data.len() {
            start = end;
            assert(data@.take(start as int) =~= data@);
            return r;
        }
        start = end;
    }
    assert(data@.take(start as int) =~= data@);
    r
}

/// The bytes of an encoded message with the frame's `\n` at the end.
pub fn terminated(body: Vec<u8>) -> (r: Vec<u8>)
    ensures
        r@ == body@.push(10u8),
{
    let mut r = body;
    r.push(10u8);
    r
}

/// The index of the first delimiter in `s`, or its length if there is none.
pub open spec fn payload_len(s: Seq<u8>) -> nat
    decreases s.len(),
{
    if s.len() == 0 {
        0
    } else if is_delimiter(s[0]) {
        0
    } else {
        1 + payload_len(s.drop_first())
    }
}

/// The payload of a received frame: its bytes up to the first `\n` or `\r`.
pub fn frame_payload(frame: &[u8]) -> (r: Vec<u8>)
    ensures
        r@ == frame@.take(payload_len(frame@) as int),
        forall|i: int| 0 <= i < r@.len() ==> !is_delimiter(#[trigger] r@[i]),
{
    let mut r: Vec<u8> = Vec::new();
    let mut i: usize = 0;
    assert(frame@.skip(0) =~= frame@);
    while i < frame.len() && frame[i] != 10u8 && frame[i] != 13u8
        invariant
            i <= frame@.len(),
            r@ == frame@.take(i as int),
            payload_len(frame@) == i + payload_len(frame@.skip(i as int)),
            forall|j: int| 0 <= j < i ==> !is_delimiter(#[trigger] frame@[j]),
        decreases frame@.len() - i,
    {
        assert(frame@.skip(i as int).drop_first() =~= frame@.skip(i as int + 1));
        r.push(frame[i]);
        i += 1;
        assert(r@ =~= frame@.take(i as int));
    }
    proof {
        if i < frame@.len() {
            assert(frame@.skip(i as int)[0] == frame@[i as int]);
        }
        assert(payload_len(frame@.skip(i as int)) == 0);
    }
    r
}

} // verus!
