//! The frame codec: a frame is a four-byte length prefix in the machine's byte
//! order followed by exactly that many bytes of UTF-8 JSON.
use vstd::endian::{endianness, Endian};
use vstd::prelude::*;
use vstd::utf8::{decode_utf8, encode_utf8, encode_utf8_decode_utf8, encode_utf8_valid_utf8, valid_utf8};

use crate::error::{IoErrorKind, NmError};
use crate::prefix::{le_value, lemma_ne_round_trip, ne_bytes, ne_value, u32_from_ne_bytes, u32_to_ne_bytes};

verus! {

/// Largest JSON payload, in bytes, that the host sends to the browser.
pub const MAX_TO_BROWSER: usize = 1048576;

/// Largest JSON payload, in bytes, that the host accepts from the browser.
pub const MAX_FROM_BROWSER: usize = 67108864;

/// The frame that carries `payload`.
pub open spec fn frame_of(payload: Seq<u8>) -> Seq<u8> {
    ne_bytes(payload.len() as u32) + payload
}

/// The frame that carries the UTF-8 encoding of `text`.
pub open spec fn json_frame(text: Seq<char>) -> Seq<u8> {
    frame_of(encode_utf8(text))
}

/// The incoming cap in force when a caller asks for at most `max_size` bytes:
/// a caller may narrow the global cap, never widen it.
pub open spec fn effective_cap(max_size: usize) -> usize {
    if max_size < MAX_FROM_BROWSER {
        max_size
    } else {
        MAX_FROM_BROWSER
    }
}

/// What reading a length prefix from the bytes `head` decides: `None` when fewer
/// than four bytes are there (the stream ended), else the claimed length if it
/// is within the cap.
pub open spec fn prefix_spec(head: Seq<u8>, max_size: usize) -> Result<Option<usize>, NmError> {
    if head.len() < 4 {
        Ok(None)
    } else if ne_value(head) as usize > effective_cap(max_size) {
        Err(NmError::IncomingTooLarge { len: ne_value(head) as usize, max: effective_cap(max_size) })
    } else {
        Ok(Some(ne_value(head) as usize))
    }
}

/// What decoding one frame from the stream bytes `rem` yields, and how many
/// bytes of `rem` it consumes.
pub open spec fn decode_spec(rem: Seq<u8>, max_size: usize) -> (Result<Option<Seq<char>>, NmError>, int) {
    match prefix_spec(rem, max_size) {
        Ok(None) => (Ok(None), rem.len() as int),
        Err(e) => (Err(e), 4),
        Ok(Some(len)) => if rem.len() < 4 + len {
            (Err(NmError::Io(IoErrorKind::UnexpectedEof)), rem.len() as int)
        } else if valid_utf8(rem.subrange(4, 4 + len)) {
            (Ok(Some(decode_utf8(rem.subrange(4, 4 + len)))), 4 + len)
        } else {
            (Err(NmError::IncomingNotUtf8), 4 + len)
        },
    }
}

/// The view of a decoded message.
pub open spec fn text_result(r: Result<Option<String>, NmError>) -> Result<Option<Seq<char>>, NmError> {
    match r {
        Ok(Some(s)) => Ok(Some(s@)),
        Ok(None) => Ok(None),
        Err(e) => Err(e),
    }
}

/// Relies on `String::from_utf8`: it succeeds exactly on valid UTF-8 and then
/// holds the characters that the bytes encode.
#[verifier::external_body]
fn string_from_utf8(b: Vec<u8>) -> (r: Option<String>)
    ensures
        r is Some <==> valid_utf8(b@),
        r is Some ==> r->0@ == decode_utf8(b@),
{
    String::from_utf8(b).ok()
}

/// Frames a JSON text: the length prefix, then the text's bytes. Fails, writing
/// nothing, when the text is longer than the outgoing cap.
pub fn encode_frame(json: &str) -> (r: Result<Vec<u8>, NmError>)
    ensures
        match r {
            Ok(f) => encode_utf8(json@).len() <= MAX_TO_BROWSER && f@ == json_frame(json@),
            Err(e) => encode_utf8(json@).len() > MAX_TO_BROWSER && match e {
                NmError::OutgoingTooLarge { len, max } => len == encode_utf8(json@).len()
                    && max == MAX_TO_BROWSER,
                _ => false,
            },
        },
{
    let bytes = json.as_bytes();
    let n = bytes.len();
    if n > MAX_TO_BROWSER {
        return Err(NmError::OutgoingTooLarge { len: n, max: MAX_TO_BROWSER });
    }
    let head = u32_to_ne_bytes(n as u32);
    proof {
        lemma_ne_round_trip(n as u32);
    }
    let mut out: Vec<u8> = Vec::with_capacity(4 + n);
    let mut i: usize = 0;
    while i < 4
        invariant
            i <= 4,
            head@ == ne_bytes(n as u32),
            head@.len() == 4,
            out@ == head@.take(i as int),
        decreases 4 - i,
    {
        out.push(head[i]);
        i = i + 1;
    }
    let mut j: usize = 0;
    while j < n
        invariant
            j <= n,
            n == bytes@.len(),
            out@ == head@ + bytes@.take(j as int),
        decreases n - j,
    {
        out.push(bytes[j]);
        j = j + 1;
        proof {
            assert(bytes@.take(j as int) =~= bytes@.take(j - 1).push(bytes@[j - 1]));
        }
    }
    assert(bytes@.take(n as int) =~= bytes@);
    assert(head@.take(4) =~= head@);
    Ok(out)
}

/// Reads a length prefix from the first bytes of a stream. Fewer than four
/// bytes mean the stream ended, which is no error; a claimed length above
/// `min(max_size, MAX_FROM_BROWSER)` is refused before any body is read.
pub fn read_length_prefix(head: &[u8], max_size: usize) -> (r: Result<Option<usize>, NmError>)
    ensures
        r == prefix_spec(head@, max_size),
{
    if head.len() < 4 {
        return Ok(None);
    }
    let b: [u8; 4] = [head[0], head[1], head[2], head[3]];
    let v = u32_from_ne_bytes(b);
    proof {
        assert(b@ =~= head@.take(4));
        assert(b@.take(4) =~= head@.take(4));
    }
    let len = v as usize;
    let cap = if max_size < MAX_FROM_BROWSER {
        max_size
    } else {
        MAX_FROM_BROWSER
    };
    if len > cap {
        Err(NmError::IncomingTooLarge { len, max: cap })
    } else {
        Ok(Some(len))
    }
}

/// Turns a complete frame body into the message it carries: the body must be
/// valid UTF-8 (it need not be valid JSON).
pub fn message_from_body(body: Vec<u8>) -> (r: Result<String, NmError>)
    ensures
        match r {
            Ok(s) => valid_utf8(body@) && s@ == decode_utf8(body@),
            Err(e) => !valid_utf8(body@) && e == NmError::IncomingNotUtf8,
        },
{
    match string_from_utf8(body) {
        Some(s) => Ok(s),
        None => Err(NmError::IncomingNotUtf8),
    }
}

/// A length prefix is read from the first four bytes of a stream alone.
proof fn lemma_ne_value_head(a: Seq<u8>, b: Seq<u8>)
    requires
        a.len() >= 4,
        b.len() >= 4,
        a.take(4) == b.take(4),
    ensures
        ne_value(a) == ne_value(b),
{
    match endianness() {
        Endian::Little => {
            assert(a[0] == a.take(4)[0] && a[1] == a.take(4)[1]);
            assert(a[2] == a.take(4)[2] && a[3] == a.take(4)[3]);
            assert(b[0] == b.take(4)[0] && b[1] == b.take(4)[1]);
            assert(b[2] == b.take(4)[2] && b[3] == b.take(4)[3]);
            assert(le_value(a) == le_value(b));
        },
        Endian::Big => {},
    }
}

/// The stream `frame_of(payload) + rest` begins with the prefix of `payload`.
proof fn lemma_frame_head(payload: Seq<u8>, rest: Seq<u8>)
    requires
        payload.len() <= u32::MAX,
    ensures
        frame_of(payload).len() == 4 + payload.len(),
        ne_value(frame_of(payload) + rest) == payload.len(),
        (frame_of(payload) + rest).subrange(4, 4 + payload.len() as int) == payload,
{
    let n = payload.len() as u32;
    lemma_ne_round_trip(n);
    let s = frame_of(payload) + rest;
    assert(s.take(4) =~= ne_bytes(n).take(4));
    lemma_ne_value_head(s, ne_bytes(n));
    assert(s.subrange(4, 4 + payload.len() as int) =~= payload);
}

/// Length prefix: the first four bytes of a frame, read in the machine's byte
/// order, give the length of the frame less four.
pub proof fn lemma_length_prefix(payload: Seq<u8>)
    requires
        payload.len() <= u32::MAX,
    ensures
        ne_value(frame_of(payload)) == frame_of(payload).len() - 4,
{
    lemma_frame_head(payload, Seq::empty());
    assert(frame_of(payload) + Seq::empty() =~= frame_of(payload));
}

/// Round trip: decoding the frame of a text no longer than the outgoing cap,
/// with any cap that admits it and whatever follows it on the stream, gives back
/// the text and consumes exactly the frame.
pub proof fn lemma_round_trip(text: Seq<char>, rest: Seq<u8>, max_size: usize)
    requires
        encode_utf8(text).len() <= MAX_TO_BROWSER,
        encode_utf8(text).len() <= max_size,
    ensures
        decode_spec(json_frame(text) + rest, max_size) == (
            Ok::<Option<Seq<char>>, NmError>(Some(text)),
            json_frame(text).len() as int,
        ),
{
    let payload = encode_utf8(text);
    lemma_frame_head(payload, rest);
    encode_utf8_valid_utf8(text);
    encode_utf8_decode_utf8(text);
}

/// Clean end: a stream that holds fewer than four bytes, none included, ends
/// without error and is consumed.
pub proof fn lemma_short_stream_ends(rem: Seq<u8>, max_size: usize)
    requires
        rem.len() < 4,
    ensures
        decode_spec(rem, max_size) == (Ok::<Option<Seq<char>>, NmError>(None), rem.len() as int),
{
}

/// Truncated body: a prefix within the cap followed by fewer body bytes than
/// it claims is an I/O error, not a clean end.
pub proof fn lemma_truncated_body(len: u32, body: Seq<u8>, max_size: usize)
    requires
        len <= effective_cap(max_size),
        body.len() < len,
    ensures
        decode_spec(ne_bytes(len) + body, max_size).0 == Err::<Option<Seq<char>>, NmError>(
            NmError::Io(IoErrorKind::UnexpectedEof),
        ),
{
    lemma_ne_round_trip(len);
    let s = ne_bytes(len) + body;
    assert(s.take(4) =~= ne_bytes(len).take(4));
    lemma_ne_value_head(s, ne_bytes(len));
}

/// Cap narrowing: the cap in force is the smaller of the caller's and the
/// global one, and a claimed length above it is refused with that cap after
/// the four prefix bytes alone.
pub proof fn lemma_cap_narrowing(rem: Seq<u8>, max_size: usize)
    requires
        rem.len() >= 4,
        ne_value(rem) as usize > effective_cap(max_size),
    ensures
        effective_cap(max_size) <= max_size,
        effective_cap(max_size) <= MAX_FROM_BROWSER,
        effective_cap(max_size) == max_size || effective_cap(max_size) == MAX_FROM_BROWSER,
        decode_spec(rem, max_size) == (
            Err::<Option<Seq<char>>, NmError>(
                NmError::IncomingTooLarge { len: ne_value(rem) as usize, max: effective_cap(max_size) },
            ),
            4int,
        ),
{
}

/// Invalid UTF-8: a whole frame whose body is not UTF-8 is refused after its
/// body has been consumed.
pub proof fn lemma_invalid_utf8(body: Seq<u8>, rest: Seq<u8>, max_size: usize)
    requires
        body.len() <= effective_cap(max_size),
        !valid_utf8(body),
    ensures
        decode_spec(frame_of(body) + rest, max_size) == (
            Err::<Option<Seq<char>>, NmError>(NmError::IncomingNotUtf8),
            4 + body.len() as int,
        ),
{
    lemma_frame_head(body, rest);
}

} // verus!
