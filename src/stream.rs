//! Reading frames from an in-memory byte stream.
use vstd::prelude::*;

use crate::error::{IoErrorKind, NmError};
use crate::frame::{decode_spec, message_from_body, read_length_prefix, text_result};

verus! {

/// A byte stream held in memory: the bytes and how far they have been read.
/// A position past the end reads as an exhausted stream.
pub struct ByteCursor {
    pub data: Vec<u8>,
    pub pos: usize,
}

impl ByteCursor {
    /// The bytes that are still to be read.
    pub open spec fn remaining(&self) -> Seq<u8> {
        if self.pos <= self.data@.len() {
            self.data@.subrange(self.pos as int, self.data@.len() as int)
        } else {
            Seq::empty()
        }
    }

    /// A stream positioned at the start of `data`.
    pub fn new(data: Vec<u8>) -> (r: ByteCursor)
        ensures
            r.data@ == data@,
            r.pos == 0,
            r.remaining() == data@,
    {
        let r = ByteCursor { data, pos: 0 };
        assert(r.remaining() =~= r.data@);
        r
    }

    /// How many bytes have been read so far.
    pub fn position(&self) -> (r: usize)
        ensures
            r == self.pos,
    {
        self.pos
    }

    /// Reads up to `n` bytes: all of them if the stream holds that many, else
    /// what is left. The position moves past what was read, and only that far.
    pub fn read_up_to(&mut self, n: usize) -> (r: Vec<u8>)
        ensures
            final(self).data == old(self).data,
            r@ == old(self).remaining().take(
                if n <= old(self).remaining().len() { n as int } else { old(self).remaining().len() as int },
            ),
            final(self).remaining() == old(self).remaining().skip(r@.len() as int),
            final(self).pos == old(self).pos + r@.len(),
    {
        let len = self.data.len();
        if self.pos > len {
            return Vec::new();
        }
        let start = self.pos;
        let avail = len - start;
        let k = if n <= avail {
            n
        } else {
            avail
        };
        let ghost rem = old(self).remaining();
        assert(rem =~= self.data@.subrange(start as int, len as int));
        let mut out: Vec<u8> = Vec::new();
        let mut i: usize = 0;
        while i < k
            invariant
                i <= k,
                k <= avail,
                avail == len - start,
                start <= len,
                len == self.data@.len(),
                rem == self.data@.subrange(start as int, len as int),
                out@ == rem.take(i as int),
            decreases k - i,
        {
            out.push(self.data[start + i]);
            i = i + 1;
            assert(out@ =~= rem.take(i as int));
        }
        self.pos = start + k;
        assert(self.remaining() =~= rem.skip(k as int));
        out
    }
}

/// Decodes one frame from `reader`. `Ok(None)` means the stream ended before a
/// whole length prefix (none, or one to three bytes of it), which is a clean
/// end. A prefix above `min(max_size, MAX_FROM_BROWSER)` is refused after the
/// four prefix bytes, before the body; a body cut short by the end of the
/// stream is an I/O error; a body that is not UTF-8 is refused once read.
pub fn decode_message_opt(reader: &mut ByteCursor, max_size: usize) -> (r: Result<Option<String>, NmError>)
    ensures
        final(reader).data == old(reader).data,
        text_result(r) == decode_spec(old(reader).remaining(), max_size).0,
        final(reader).remaining() == old(reader).remaining().skip(
            decode_spec(old(reader).remaining(), max_size).1,
        ),
        final(reader).pos == old(reader).pos + decode_spec(old(reader).remaining(), max_size).1,
{
    let ghost rem = old(reader).remaining();
    let head = reader.read_up_to(4);
    let len = match read_length_prefix(head.as_slice(), max_size) {
        Ok(None) => {
            assert(rem.skip(rem.len() as int) =~= Seq::<u8>::empty());
            assert(head@.len() < 4);
            assert(rem.len() < 4);
            return Ok(None);
        },
        Err(e) => {
            assert(head@ =~= rem.take(4));
            return Err(e);
        },
        Ok(Some(len)) => len,
    };
    assert(head@ =~= rem.take(4));
    let ghost after_head = reader.remaining();
    let body = reader.read_up_to(len);
    if body.len() < len {
        assert(rem.skip(rem.len() as int) =~= Seq::<u8>::empty());
        assert(reader.remaining() =~= after_head.skip(body@.len() as int));
        assert(after_head.skip(body@.len() as int) =~= Seq::<u8>::empty());
        return Err(NmError::Io(IoErrorKind::UnexpectedEof));
    }
    assert(body@ =~= rem.subrange(4, 4 + len));
    assert(reader.remaining() =~= rem.skip(4 + len));
    match message_from_body(body) {
        Ok(s) => Ok(Some(s)),
        Err(e) => Err(e),
    }
}

/// Decodes one frame from `reader`, for callers that need a message: a clean
/// end of the stream is reported as `Disconnected`.
pub fn decode_message(reader: &mut ByteCursor, max_size: usize) -> (r: Result<String, NmError>)
    ensures
        final(reader).data == old(reader).data,
        final(reader).remaining() == old(reader).remaining().skip(
            decode_spec(old(reader).remaining(), max_size).1,
        ),
        final(reader).pos == old(reader).pos + decode_spec(old(reader).remaining(), max_size).1,
        match decode_spec(old(reader).remaining(), max_size).0 {
            Ok(Some(t)) => r is Ok && r->Ok_0@ == t,
            Ok(None) => r == Err::<String, NmError>(NmError::Disconnected),
            Err(e) => r == Err::<String, NmError>(e),
        },
{
    match decode_message_opt(reader, max_size) {
        Ok(Some(s)) => Ok(s),
        Ok(None) => Err(NmError::Disconnected),
        Err(e) => Err(e),
    }
}

} // verus!
