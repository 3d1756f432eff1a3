//! Framing of serializable values and typed decoding of incoming messages.
use serde::de::DeserializeOwned;
use serde::Serialize;
use vstd::prelude::*;
use vstd::utf8::encode_utf8;

use crate::error::NmError;
use crate::frame::{decode_spec, encode_frame, json_frame, MAX_TO_BROWSER};
use crate::stream::{decode_message, ByteCursor};

verus! {

/// `serde_json::Error`, carried through and never inspected.
#[verifier::external_type_specification]
#[verifier::external_body]
pub struct ExJsonError(serde_json::Error);

/// Relies on `serde_json::to_string`: the compact JSON text of `value`, or the
/// serializer's error. What the text is depends on `T`'s `Serialize` impl.
#[verifier::external_body]
fn to_json_text<T: Serialize + ?Sized>(value: &T) -> (r: Result<String, serde_json::Error>) {
    serde_json::to_string(value)
}

/// Relies on `serde_json::from_str`: the value that the JSON text `s` describes
/// in the shape `T`, or the parser's error.
#[verifier::external_body]
pub(crate) fn parse_json_text<T: DeserializeOwned>(s: &str) -> (r: Result<T, serde_json::Error>) {
    serde_json::from_str(s)
}

/// Encodes a value as one frame: its compact JSON text behind a length prefix.
/// Fails with `SerializeJson` when the value does not serialize, and with
/// `OutgoingTooLarge` (writing nothing) when its text exceeds the outgoing cap.
pub fn encode_message<T: Serialize + ?Sized>(msg: &T) -> (r: Result<Vec<u8>, NmError>)
    ensures
        match r {
            Ok(f) => exists|t: Seq<char>|
                encode_utf8(t).len() <= MAX_TO_BROWSER && f@ == #[trigger] json_frame(t),
            Err(NmError::OutgoingTooLarge { len, max }) => max == MAX_TO_BROWSER && len > max,
            Err(e) => e == NmError::SerializeJson,
        },
{
    match to_json_text(msg) {
        Ok(text) => {
            let r = encode_frame(text.as_str());
            proof {
                if r is Ok {
                    assert(r->Ok_0@ == json_frame(text@));
                }
            }
            r
        },
        Err(_) => Err(NmError::SerializeJson),
    }
}

/// Decodes one frame from `reader` and parses its message into `T`. Framing
/// failures are those of `decode_message`; a message that does not parse into
/// `T` gives `DeserializeJson`, which no framing failure does.
pub fn recv_json<T: DeserializeOwned>(reader: &mut ByteCursor, max_size: usize) -> (r: Result<T, NmError>)
    ensures
        final(reader).data == old(reader).data,
        final(reader).remaining() == old(reader).remaining().skip(
            decode_spec(old(reader).remaining(), max_size).1,
        ),
        final(reader).pos == old(reader).pos + decode_spec(old(reader).remaining(), max_size).1,
        match decode_spec(old(reader).remaining(), max_size).0 {
            Ok(Some(_)) => r is Ok || r == Err::<T, NmError>(NmError::DeserializeJson),
            Ok(None) => r == Err::<T, NmError>(NmError::Disconnected),
            Err(e) => r == Err::<T, NmError>(e),
        },
{
    let raw = match decode_message(reader, max_size) {
        Ok(raw) => raw,
        Err(e) => return Err(e),
    };
    match parse_json_text(raw.as_str()) {
        Ok(v) => Ok(v),
        Err(_) => Err(NmError::DeserializeJson),
    }
}

} // verus!
