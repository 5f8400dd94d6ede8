use vstd::prelude::*;
use vstd::string::StringSliceAdditionalSpecFns;
use crate::error::Error;
use crate::schema::{Content, Message};

verus! {

/// What serde_json writes for a string: one JSON string literal, quoted and
/// escaped, as UTF-8 bytes.
pub uninterp spec fn json_string_of(s: Seq<char>) -> Seq<u8>;

/// Relies on serde_json::to_vec on a `str`: the string as a JSON string
/// literal. It writes only into a `Vec`, which cannot fail, so it succeeds.
#[verifier::external_body]
fn json_string(s: &str) -> (r: Result<Vec<u8>, String>)
    ensures
        r is Ok,
        r matches Ok(b) ==> b@ == json_string_of(s@),
{
    match serde_json::to_vec(s) {
        Ok(b) => Ok(b),
        Err(e) => Err(e.to_string()),
    }
}

/// The wire form of a message, given the JSON literals of its three strings:
/// an object with the keys `action`, `username` and `content`, in that order,
/// whose content is an object with the single key naming its kind.
pub open spec fn message_frame(action: Seq<u8>, username: Seq<u8>, text: Seq<u8>) -> Seq<u8> {
    "{\"action\":".spec_bytes() + action + ",\"username\":".spec_bytes() + username
        + ",\"content\":{\"message\":".spec_bytes() + text + "}}".spec_bytes()
}

/// The wire form of a message.
pub open spec fn message_json_of(m: Message) -> Seq<u8> {
    match m.content {
        Content::Message(text) => message_frame(
            json_string_of(m.action@),
            json_string_of(m.username@),
            json_string_of(text@),
        ),
    }
}

pub(crate) fn append_bytes(out: &mut Vec<u8>, b: &[u8])
    ensures
        final(out)@ == old(out)@ + b@,
{
    let mut i: usize = 0;
    while i < b.len()
        invariant
            0 <= i <= b@.len(),
            out@ == old(out)@ + b@.subrange(0, i as int),
        decreases b@.len() - i,
    {
        out.push(b[i]);
        i = i + 1;
        proof {
            assert(b@.subrange(0, i as int) == b@.subrange(0, i - 1) + seq![b@[i - 1]]);
        }
    }
    proof {
        assert(b@.subrange(0, b@.len() as int) == b@);
    }
}

/// Lays out a message's wire form around the JSON literals of its strings.
pub fn frame_message(action: &[u8], username: &[u8], text: &[u8]) -> (r: Vec<u8>)
    ensures
        r@ == message_frame(action@, username@, text@),
{
    let mut out: Vec<u8> = Vec::new();
    append_bytes(&mut out, "{\"action\":".as_bytes());
    append_bytes(&mut out, action);
    append_bytes(&mut out, ",\"username\":".as_bytes());
    append_bytes(&mut out, username);
    append_bytes(&mut out, ",\"content\":{\"message\":".as_bytes());
    append_bytes(&mut out, text);
    append_bytes(&mut out, "}}".as_bytes());
    proof {
        assert(out@ == message_frame(action@, username@, text@));
    }
    out
}

/// Serialises a message once, to the bytes that every recipient is sent.
pub fn encode_message(m: &Message) -> (r: Result<Vec<u8>, Error>)
    ensures
        r matches Ok(p) && p@ == message_json_of(*m),
{
    let action = match json_string(m.action.as_str()) {
        Ok(b) => b,
        Err(e) => return Err(Error::SerdeJson(e)),
    };
    let username = match json_string(m.username.as_str()) {
        Ok(b) => b,
        Err(e) => return Err(Error::SerdeJson(e)),
    };
    match &m.content {
        Content::Message(text) => {
            let text = match json_string(text.as_str()) {
                Ok(b) => b,
                Err(e) => return Err(Error::SerdeJson(e)),
            };
            Ok(frame_message(action.as_slice(), username.as_slice(), text.as_slice()))
        },
    }
}

} // verus!
