//! The wire format: the handshake frame that each side sends once, and the
//! message frames that follow it.
//!
//! A handshake frame is the sender's identity as eight big-endian bytes,
//! followed by its display name in UTF-8, of which the receiver takes at most
//! 32 bytes. A message frame is the bare UTF-8 text; the receiver takes at most
//! 1024 bytes at a time and drops the white space at the end.

use crate::text::{string_from_utf8, trim_end, trimmed_end};
use vstd::prelude::*;
use vstd::slice::{slice_subrange, slice_to_vec};
use vstd::utf8::*;

verus! {

/// The number of bytes that hold the identity at the start of a handshake.
pub const ID_LEN: usize = 8;

/// The most bytes of a display name that a receiver takes.
pub const NAME_CAP: usize = 32;

/// The most bytes of a message that a receiver takes at a time.
pub const MESSAGE_CAP: usize = 1024;

/// Why a handshake failed.
#[derive(Clone, Copy, Debug, PartialEq, Eq, Structural)]
pub enum HandshakeError {
    /// Fewer than the eight bytes of the identity arrived.
    Incomplete,
    /// The name is not valid UTF-8.
    Malformed,
}

/// What a peer declares of itself in a handshake.
#[derive(Clone, Debug, PartialEq, Eq)]
pub struct Identity {
    pub id: u64,
    pub name: String,
}

impl View for Identity {
    type V = (u64, Seq<char>);

    open spec fn view(&self) -> (u64, Seq<char>) {
        (self.id, self.name@)
    }
}

/// The eight bytes of `id`, most significant first.
pub open spec fn id_bytes(id: u64) -> Seq<u8> {
    seq![
        ((id >> 56) & 0xff) as u8,
        ((id >> 48) & 0xff) as u8,
        ((id >> 40) & 0xff) as u8,
        ((id >> 32) & 0xff) as u8,
        ((id >> 24) & 0xff) as u8,
        ((id >> 16) & 0xff) as u8,
        ((id >> 8) & 0xff) as u8,
        (id & 0xff) as u8,
    ]
}

/// The identity that the first eight bytes of `bytes` hold, most significant
/// first.
pub open spec fn id_value(bytes: Seq<u8>) -> u64
    recommends
        bytes.len() >= ID_LEN,
{
    (bytes[0] as u64) << 56 | (bytes[1] as u64) << 48 | (bytes[2] as u64) << 40 | (bytes[3] as u64)
        << 32 | (bytes[4] as u64) << 24 | (bytes[5] as u64) << 16 | (bytes[6] as u64) << 8 | (
    bytes[7] as u64)
}

/// The handshake frame that declares `id` and `name`.
pub open spec fn handshake_frame(id: u64, name: Seq<char>) -> Seq<u8> {
    id_bytes(id) + encode_utf8(name)
}

/// The bytes of the name in the frame that arrived: what follows the identity,
/// up to 32 bytes of it.
pub open spec fn name_field(frame: Seq<u8>) -> Seq<u8>
    recommends
        frame.len() >= ID_LEN,
{
    if frame.len() <= ID_LEN + NAME_CAP {
        frame.subrange(ID_LEN as int, frame.len() as int)
    } else {
        frame.subrange(ID_LEN as int, ID_LEN + NAME_CAP)
    }
}

/// What the receiver of `frame` makes of it.
pub open spec fn parsed_handshake(frame: Seq<u8>) -> Result<(u64, Seq<char>), HandshakeError> {
    if frame.len() < ID_LEN {
        Err(HandshakeError::Incomplete)
    } else if !valid_utf8(name_field(frame)) {
        Err(HandshakeError::Malformed)
    } else {
        Ok((id_value(frame), decode_utf8(name_field(frame))))
    }
}

/// The message frame that carries `text`.
pub open spec fn message_frame(text: Seq<char>) -> Seq<u8> {
    encode_utf8(text)
}

/// What one read takes of the bytes that arrived: up to 1024 of them.
pub open spec fn message_field(bytes: Seq<u8>) -> Seq<u8> {
    if bytes.len() <= MESSAGE_CAP {
        bytes
    } else {
        bytes.subrange(0, MESSAGE_CAP as int)
    }
}

/// The text that the receiver of `bytes` makes of them, if any: nothing of an
/// empty read or of bytes that are not valid UTF-8.
pub open spec fn parsed_message(bytes: Seq<u8>) -> Option<Seq<char>> {
    let field = message_field(bytes);
    if field.len() == 0 || !valid_utf8(field) {
        None
    } else {
        Some(trimmed_end(decode_utf8(field)))
    }
}

/// The eight bytes written for an identity read back as that identity.
pub proof fn lemma_id_round_trip(id: u64)
    ensures
        id_bytes(id).len() == ID_LEN,
        id_value(id_bytes(id)) == id,
{
    let b0 = (id >> 56) & 0xff;
    let b1 = (id >> 48) & 0xff;
    let b2 = (id >> 40) & 0xff;
    let b3 = (id >> 32) & 0xff;
    let b4 = (id >> 24) & 0xff;
    let b5 = (id >> 16) & 0xff;
    let b6 = (id >> 8) & 0xff;
    let b7 = id & 0xff;
    assert(b0 < 256 && b1 < 256 && b2 < 256 && b3 < 256 && b4 < 256 && b5 < 256 && b6 < 256 && b7
        < 256) by (bit_vector)
        requires
            b0 == (id >> 56) & 0xff,
            b1 == (id >> 48) & 0xff,
            b2 == (id >> 40) & 0xff,
            b3 == (id >> 32) & 0xff,
            b4 == (id >> 24) & 0xff,
            b5 == (id >> 16) & 0xff,
            b6 == (id >> 8) & 0xff,
            b7 == id & 0xff,
    ;
    assert(b0 << 56 | b1 << 48 | b2 << 40 | b3 << 32 | b4 << 24 | b5 << 16 | b6 << 8 | b7 == id)
        by (bit_vector)
        requires
            b0 == (id >> 56) & 0xff,
            b1 == (id >> 48) & 0xff,
            b2 == (id >> 40) & 0xff,
            b3 == (id >> 32) & 0xff,
            b4 == (id >> 24) & 0xff,
            b5 == (id >> 16) & 0xff,
            b6 == (id >> 8) & 0xff,
            b7 == id & 0xff,
    ;
}

/// The byte of `id` that lies `shift` bits above its lowest.
fn byte_at(id: u64, shift: u64) -> (byte: u8)
    requires
        shift < 64,
    ensures
        byte == ((id >> shift) & 0xff) as u8,
{
    let part: u64 = (id >> shift) & 0xff;
    assert(part < 256) by (bit_vector)
        requires
            part == (id >> shift) & 0xff,
    ;
    part as u8
}

/// The eight bytes of `id`, most significant first.
pub fn id_to_bytes(id: u64) -> (bytes: Vec<u8>)
    ensures
        bytes@ == id_bytes(id),
{
    let mut bytes: Vec<u8> = Vec::new();
    bytes.push(byte_at(id, 56));
    bytes.push(byte_at(id, 48));
    bytes.push(byte_at(id, 40));
    bytes.push(byte_at(id, 32));
    bytes.push(byte_at(id, 24));
    bytes.push(byte_at(id, 16));
    bytes.push(byte_at(id, 8));
    bytes.push(byte_at(id, 0));
    assert(id >> 0 == id) by (bit_vector);
    bytes
}

/// The identity that the first eight bytes of `bytes` hold.
fn id_from_bytes(bytes: &[u8]) -> (id: u64)
    requires
        bytes@.len() >= ID_LEN,
    ensures
        id == id_value(bytes@),
{
    (bytes[0] as u64) << 56 | (bytes[1] as u64) << 48 | (bytes[2] as u64) << 40 | (bytes[3] as u64)
        << 32 | (bytes[4] as u64) << 24 | (bytes[5] as u64) << 16 | (bytes[6] as u64) << 8 | (
    bytes[7] as u64)
}

/// Writes the handshake frame that declares `id` and `name`.
pub fn encode_handshake(id: u64, name: &str) -> (frame: Vec<u8>)
    ensures
        frame@ == handshake_frame(id, name@),
{
    let mut frame = id_to_bytes(id);
    let mut name_bytes = slice_to_vec(name.as_bytes());
    frame.append(&mut name_bytes);
    frame
}

/// Reads the handshake frame that arrived.
///
/// Fails with `Incomplete` where fewer than eight bytes arrived, and with
/// `Malformed` where the bytes taken for the name are not valid UTF-8.
pub fn decode_handshake(frame: &[u8]) -> (peer: Result<Identity, HandshakeError>)
    ensures
        peer matches Ok(p) ==> parsed_handshake(frame@) == Ok::<_, HandshakeError>(p@),
        peer matches Err(e) ==> parsed_handshake(frame@) == Err::<(u64, Seq<char>), _>(e),
{
    if frame.len() < ID_LEN {
        return Err(HandshakeError::Incomplete);
    }
    let id = id_from_bytes(frame);
    let end = if frame.len() <= ID_LEN + NAME_CAP {
        frame.len()
    } else {
        ID_LEN + NAME_CAP
    };
    let name_bytes = slice_to_vec(slice_subrange(frame, ID_LEN, end));
    match string_from_utf8(name_bytes) {
        Some(name) => Ok(Identity { id, name }),
        None => Err(HandshakeError::Malformed),
    }
}

/// Writes the message frame that carries `text`.
pub fn encode_message(text: &str) -> (frame: Vec<u8>)
    ensures
        frame@ == message_frame(text@),
{
    slice_to_vec(text.as_bytes())
}

/// Reads the bytes that one read returned: the text without the white space at
/// its end, or nothing where the read was empty or not valid UTF-8.
pub fn decode_message(bytes: &[u8]) -> (text: Option<String>)
    ensures
        text is Some <==> parsed_message(bytes@) is Some,
        text matches Some(t) ==> parsed_message(bytes@) == Some(t@),
{
    let end = if bytes.len() <= MESSAGE_CAP {
        bytes.len()
    } else {
        MESSAGE_CAP
    };
    if end == 0 {
        return None;
    }
    let field = slice_to_vec(slice_subrange(bytes, 0, end));
    assert(field@ == message_field(bytes@));
    match string_from_utf8(field) {
        Some(raw) => Some(trim_end(raw.as_str())),
        None => None,
    }
}

/// A handshake frame reads back as the identity and the name that it was
/// written for, where the name takes no more than 32 bytes.
pub proof fn lemma_handshake_round_trip(id: u64, name: Seq<char>)
    requires
        encode_utf8(name).len() <= NAME_CAP,
    ensures
        parsed_handshake(handshake_frame(id, name)) == Ok::<_, HandshakeError>((id, name)),
{
    broadcast use {encode_utf8_valid_utf8, encode_utf8_decode_utf8};

    lemma_id_round_trip(id);
    let frame = handshake_frame(id, name);
    assert(name_field(frame) == encode_utf8(name));
    assert(id_value(frame) == id_value(id_bytes(id)));
}

/// A message of up to 1024 bytes, which is not empty, reads back as its text
/// without the white space at its end.
pub proof fn lemma_message_round_trip(text: Seq<char>)
    requires
        text.len() > 0,
        encode_utf8(text).len() <= MESSAGE_CAP,
    ensures
        parsed_message(message_frame(text)) == Some(trimmed_end(text)),
{
    broadcast use {encode_utf8_valid_utf8, encode_utf8_decode_utf8};

    assert(decode_utf8(encode_utf8(text)) == text);
    assert(decode_utf8(Seq::<u8>::empty()) == Seq::<char>::empty());
    assert(encode_utf8(text).len() > 0);
}

} // verus!
