//! The protocol messages that reach the transcript, and the canonical
//! encoding of handshake messages.
use vstd::prelude::*;

verus! {

/// The handshake type of the synthetic message that summarises a transcript
/// by its digest when an exchange is retried.
pub const HANDSHAKE_TYPE_MESSAGE_HASH: u8 = 254;

/// A decoded handshake message: its type and its body.
pub struct HandshakeMessagePayload {
    pub typ: u8,
    pub payload: Vec<u8>,
}

/// What a protocol message carries. Only handshake messages are part of the
/// transcript.
pub enum MessagePayload {
    Alert { level: u8, description: u8 },
    Handshake(HandshakeMessagePayload),
    ChangeCipherSpec,
    ApplicationData(Vec<u8>),
}

/// A protocol message.
pub struct Message {
    pub payload: MessagePayload,
}

/// A length as three big-endian bytes; lengths of 2^24 and more are cut to
/// their low 24 bits.
pub open spec fn u24_be(n: nat) -> Seq<u8> {
    seq![((n / 0x10000) % 0x100) as u8, ((n / 0x100) % 0x100) as u8, (n % 0x100) as u8]
}

/// The canonical encoding of a handshake message: its type, the length of
/// its body, then the body.
pub open spec fn handshake_encoding(typ: u8, body: Seq<u8>) -> Seq<u8> {
    seq![typ] + u24_be(body.len()) + body
}

/// The encoding of the synthetic message that carries the digest `hash`.
pub open spec fn message_hash_encoding(hash: Seq<u8>) -> Seq<u8> {
    handshake_encoding(HANDSHAKE_TYPE_MESSAGE_HASH, hash)
}

/// The bytes a message contributes to the transcript: the encoding of a
/// handshake message, nothing for any other message.
pub open spec fn transcript_bytes(m: Message) -> Seq<u8> {
    match m.payload {
        MessagePayload::Handshake(hs) => hs.spec_encoding(),
        _ => Seq::empty(),
    }
}

/// The bytes a sequence of messages contributes to the transcript, in order.
pub open spec fn transcript_of(ms: Seq<Message>) -> Seq<u8>
    decreases ms.len(),
{
    if ms.len() == 0 {
        Seq::empty()
    } else {
        transcript_of(ms.drop_last()) + transcript_bytes(ms.last())
    }
}

impl HandshakeMessagePayload {
    pub open spec fn spec_encoding(self) -> Seq<u8> {
        handshake_encoding(self.typ, self.payload@)
    }

    /// The synthetic message that carries the digest `hash` as its body.
    pub fn build_handshake_hash(hash: &[u8]) -> (r: HandshakeMessagePayload)
        ensures
            r.typ == HANDSHAKE_TYPE_MESSAGE_HASH,
            r.payload@ == hash@,
    {
        let mut payload: Vec<u8> = Vec::new();
        payload.extend_from_slice(hash);
        assert(payload@ =~= hash@);
        HandshakeMessagePayload { typ: HANDSHAKE_TYPE_MESSAGE_HASH, payload }
    }

    /// The canonical encoding of this message.
    pub fn get_encoding(&self) -> (r: Vec<u8>)
        ensures
            r@ == self.spec_encoding(),
    {
        let n = self.payload.len();
        let mut out: Vec<u8> = Vec::new();
        out.push(self.typ);
        out.push(((n / 0x10000) % 0x100) as u8);
        out.push(((n / 0x100) % 0x100) as u8);
        out.push((n % 0x100) as u8);
        out.extend_from_slice(self.payload.as_slice());
        assert(out@ =~= self.spec_encoding());
        out
    }
}

} // verus!
