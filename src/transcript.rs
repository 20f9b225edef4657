//! The transcript state machine: a byte buffer while the digest algorithm is
//! unknown, then an incremental hash with an optional retained copy.
use vstd::prelude::*;
use crate::digest::{
    context_clone, context_finish, context_new, context_update, ctx_algorithm, ctx_input,
    digest_len, digest_of, HashAlgorithm, MAX_DIGEST_INPUT,
};
use crate::message::{
    message_hash_encoding, transcript_bytes, HandshakeMessagePayload, Message, MessagePayload,
};

verus! {

/// The abstract state of a transcript whose algorithm is not chosen yet.
pub struct BufferModel {
    /// Every transcript byte seen so far.
    pub buffer: Seq<u8>,
    /// Whether the transcript must be kept for client authentication.
    pub client_auth: bool,
}

/// The abstract state of a transcript that is being hashed.
pub struct HashModel {
    pub alg: HashAlgorithm,
    /// Every byte the digest has absorbed.
    pub input: Seq<u8>,
    /// Whether input is still copied into `buffer`.
    pub client_auth: bool,
    /// The retained copy for client authentication.
    pub buffer: Seq<u8>,
}

impl BufferModel {
    pub open spec fn empty() -> BufferModel {
        BufferModel { buffer: Seq::empty(), client_auth: false }
    }

    pub open spec fn enable_client_auth(self) -> BufferModel {
        BufferModel { buffer: self.buffer, client_auth: true }
    }

    pub open spec fn update_raw(self, bytes: Seq<u8>) -> BufferModel {
        BufferModel { buffer: self.buffer + bytes, client_auth: self.client_auth }
    }

    pub open spec fn add_message(self, m: Message) -> BufferModel {
        self.update_raw(transcript_bytes(m))
    }

    /// The state after adding each of `ms` in order.
    pub open spec fn add_messages(self, ms: Seq<Message>) -> BufferModel
        decreases ms.len(),
    {
        if ms.len() == 0 {
            self
        } else {
            self.add_messages(ms.drop_last()).add_message(ms.last())
        }
    }

    /// The digest of the buffer followed by `extra`.
    pub open spec fn hash_given(self, alg: HashAlgorithm, extra: Seq<u8>) -> Seq<u8> {
        digest_of(alg, self.buffer + extra)
    }

    /// The hashing state that starts from this buffer: the digest absorbs it,
    /// and it is kept only when client authentication may follow.
    pub open spec fn start_hash(self, alg: HashAlgorithm) -> HashModel {
        HashModel {
            alg,
            input: self.buffer,
            client_auth: self.client_auth,
            buffer: if self.client_auth {
                self.buffer
            } else {
                Seq::empty()
            },
        }
    }
}

impl HashModel {
    /// Nothing is retained once retention is off.
    pub open spec fn inv(self) -> bool {
        !self.client_auth ==> self.buffer.len() == 0
    }

    pub open spec fn abandon_client_auth(self) -> HashModel {
        HashModel { alg: self.alg, input: self.input, client_auth: false, buffer: Seq::empty() }
    }

    /// The digest absorbs `bytes`; they are retained too while retention is on.
    pub open spec fn update_raw(self, bytes: Seq<u8>) -> HashModel {
        HashModel {
            alg: self.alg,
            input: self.input + bytes,
            client_auth: self.client_auth,
            buffer: if self.client_auth {
                self.buffer + bytes
            } else {
                self.buffer
            },
        }
    }

    pub open spec fn add_message(self, m: Message) -> HashModel {
        self.update_raw(transcript_bytes(m))
    }

    pub open spec fn hash_given(self, extra: Seq<u8>) -> Seq<u8> {
        digest_of(self.alg, self.input + extra)
    }

    pub open spec fn current_hash(self) -> Seq<u8> {
        digest_of(self.alg, self.input)
    }

    /// The encoding of the synthetic message that summarises the transcript.
    pub open spec fn retry_message(self) -> Seq<u8> {
        message_hash_encoding(self.current_hash())
    }

    /// The digest restarts from the synthetic message alone; the retained
    /// copy, if any, gets that message appended.
    pub open spec fn rollup_for_hrr(self) -> HashModel {
        HashModel {
            alg: self.alg,
            input: Seq::empty(),
            client_auth: self.client_auth,
            buffer: self.buffer,
        }.update_raw(self.retry_message())
    }

    /// A fresh buffer holding only the synthetic message.
    pub open spec fn into_hrr_buffer(self) -> BufferModel {
        BufferModel { buffer: self.retry_message(), client_auth: self.client_auth }
    }

    pub open spec fn take_handshake_buf(self) -> HashModel {
        HashModel {
            alg: self.alg,
            input: self.input,
            client_auth: self.client_auth,
            buffer: Seq::empty(),
        }
    }
}

/// Transcript bytes buffered while the digest algorithm is not yet known.
pub struct HandshakeHashBuffer {
    buffer: Vec<u8>,
    client_auth_enabled: bool,
}

impl View for HandshakeHashBuffer {
    type V = BufferModel;

    closed spec fn view(&self) -> BufferModel {
        BufferModel { buffer: self.buffer@, client_auth: self.client_auth_enabled }
    }
}

impl HandshakeHashBuffer {
    pub fn new() -> (r: HandshakeHashBuffer)
        ensures
            r@ == BufferModel::empty(),
    {
        HandshakeHashBuffer { buffer: Vec::new(), client_auth_enabled: false }
    }

    /// Client authentication may follow, so the whole transcript is kept.
    pub fn set_client_auth_enabled(&mut self)
        ensures
            final(self)@ == old(self)@.enable_client_auth(),
    {
        self.client_auth_enabled = true;
    }

    /// Buffers a handshake message; other messages are ignored.
    pub fn add_message(&mut self, m: &Message)
        ensures
            final(self)@ == old(self)@.add_message(*m),
    {
        match &m.payload {
            MessagePayload::Handshake(hs) => {
                let enc = hs.get_encoding();
                self.buffer.extend_from_slice(enc.as_slice());
            },
            _ => {},
        }
        assert(self.buffer@ =~= old(self)@.add_message(*m).buffer);
    }

    /// Buffers raw transcript bytes.
    pub fn update_raw(&mut self, buf: &[u8])
        ensures
            final(self)@ == old(self)@.update_raw(buf@),
    {
        self.buffer.extend_from_slice(buf);
        assert(self.buffer@ =~= old(self)@.update_raw(buf@).buffer);
    }

    /// The bytes buffered so far.
    pub fn buffer(&self) -> (r: &[u8])
        ensures
            r@ == self@.buffer,
    {
        self.buffer.as_slice()
    }

    /// The digest under `alg` of the buffer followed by `extra`; the buffer is
    /// left as it is.
    pub fn get_hash_given(&self, alg: HashAlgorithm, extra: &[u8]) -> (r: Vec<u8>)
        requires
            self@.buffer.len() + extra@.len() <= MAX_DIGEST_INPUT,
        ensures
            r@ == self@.hash_given(alg, extra@),
            r@.len() == digest_len(alg),
    {
        let mut ctx = context_new(alg);
        context_update(&mut ctx, self.buffer.as_slice());
        context_update(&mut ctx, extra);
        assert(ctx_input(ctx) =~= self@.buffer + extra@);
        context_finish(ctx)
    }

    /// The algorithm is now known: hash what was buffered and go on
    /// incrementally. The buffer is dropped unless client authentication may
    /// follow.
    pub fn start_hash(self, alg: HashAlgorithm) -> (r: HandshakeHash)
        ensures
            r.wf(),
            r@ == self@.start_hash(alg),
    {
        let mut ctx = context_new(alg);
        context_update(&mut ctx, self.buffer.as_slice());
        assert(ctx_input(ctx) =~= self@.buffer);
        let mut buffer = self.buffer;
        if !self.client_auth_enabled {
            buffer.clear();
        }
        proof {
            if !self.client_auth_enabled {
                assert(buffer@ =~= Seq::<u8>::empty());
            }
        }
        HandshakeHash { ctx, alg, client_auth_enabled: self.client_auth_enabled, buffer }
    }
}

/// A running hash of the handshake transcript, with the transcript itself
/// kept alongside while client authentication may follow.
pub struct HandshakeHash {
    ctx: ring::digest::Context,
    alg: HashAlgorithm,
    client_auth_enabled: bool,
    buffer: Vec<u8>,
}

impl View for HandshakeHash {
    type V = HashModel;

    closed spec fn view(&self) -> HashModel {
        HashModel {
            alg: self.alg,
            input: ctx_input(self.ctx),
            client_auth: self.client_auth_enabled,
            buffer: self.buffer@,
        }
    }
}

impl HandshakeHash {
    pub closed spec fn wf(&self) -> bool {
        &&& ctx_algorithm(self.ctx) == self.alg
        &&& self@.inv()
    }

    /// Client authentication will not happen: stop retaining and drop what
    /// was retained.
    pub fn abandon_client_auth(&mut self)
        requires
            old(self).wf(),
        ensures
            final(self).wf(),
            final(self)@ == old(self)@.abandon_client_auth(),
    {
        self.client_auth_enabled = false;
        self.buffer.clear();
        assert(self.buffer@ =~= Seq::<u8>::empty());
    }

    /// Hashes a handshake message, and retains it while retention is on;
    /// other messages are ignored.
    pub fn add_message(&mut self, m: &Message) -> (r: &mut HandshakeHash)
        requires
            old(self).wf(),
        ensures
            r.wf(),
            r@ == old(self)@.add_message(*m),
            *final(self) == *final(r),
    {
        match &m.payload {
            MessagePayload::Handshake(hs) => {
                let enc = hs.get_encoding();
                self.update_raw(enc.as_slice());
            },
            _ => {
                assert(self@.input =~= old(self)@.add_message(*m).input);
                assert(self@.buffer =~= old(self)@.add_message(*m).buffer);
            },
        }
        self
    }

    /// Hashes raw transcript bytes, and retains them while retention is on.
    pub fn update_raw(&mut self, buf: &[u8])
        requires
            old(self).wf(),
        ensures
            final(self).wf(),
            final(self)@ == old(self)@.update_raw(buf@),
    {
        context_update(&mut self.ctx, buf);
        if self.client_auth_enabled {
            self.buffer.extend_from_slice(buf);
        }
        assert(self@.input =~= old(self)@.update_raw(buf@).input);
        assert(self@.buffer =~= old(self)@.update_raw(buf@).buffer);
    }

    /// The digest of the transcript followed by `extra`; the running hash is
    /// left as it is.
    pub fn get_hash_given(&self, extra: &[u8]) -> (r: Vec<u8>)
        requires
            self.wf(),
            self@.input.len() + extra@.len() <= MAX_DIGEST_INPUT,
        ensures
            r@ == self@.hash_given(extra@),
            r@.len() == digest_len(self@.alg),
    {
        let mut ctx = context_clone(&self.ctx);
        context_update(&mut ctx, extra);
        context_finish(ctx)
    }

    /// The transcript restarts with a different algorithm: a fresh buffer
    /// that holds only the synthetic message carrying the current digest.
    pub fn into_hrr_buffer(self) -> (r: HandshakeHashBuffer)
        requires
            self.wf(),
            self@.input.len() <= MAX_DIGEST_INPUT,
        ensures
            r@ == self@.into_hrr_buffer(),
            r@.buffer.len() == 4 + digest_len(self@.alg),
    {
        let old_hash = context_finish(self.ctx);
        let msg = HandshakeMessagePayload::build_handshake_hash(old_hash.as_slice());
        HandshakeHashBuffer {
            buffer: msg.get_encoding(),
            client_auth_enabled: self.client_auth_enabled,
        }
    }

    /// The transcript restarts with the same algorithm: the hash starts over
    /// from the synthetic message carrying the current digest.
    pub fn rollup_for_hrr(&mut self)
        requires
            old(self).wf(),
            old(self)@.input.len() <= MAX_DIGEST_INPUT,
        ensures
            final(self).wf(),
            final(self)@ == old(self)@.rollup_for_hrr(),
            final(self)@.input.len() == 4 + digest_len(old(self)@.alg),
    {
        let mut old_ctx = context_new(self.alg);
        std::mem::swap(&mut self.ctx, &mut old_ctx);
        let old_hash = context_finish(old_ctx);
        let msg = HandshakeMessagePayload::build_handshake_hash(old_hash.as_slice());
        let enc = msg.get_encoding();
        self.update_raw(enc.as_slice());
    }

    /// The digest of the transcript so far.
    pub fn get_current_hash(&self) -> (r: Vec<u8>)
        requires
            self.wf(),
            self@.input.len() <= MAX_DIGEST_INPUT,
        ensures
            r@ == self@.current_hash(),
            r@.len() == digest_len(self@.alg),
    {
        context_finish(context_clone(&self.ctx))
    }

    /// Hands out the retained transcript and leaves an empty one behind.
    pub fn take_handshake_buf(&mut self) -> (r: Vec<u8>)
        requires
            old(self).wf(),
            old(self)@.client_auth,
        ensures
            final(self).wf(),
            r@ == old(self)@.buffer,
            final(self)@ == old(self)@.take_handshake_buf(),
    {
        let mut taken: Vec<u8> = Vec::new();
        std::mem::swap(&mut self.buffer, &mut taken);
        taken
    }

    /// Whether the transcript is still being retained.
    pub fn client_auth_enabled(&self) -> (r: bool)
        ensures
            r == self@.client_auth,
    {
        self.client_auth_enabled
    }

    /// The retained transcript.
    pub fn buffer(&self) -> (r: &[u8])
        ensures
            r@ == self@.buffer,
    {
        self.buffer.as_slice()
    }

    /// The digest algorithm.
    pub fn algorithm(&self) -> (r: HashAlgorithm)
        ensures
            r == self@.alg,
    {
        self.alg
    }
}

} // verus!
