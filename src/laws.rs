//! Properties of the transcript that hold across several operations.
use vstd::prelude::*;
use crate::digest::{digest_of, HashAlgorithm};
use crate::message::{message_hash_encoding, transcript_bytes, transcript_of, Message};
use crate::transcript::{BufferModel, HashModel};

verus! {

/// Adding messages one by one appends their transcript bytes in order and
/// leaves the retention flag alone.
pub proof fn lemma_add_messages(b: BufferModel, ms: Seq<Message>)
    ensures
        b.add_messages(ms).buffer == b.buffer + transcript_of(ms),
        b.add_messages(ms).client_auth == b.client_auth,
    decreases ms.len(),
{
    if ms.len() == 0 {
        assert(b.buffer + transcript_of(ms) =~= b.buffer);
    } else {
        lemma_add_messages(b, ms.drop_last());
        assert(b.buffer + transcript_of(ms) =~= (b.buffer + transcript_of(ms.drop_last()))
            + transcript_bytes(ms.last()));
    }
}

/// Whatever handshake messages a fresh buffer is fed, once hashing starts the
/// current hash is the digest of their encodings, concatenated in order.
pub proof fn law_hash_of_messages(client_auth: bool, alg: HashAlgorithm, ms: Seq<Message>)
    ensures
        (BufferModel { buffer: Seq::empty(), client_auth }).add_messages(ms).start_hash(
            alg,
        ).current_hash() == digest_of(alg, transcript_of(ms)),
{
    let b = BufferModel { buffer: Seq::empty(), client_auth };
    lemma_add_messages(b, ms);
    assert(b.buffer + transcript_of(ms) =~= transcript_of(ms));
}

/// Bytes buffered before hashing starts and bytes hashed after it give the
/// digest of both together, whether or not the transcript is retained.
pub proof fn law_digest_ignores_retention(
    client_auth: bool,
    alg: HashAlgorithm,
    before: Seq<u8>,
    after: Seq<u8>,
)
    ensures
        (BufferModel { buffer: Seq::empty(), client_auth }).update_raw(before).start_hash(
            alg,
        ).update_raw(after).current_hash() == digest_of(alg, before + after),
{
    let b = BufferModel { buffer: Seq::empty(), client_auth };
    assert(b.update_raw(before).buffer =~= before);
}

/// With retention on, the retained transcript is everything buffered before
/// hashing started followed by everything hashed after; taking it once hands
/// all of it out, and taking it again hands out nothing.
pub proof fn law_retained_transcript(alg: HashAlgorithm, before: Seq<u8>, after: Seq<u8>)
    ensures
        ({
            let s = BufferModel::empty().enable_client_auth().update_raw(before).start_hash(
                alg,
            ).update_raw(after);
            &&& s.buffer == before + after
            &&& s.take_handshake_buf().buffer == Seq::<u8>::empty()
        }),
{
    let b = BufferModel::empty().enable_client_auth().update_raw(before);
    assert(b.buffer =~= before);
}

/// Once retention is abandoned nothing is retained, whatever is hashed,
/// rolled up or taken afterwards, while the digest still absorbs it all.
pub proof fn law_abandoned_retention_stays_empty(s: HashModel, bytes: Seq<u8>)
    requires
        s.inv(),
        !s.client_auth,
    ensures
        s.abandon_client_auth().buffer.len() == 0,
        !s.update_raw(bytes).client_auth,
        s.update_raw(bytes).buffer.len() == 0,
        s.update_raw(bytes).input == s.input + bytes,
        !s.rollup_for_hrr().client_auth,
        s.rollup_for_hrr().buffer.len() == 0,
        s.take_handshake_buf().buffer.len() == 0,
{
}

/// Abandoning retention right after hashing starts leaves nothing retained,
/// and the digest still covers the bytes from before and after.
pub proof fn law_abandon_after_start(alg: HashAlgorithm, before: Seq<u8>, after: Seq<u8>)
    ensures
        ({
            let s = BufferModel::empty().enable_client_auth().update_raw(before).start_hash(
                alg,
            ).abandon_client_auth();
            &&& s.buffer.len() == 0
            &&& s.update_raw(after).buffer.len() == 0
            &&& s.update_raw(after).current_hash() == digest_of(alg, before + after)
        }),
{
    let b = BufferModel::empty().enable_client_auth().update_raw(before);
    assert(b.buffer =~= before);
}

/// Peeking at the hash with extra bytes gives what hashing those bytes would
/// give, and peeking with none gives the current hash.
pub proof fn law_peek_matches_update(s: HashModel, extra: Seq<u8>)
    ensures
        s.hash_given(extra) == s.update_raw(extra).current_hash(),
        s.hash_given(Seq::empty()) == s.current_hash(),
{
    assert(s.input + Seq::<u8>::empty() =~= s.input);
}

/// A rollup restarts the digest from the synthetic message alone, so its
/// result depends only on the algorithm and the digest before it: two states
/// with the same hash roll up to the same hash.
pub proof fn law_rollup_deterministic(s: HashModel, t: HashModel)
    requires
        s.alg == t.alg,
        s.current_hash() == t.current_hash(),
    ensures
        s.rollup_for_hrr().input == message_hash_encoding(s.current_hash()),
        s.rollup_for_hrr().current_hash() == t.rollup_for_hrr().current_hash(),
{
    assert(s.rollup_for_hrr().input =~= message_hash_encoding(s.current_hash()));
    assert(t.rollup_for_hrr().input =~= message_hash_encoding(t.current_hash()));
}

/// A message that is not a handshake message changes neither the buffer nor
/// the hash.
pub proof fn law_non_handshake_ignored(b: BufferModel, s: HashModel, m: Message)
    requires
        !(m.payload is Handshake),
    ensures
        b.add_message(m) == b,
        s.add_message(m) == s,
{
    assert(b.add_message(m).buffer =~= b.buffer);
    assert(s.add_message(m).input =~= s.input);
    assert(s.add_message(m).buffer =~= s.buffer);
}

} // verus!
