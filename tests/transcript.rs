use hash_hs::digest::HashAlgorithm;
use hash_hs::message::{HandshakeMessagePayload, Message, MessagePayload};
use hash_hs::transcript::HandshakeHashBuffer;

fn handshake(typ: u8, body: &[u8]) -> Message {
    Message {
        payload: MessagePayload::Handshake(HandshakeMessagePayload {
            typ,
            payload: body.to_vec(),
        }),
    }
}

fn hex(bytes: &[u8]) -> String {
    bytes.iter().map(|b| format!("{:02x}", b)).collect()
}

#[test]
fn hashes_correctly() {
    let mut hhb = HandshakeHashBuffer::new();
    hhb.update_raw(b"hello");
    assert_eq!(hhb.buffer().len(), 5);
    let mut hh = hhb.start_hash(HashAlgorithm::Sha256);
    assert_eq!(hh.buffer().len(), 0);
    hh.update_raw(b"world");
    let h = hh.get_current_hash();
    let h = h.as_slice();
    assert_eq!(h[0], 0x93);
    assert_eq!(h[1], 0x6a);
    assert_eq!(h[2], 0x18);
    assert_eq!(h[3], 0x5c);
}

#[test]
fn buffers_correctly() {
    let mut hhb = HandshakeHashBuffer::new();
    hhb.set_client_auth_enabled();
    hhb.update_raw(b"hello");
    assert_eq!(hhb.buffer().len(), 5);
    let mut hh = hhb.start_hash(HashAlgorithm::Sha256);
    assert_eq!(hh.buffer().len(), 5);
    hh.update_raw(b"world");
    assert_eq!(hh.buffer().len(), 10);
    let h = hh.get_current_hash();
    let h = h.as_slice();
    assert_eq!(h[0], 0x93);
    assert_eq!(h[1], 0x6a);
    assert_eq!(h[2], 0x18);
    assert_eq!(h[3], 0x5c);
    let buf = hh.take_handshake_buf();
    assert_eq!(b"helloworld".to_vec(), buf);
}

#[test]
fn abandon() {
    let mut hhb = HandshakeHashBuffer::new();
    hhb.set_client_auth_enabled();
    hhb.update_raw(b"hello");
    assert_eq!(hhb.buffer().len(), 5);
    let mut hh = hhb.start_hash(HashAlgorithm::Sha256);
    assert_eq!(hh.buffer().len(), 5);
    hh.abandon_client_auth();
    assert_eq!(hh.buffer().len(), 0);
    hh.update_raw(b"world");
    assert_eq!(hh.buffer().len(), 0);
    let h = hh.get_current_hash();
    let h = h.as_slice();
    assert_eq!(h[0], 0x93);
    assert_eq!(h[1], 0x6a);
    assert_eq!(h[2], 0x18);
    assert_eq!(h[3], 0x5c);
}

#[test]
fn full_digest_of_helloworld() {
    for enable in [false, true] {
        let mut hhb = HandshakeHashBuffer::new();
        if enable {
            hhb.set_client_auth_enabled();
        }
        hhb.update_raw(b"hello");
        let mut hh = hhb.start_hash(HashAlgorithm::Sha256);
        hh.update_raw(b"world");
        assert_eq!(
            hex(&hh.get_current_hash()),
            "936a185caaa266bb9cbe981e9e05cb78cd732b0b3280eb944412bb6f8f8f07af"
        );
    }
}

#[test]
fn empty_transcript_digest() {
    let hh = HandshakeHashBuffer::new().start_hash(HashAlgorithm::Sha256);
    assert_eq!(
        hex(&hh.get_current_hash()),
        "e3b0c44298fc1c149afbf4c8996fb92427ae41e4649b934ca495991b7852b855"
    );
}

#[test]
fn other_algorithms() {
    let mut hhb = HandshakeHashBuffer::new();
    hhb.update_raw(b"abc");
    assert_eq!(
        hex(&hhb.get_hash_given(HashAlgorithm::Sha1, b"")),
        "a9993e364706816aba3e25717850c26c9cd0d89d"
    );
    let h384 = hhb.get_hash_given(HashAlgorithm::Sha384, b"");
    assert_eq!(h384.len(), 48);
    assert_eq!(hex(&h384[..4]), "cb00753f");
    let h512 = hhb.get_hash_given(HashAlgorithm::Sha512, b"");
    assert_eq!(h512.len(), 64);
    assert_eq!(hex(&h512[..4]), "ddaf35a1");
    assert_eq!(hhb.get_hash_given(HashAlgorithm::Sha512_256, b"").len(), 32);
    let hh = hhb.start_hash(HashAlgorithm::Sha384);
    assert_eq!(hh.algorithm(), HashAlgorithm::Sha384);
    assert_eq!(hh.get_current_hash(), h384);
}

#[test]
fn buffer_hash_given_leaves_buffer() {
    let mut hhb = HandshakeHashBuffer::new();
    hhb.update_raw(b"hello");
    assert_eq!(
        hex(&hhb.get_hash_given(HashAlgorithm::Sha256, b"world")),
        "936a185caaa266bb9cbe981e9e05cb78cd732b0b3280eb944412bb6f8f8f07af"
    );
    assert_eq!(hhb.buffer(), b"hello");
    let hh = hhb.start_hash(HashAlgorithm::Sha256);
    assert_eq!(
        hex(&hh.get_current_hash()),
        "2cf24dba5fb0a30e26e83b2ac5b9e29e1b161e5c1fa7425e73043362938b9824"
    );
}

#[test]
fn messages_hash_as_their_encodings() {
    let mut hhb = HandshakeHashBuffer::new();
    hhb.add_message(&handshake(1, b"abc"));
    assert_eq!(hhb.buffer(), &[1, 0, 0, 3, b'a', b'b', b'c']);
    let mut hh = hhb.start_hash(HashAlgorithm::Sha256);
    hh.add_message(&handshake(2, b""));
    assert_eq!(
        hex(&hh.get_current_hash()),
        "9f4abbd47e07cc167965dd6fc76d7ce25582de2e4326e747449d5ce8afb97bcd"
    );
}

#[test]
fn add_message_chains() {
    let mut hh = HandshakeHashBuffer::new().start_hash(HashAlgorithm::Sha256);
    hh.add_message(&handshake(1, b"abc")).add_message(&handshake(2, b""));
    assert_eq!(
        hex(&hh.get_current_hash()),
        "9f4abbd47e07cc167965dd6fc76d7ce25582de2e4326e747449d5ce8afb97bcd"
    );
}

#[test]
fn encoding_of_handshake_message() {
    let m = HandshakeMessagePayload { typ: 20, payload: vec![9; 300] };
    let enc = m.get_encoding();
    assert_eq!(enc.len(), 304);
    assert_eq!(&enc[..4], &[20, 0, 1, 44]);
    let hh = HandshakeMessagePayload::build_handshake_hash(&[7, 8]);
    assert_eq!(hh.typ, 254);
    assert_eq!(hh.get_encoding(), vec![254, 0, 0, 2, 7, 8]);
}

#[test]
fn non_handshake_messages_ignored() {
    let others = [
        Message { payload: MessagePayload::ChangeCipherSpec },
        Message { payload: MessagePayload::Alert { level: 2, description: 40 } },
        Message { payload: MessagePayload::ApplicationData(b"data".to_vec()) },
    ];
    let mut hhb = HandshakeHashBuffer::new();
    hhb.set_client_auth_enabled();
    hhb.update_raw(b"hello");
    for m in others.iter() {
        hhb.add_message(m);
    }
    assert_eq!(hhb.buffer(), b"hello");
    let mut hh = hhb.start_hash(HashAlgorithm::Sha256);
    let before = hh.get_current_hash();
    for m in others.iter() {
        hh.add_message(m);
    }
    assert_eq!(hh.buffer(), b"hello");
    assert_eq!(hh.get_current_hash(), before);
}

#[test]
fn take_buffer_once() {
    let mut hhb = HandshakeHashBuffer::new();
    hhb.set_client_auth_enabled();
    hhb.update_raw(b"hello");
    let mut hh = hhb.start_hash(HashAlgorithm::Sha256);
    hh.update_raw(b"world");
    assert!(hh.client_auth_enabled());
    assert_eq!(hh.take_handshake_buf(), b"helloworld".to_vec());
    assert_eq!(hh.take_handshake_buf(), Vec::<u8>::new());
    hh.update_raw(b"!");
    assert_eq!(hh.take_handshake_buf(), b"!".to_vec());
}

#[test]
fn peek_leaves_hash_alone() {
    let mut hhb = HandshakeHashBuffer::new();
    hhb.update_raw(b"hello");
    let hh = hhb.start_hash(HashAlgorithm::Sha256);
    let current = hh.get_current_hash();
    let with_world = hh.get_hash_given(b"world");
    let with_other = hh.get_hash_given(b"there");
    assert_ne!(with_world, with_other);
    assert_eq!(
        hex(&with_world),
        "936a185caaa266bb9cbe981e9e05cb78cd732b0b3280eb944412bb6f8f8f07af"
    );
    assert_eq!(hh.get_current_hash(), current);
    assert_eq!(hh.get_hash_given(b""), current);
}

#[test]
fn rollup_changes_hash_deterministically() {
    let make = || {
        let mut hhb = HandshakeHashBuffer::new();
        hhb.update_raw(b"hello");
        hhb.start_hash(HashAlgorithm::Sha256)
    };
    let mut a = make();
    let mut b = make();
    let before = a.get_current_hash();
    a.rollup_for_hrr();
    b.rollup_for_hrr();
    let after = a.get_current_hash();
    assert_ne!(after, before);
    assert_eq!(after, b.get_current_hash());
    assert_eq!(
        hex(&after),
        "90a379b018cdd0f4ebb093f90dcca9d0ab398dc51f2c2feda9c64ade71d671e5"
    );
}

#[test]
fn rollup_keeps_retention() {
    let mut hhb = HandshakeHashBuffer::new();
    hhb.set_client_auth_enabled();
    hhb.update_raw(b"hello");
    let mut hh = hhb.start_hash(HashAlgorithm::Sha256);
    let digest = hh.get_current_hash();
    hh.rollup_for_hrr();
    let mut expected = b"hello".to_vec();
    expected.extend_from_slice(&[254, 0, 0, 32]);
    expected.extend_from_slice(&digest);
    assert_eq!(hh.buffer(), expected.as_slice());
}

#[test]
fn hrr_buffer_starts_fresh() {
    let mut hhb = HandshakeHashBuffer::new();
    hhb.set_client_auth_enabled();
    hhb.update_raw(b"hello");
    let hh = hhb.start_hash(HashAlgorithm::Sha256);
    let digest = hh.get_current_hash();
    let fresh = hh.into_hrr_buffer();
    let mut expected = vec![254, 0, 0, 32];
    expected.extend_from_slice(&digest);
    assert_eq!(fresh.buffer(), expected.as_slice());
    let next = fresh.start_hash(HashAlgorithm::Sha256);
    assert!(next.client_auth_enabled());
    assert_eq!(
        hex(&next.get_current_hash()),
        "90a379b018cdd0f4ebb093f90dcca9d0ab398dc51f2c2feda9c64ade71d671e5"
    );
}
