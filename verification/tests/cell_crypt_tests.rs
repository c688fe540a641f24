//! Tests for relay-cell key derivation, origination, and recognition.

use tor1::cell::{CellFormat, RelayBody, RelayCellBody};
use tor1::crypt::{CryptState, CryptStatePair, SeedLengthError, SENDME_TAG_LEN};
use tor1::hash::{DigestAlg, RunningDigest};
use tor1::stream::CipherAlg;

// Fixed 92-byte seeds, one per hop.
const K1: &[u8; 92] =
    b"    'My public key is in this signed x509 object', said Tom assertively.      (N-PREG-VIRYL)";
const K2: &[u8; 92] =
    b"'Let's chart the pedal phlanges in the tomb', said Tom cryptographically.  (PELCG-GBR-TENCU)";
const K3: &[u8; 92] =
    b"     'Segmentation fault bugs don't _just happen_', said Tom seethingly.        (P-GUVAT-YL)";

fn mk_pair(seed: &[u8]) -> CryptStatePair {
    CryptStatePair::initialize(CipherAlg::Aes128Ctr, DigestAlg::Sha1, seed).unwrap()
}

/// A deterministic pseudo-random byte stream for cell contents.
struct XorShift(u64);

impl XorShift {
    fn next_byte(&mut self) -> u8 {
        let mut x = self.0;
        x ^= x << 13;
        x ^= x >> 7;
        x ^= x << 17;
        self.0 = x;
        (x >> 32) as u8
    }

    fn fill(&mut self, buf: &mut [u8]) {
        for b in buf.iter_mut() {
            *b = self.next_byte();
        }
    }
}

fn prng_cell(rng: &mut XorShift) -> RelayCellBody {
    let mut body = vec![0u8; 509];
    rng.fill(&mut body[11..]);
    body[0] = 2;
    body[4] = 1;
    body[9] = 1;
    body[10] = 242;
    RelayCellBody(body)
}

#[test]
fn seed_length_validation() {
    for (calg, dalg, expected) in [
        (CipherAlg::Aes128Ctr, DigestAlg::Sha1, 92usize),
        (CipherAlg::Aes256Ctr, DigestAlg::Sha3_256, 148usize),
    ] {
        assert_eq!(CryptStatePair::seed_len(calg, dalg), expected);
        for bad_len in [0, 1, expected - 1, expected + 1, 2 * expected] {
            let seed = vec![0x5au8; bad_len];
            let err = match CryptStatePair::initialize(calg, dalg, &seed) {
                Err(e) => e,
                Ok(_) => panic!("a bad seed length must be rejected"),
            };
            assert_eq!(err, SeedLengthError { got: bad_len, expected });
        }
        let seed = vec![0x5au8; expected];
        assert!(CryptStatePair::initialize(calg, dalg, &seed).is_ok());
    }
}

#[test]
fn deterministic_derivation() {
    let f = CellFormat::v0();
    // Two derivations from the same seed give byte-identical behaviour.
    let (mut fwd_a, _, bind_a) = mk_pair(K1).split_client_layer();
    let (mut fwd_b, _, bind_b) = mk_pair(K1).split_client_layer();
    assert_eq!(bind_a.as_bytes(), bind_b.as_bytes());
    // The binding key is the tail of the seed.
    assert_eq!(bind_a.as_bytes(), &K1[72..92]);

    let mut cell_a = RelayCellBody(vec![0x42; 509]);
    let mut cell_b = RelayCellBody(vec![0x42; 509]);
    let tag_a = fwd_a.originate_for(&f, &mut cell_a);
    let tag_b = fwd_b.originate_for(&f, &mut cell_b);
    assert_eq!(cell_a.0, cell_b.0);
    assert_eq!(tag_a, tag_b);
    assert_eq!(tag_a.len(), SENDME_TAG_LEN);

    // Forward and backward states use independent keys: identical plaintext
    // encrypts differently.
    let (mut fwd, mut back, _) = mk_pair(K1).split_client_layer();
    let mut cell_f = RelayCellBody(vec![0x42; 509]);
    let mut cell_k = RelayCellBody(vec![0x42; 509]);
    fwd.encrypt_outbound(&mut cell_f);
    back.encrypt_inbound(&mut cell_k);
    assert_ne!(cell_f.0, cell_k.0);
    // And encryption is not the identity.
    assert_ne!(cell_f.0, vec![0x42; 509]);
}

#[test]
fn originate_recognize_roundtrip() {
    let f = CellFormat::v0();
    let (mut client_fwd, mut client_back, _) = mk_pair(K1).split_client_layer();
    let (mut relay_fwd, mut relay_back, _) = mk_pair(K1).split_relay_layer();

    // Outbound: client originates, relay recognizes.
    let plain = {
        let mut rng = XorShift(7);
        prng_cell(&mut rng)
    };
    let mut cell = RelayCellBody(plain.0.clone());
    let tag1 = client_fwd.originate_for(&f, &mut cell);
    assert_ne!(cell.0, plain.0);
    let tag2 = relay_fwd.decrypt_outbound(&f, &mut cell).expect("cell must be recognized");
    assert_eq!(tag1, tag2);
    // The payload outside the two authentication fields survives the trip.
    assert_eq!(&cell.0[9..], &plain.0[9..]);
    assert_eq!(cell.0[0], plain.0[0]);
    // The recognized field is zero in the authenticated plaintext.
    assert_eq!(&cell.0[1..3], &[0, 0]);

    // Inbound: relay originates, client recognizes.
    let mut cell2 = RelayCellBody(vec![0x17; 509]);
    let tag3 = relay_back.originate(&f, &mut cell2);
    let tag4 = client_back.decrypt_inbound(&f, &mut cell2).expect("cell must be recognized");
    assert_eq!(tag3, tag4);
}

#[test]
fn digest_order_sensitivity() {
    let f = CellFormat::v0();

    // In-order delivery: both cells authenticate.
    let (mut client, _, _) = mk_pair(K2).split_client_layer();
    let (mut relay, _, _) = mk_pair(K2).split_relay_layer();
    let mut a = RelayCellBody(vec![0xaa; 509]);
    let mut b = RelayCellBody(vec![0xbb; 509]);
    client.originate_for(&f, &mut a);
    client.originate_for(&f, &mut b);
    assert!(relay.decrypt_outbound(&f, &mut a).is_some());
    assert!(relay.decrypt_outbound(&f, &mut b).is_some());

    // Swapped delivery: authentication fails.
    let (mut client2, _, _) = mk_pair(K2).split_client_layer();
    let (mut relay2, _, _) = mk_pair(K2).split_relay_layer();
    let mut a2 = RelayCellBody(vec![0xaa; 509]);
    let mut b2 = RelayCellBody(vec![0xbb; 509]);
    client2.originate_for(&f, &mut a2);
    client2.originate_for(&f, &mut b2);
    assert!(relay2.decrypt_outbound(&f, &mut b2).is_none());
    assert!(relay2.decrypt_outbound(&f, &mut a2).is_none());
}

#[test]
fn tamper_rejection() {
    let f = CellFormat::v0();
    let (mut client, _, _) = mk_pair(K1).split_client_layer();
    let mut cell = RelayCellBody(vec![0x33; 509]);
    client.originate_for(&f, &mut cell);
    let wire = cell.0.clone();

    // Flipping any single bit of the ciphertext makes the cell unrecognized
    // (sampled across the whole body, including both fields).
    for bit in (0..509 * 8).step_by(101) {
        let (mut relay, _, _) = mk_pair(K1).split_relay_layer();
        let mut tampered = RelayCellBody(wire.clone());
        tampered.0[bit / 8] ^= 1 << (bit % 8);
        assert!(relay.decrypt_outbound(&f, &mut tampered).is_none());
    }

    // An unrecognized cell leaves the running digest untouched: a layer that
    // rejects a cell destined deeper in the circuit still authenticates its
    // own next cell.
    let (mut c1, _, _) = mk_pair(K1).split_client_layer();
    let (mut c2, _, _) = mk_pair(K2).split_client_layer();
    let (mut r1, _, _) = mk_pair(K1).split_relay_layer();
    let (mut r2, _, _) = mk_pair(K2).split_relay_layer();

    // A cell for the second hop: originate at hop 2, wrap in hop 1's layer.
    let mut deep = RelayCellBody(vec![0x55; 509]);
    c2.originate_for(&f, &mut deep);
    c1.encrypt_outbound(&mut deep);
    assert!(r1.decrypt_outbound(&f, &mut deep).is_none());
    assert!(r2.decrypt_outbound(&f, &mut deep).is_some());

    // A subsequent cell for the first hop still authenticates there.
    let mut own = RelayCellBody(vec![0x66; 509]);
    c1.originate_for(&f, &mut own);
    assert!(r1.decrypt_outbound(&f, &mut own).is_some());
}

#[test]
fn wrong_key_rejection() {
    let f = CellFormat::v0();
    let (mut client, _, _) = mk_pair(K1).split_client_layer();
    let (mut relay, _, _) = mk_pair(K2).split_relay_layer();
    let mut rng = XorShift(99);
    for _ in 0..50 {
        let mut cell = prng_cell(&mut rng);
        client.originate_for(&f, &mut cell);
        assert!(relay.decrypt_outbound(&f, &mut cell).is_none());
    }
}

#[test]
fn multilayer_roundtrip() {
    let f = CellFormat::v0();
    let (mut c1, _, _) = mk_pair(K1).split_client_layer();
    let (mut c2, _, _) = mk_pair(K2).split_client_layer();
    let (mut c3, _, _) = mk_pair(K3).split_client_layer();
    let (mut r1, _, _) = mk_pair(K1).split_relay_layer();
    let (mut r2, _, _) = mk_pair(K2).split_relay_layer();
    let (mut r3, _, _) = mk_pair(K3).split_relay_layer();

    let mut rng = XorShift(0x5eed);
    for _ in 0..51 {
        let cell0 = prng_cell(&mut rng);
        let mut cell = RelayCellBody(cell0.0.clone());
        // Address the innermost hop, then add the outer onion layers.
        let tag_sent = c3.originate_for(&f, &mut cell);
        c2.encrypt_outbound(&mut cell);
        c1.encrypt_outbound(&mut cell);
        // Each relay peels one layer; only the last recognizes the cell.
        assert!(r1.decrypt_outbound(&f, &mut cell).is_none());
        assert!(r2.decrypt_outbound(&f, &mut cell).is_none());
        let tag_rcvd = r3.decrypt_outbound(&f, &mut cell).expect("innermost hop must recognize");
        assert_eq!(tag_sent, tag_rcvd);
        assert_eq!(&cell.0[9..], &cell0.0[9..]);
    }
}

#[test]
fn tags_accumulate() {
    // The authentication tag depends on the whole history of originated
    // cells, so two identical cell bodies get different tags.
    let f = CellFormat::v0();
    let (mut client, _, _) = mk_pair(K3).split_client_layer();
    let mut cell_a = RelayCellBody(vec![0x01; 509]);
    let mut cell_b = RelayCellBody(vec![0x01; 509]);
    let tag_a = client.originate_for(&f, &mut cell_a);
    let tag_b = client.originate_for(&f, &mut cell_b);
    assert_ne!(tag_a, tag_b);
    assert_ne!(cell_a.0, cell_b.0);
}

#[test]
fn relay_body_wrappers() {
    let f = CellFormat::v0();
    let mut body = [0u8; 509];
    for (i, b) in body.iter_mut().enumerate() {
        *b = (i % 251) as u8;
    }
    let mut cell = RelayBody::from(body);
    let mut d = RunningDigest::new(DigestAlg::Sha1);
    d.update(b"prime");
    let mut used = Vec::new();
    cell.set_digest(&f, &mut d, &mut used);
    assert_eq!(used.len(), 20);
    assert_eq!(&cell.as_bytes()[1..3], &[0, 0]);
    assert_eq!(&cell.as_bytes()[5..9], &used[0..4]);

    // A fresh accumulator primed identically recognizes the prepared cell.
    let mut d2 = RunningDigest::new(DigestAlg::Sha1);
    d2.update(b"prime");
    let mut rcvd = Vec::new();
    assert!(cell.is_recognized(&f, &mut d2, &mut rcvd));
    assert_eq!(rcvd[0..4], used[0..4]);

    // Any payload change breaks recognition.
    let mut body2 = body;
    body2[100] ^= 0x80;
    let mut cell2 = RelayBody::from(body2);
    let mut d3 = RunningDigest::new(DigestAlg::Sha1);
    d3.update(b"prime");
    cell2.set_digest(&f, &mut d3, &mut Vec::new());
    let mut d4 = RunningDigest::new(DigestAlg::Sha1);
    d4.update(b"other prime");
    assert!(!cell2.is_recognized(&f, &mut d4, &mut Vec::new()));
}

#[test]
fn hsv3_algorithms_roundtrip() {
    // The SHA3-256 / AES-256-CTR pair works through the same protocol.
    let f = CellFormat::v0();
    let seed = {
        let mut rng = XorShift(4242);
        let mut s = vec![0u8; 148];
        rng.fill(&mut s);
        s
    };
    let pair = CryptStatePair::initialize(CipherAlg::Aes256Ctr, DigestAlg::Sha3_256, &seed);
    let (mut client, _, _): (CryptState, CryptState, _) =
        pair.unwrap().split_client_layer();
    let pair2 = CryptStatePair::initialize(CipherAlg::Aes256Ctr, DigestAlg::Sha3_256, &seed);
    let (mut relay, _, _) = pair2.unwrap().split_relay_layer();
    let mut cell = RelayCellBody(vec![0x77; 509]);
    let tag1 = client.originate_for(&f, &mut cell);
    let tag2 = relay.decrypt_outbound(&f, &mut cell).expect("cell must be recognized");
    assert_eq!(tag1, tag2);
    assert_eq!(tag1.len(), SENDME_TAG_LEN);
}
