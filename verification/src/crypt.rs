//! Per-hop directional cryptographic state and its key derivation.
//!
//! A [`CryptState`] holds one stream cipher and one running keyed digest for
//! a single direction of a single hop.  A [`CryptStatePair`] is derived from
//! one opaque seed and splits into a forward state, a backward state and a
//! circuit-binding key.

use vstd::prelude::*;
use vstd::slice::{slice_subrange, slice_to_vec};

use crate::cell::{
    cell_recognized, digest_input, originate_input, originated_body, CellFormat, RelayCellBody,
};
use crate::hash::{digest_len, digest_of, digest_out_len, DigestAlg, RunningDigest};
use crate::prim::ctr128_capacity;
use crate::stream::{cipher_key_len, key_len, xor_stream, CipherAlg, RelayCipher};

verus! {

/// Length in bytes of the authentication tag handed to flow-control
/// signaling: a fixed prefix of the full digest output.
pub const SENDME_TAG_LEN: usize = 20;

/// Length in bytes of the circuit-binding key material at the tail of the
/// seed.
pub const CIRC_BINDING_LEN: usize = 20;

/// The internal/invariant error: the caller supplied a seed whose length
/// does not match the negotiated algorithm pair.  This signals a defect in
/// seed construction, not a runtime condition, and aborts circuit
/// construction.
#[derive(Debug, Clone, Copy, PartialEq, Eq, Structural)]
pub struct SeedLengthError {
    /// The length the caller supplied.
    pub got: usize,
    /// The length the negotiated algorithms require.
    pub expected: usize,
}

/// A circuit-binding key: an opaque fixed-length byte value used by
/// higher-level binding logic, not interpreted here.
pub struct CircuitBinding {
    key: Vec<u8>,
}

impl View for CircuitBinding {
    type V = Seq<u8>;

    closed spec fn view(&self) -> Seq<u8> {
        self.key@
    }
}

impl CircuitBinding {
    /// Build a binding key from a byte slice, rejecting any slice that is
    /// not exactly [`CIRC_BINDING_LEN`] bytes long.
    pub fn try_new(material: &[u8]) -> (r: Result<Self, SeedLengthError>)
        ensures
            r is Ok <==> material@.len() == CIRC_BINDING_LEN,
            r is Ok ==> r->Ok_0@ == material@,
            r is Err ==> r->Err_0 == (SeedLengthError {
                got: material@.len() as usize,
                expected: CIRC_BINDING_LEN,
            }),
    {
        if material.len() == CIRC_BINDING_LEN {
            Ok(CircuitBinding { key: slice_to_vec(material) })
        } else {
            Err(SeedLengthError { got: material.len(), expected: CIRC_BINDING_LEN })
        }
    }

    /// The key bytes.
    pub fn as_bytes(&self) -> (r: &[u8])
        ensures
            r@ == self@,
    {
        self.key.as_slice()
    }
}

/// One layer of shared cryptographic state between a relay and a client, for
/// a single hop in a single direction.
pub struct CryptState {
    /// Stream cipher for en/decrypting cell bodies.
    cipher: RelayCipher,
    /// Running digest authenticating cells to/from this hop.
    digest: RunningDigest,
    /// Most recent digest value computed by this layer.
    last_digest_val: Vec<u8>,
}

impl CryptState {
    /// Which cipher algorithm this direction runs.
    pub closed spec fn cipher_alg(self) -> CipherAlg {
        self.cipher.alg()
    }

    /// The cipher key this direction was created with.
    pub closed spec fn key(self) -> Seq<u8> {
        self.cipher.key()
    }

    /// How many keystream bytes this direction has consumed.
    pub closed spec fn pos(self) -> int {
        self.cipher.pos()
    }

    /// Which digest algorithm this direction runs.
    pub closed spec fn digest_alg(self) -> DigestAlg {
        self.digest.alg()
    }

    /// Every byte the running digest has absorbed, including its seed
    /// priming.
    pub closed spec fn absorbed(self) -> Seq<u8> {
        self.digest.absorbed()
    }

    /// The most recent digest value this layer computed.
    pub closed spec fn last_digest(self) -> Seq<u8> {
        self.last_digest_val@
    }

    /// The two algorithm choices and the frame every operation preserves.
    pub open spec fn same_algs(self, other: CryptState) -> bool {
        &&& self.cipher_alg() == other.cipher_alg()
        &&& self.key() == other.key()
        &&& self.digest_alg() == other.digest_alg()
    }

    /// Build one directional state from a cipher key and a digest seed.
    pub fn new(calg: CipherAlg, dalg: DigestAlg, cipher_key: &[u8], digest_seed: &[u8]) -> (r:
        Self)
        requires
            cipher_key@.len() == cipher_key_len(calg),
        ensures
            r.cipher_alg() == calg,
            r.key() == cipher_key@,
            r.pos() == 0,
            r.digest_alg() == dalg,
            r.absorbed() == digest_seed@,
            r.last_digest() == Seq::new(digest_out_len(dalg) as nat, |i: int| 0u8),
    {
        let mut digest = RunningDigest::new(dalg);
        digest.update(digest_seed);
        let dlen = digest_len(dalg);
        let last = vec![0u8; dlen];
        proof {
            assert(digest.absorbed() =~= digest_seed@);
            assert(last@ =~= Seq::new(digest_out_len(dalg) as nat, |i: int| 0u8));
        }
        CryptState { cipher: RelayCipher::new(calg, cipher_key), digest, last_digest_val: last }
    }

    /// Apply the keystream to the whole cell body, advancing the cipher by
    /// exactly one buffer width.  No other field is inspected or changed.
    pub fn encrypt(&mut self, cell: &mut RelayCellBody)
        requires
            old(self).pos() + old(cell)@.len() <= ctr128_capacity(),
        ensures
            final(self).same_algs(*old(self)),
            final(self).pos() == old(self).pos() + old(cell)@.len(),
            final(self).absorbed() == old(self).absorbed(),
            final(self).last_digest() == old(self).last_digest(),
            final(cell)@ == xor_stream(
                old(self).cipher_alg(),
                old(self).key(),
                old(self).pos(),
                old(cell)@,
            ),
    {
        self.cipher.apply_keystream(&mut cell.0);
    }

    /// Originate a cell in this direction: set its digest and recognized
    /// fields from the running digest, encrypt it, and return the first
    /// [`SENDME_TAG_LEN`] bytes of the digest snapshot as the flow-control
    /// authentication tag.
    pub fn originate(&mut self, f: &CellFormat, cell: &mut RelayCellBody) -> (tag: Vec<u8>)
        requires
            f.wf(),
            f.fits(old(self).digest_alg()),
            old(cell)@.len() == f.body_len,
            old(self).pos() + f.body_len <= ctr128_capacity(),
        ensures
            final(self).same_algs(*old(self)),
            final(self).pos() == old(self).pos() + f.body_len,
            final(self).absorbed() == old(self).absorbed() + originate_input(old(cell)@, *f),
            final(self).last_digest() == digest_of(
                old(self).digest_alg(),
                final(self).absorbed(),
            ),
            final(self).last_digest().len() == digest_out_len(old(self).digest_alg()),
            final(cell)@ == xor_stream(
                old(self).cipher_alg(),
                old(self).key(),
                old(self).pos(),
                originated_body(old(cell)@, *f, final(self).last_digest()),
            ),
            tag@ == final(self).last_digest().take(SENDME_TAG_LEN as int),
    {
        let mut used = Vec::new();
        cell.set_digest(f, &mut self.digest, &mut used);
        self.last_digest_val = used;
        self.cipher.apply_keystream(&mut cell.0);
        proof {
            assert(digest_out_len(self.digest.alg()) >= SENDME_TAG_LEN);
        }
        let tag = slice_to_vec(slice_subrange(self.last_digest_val.as_slice(), 0, SENDME_TAG_LEN));
        proof {
            assert(tag@ =~= self.last_digest_val@.take(SENDME_TAG_LEN as int));
        }
        tag
    }

    /// Decrypt a cell arriving in this direction and test whether it is an
    /// authenticated plaintext for this layer.
    ///
    /// The keystream is always applied; the running digest advances only on
    /// a match, so a cell destined for a deeper layer leaves this layer's
    /// state untouched.  Returns the authentication tag on a match.
    pub fn decrypt_and_check(&mut self, f: &CellFormat, cell: &mut RelayCellBody) -> (tag: Option<
        Vec<u8>,
    >)
        requires
            f.wf(),
            f.fits(old(self).digest_alg()),
            old(cell)@.len() == f.body_len,
            old(self).pos() + f.body_len <= ctr128_capacity(),
        ensures
            final(self).same_algs(*old(self)),
            final(self).pos() == old(self).pos() + f.body_len,
            final(cell)@ == xor_stream(
                old(self).cipher_alg(),
                old(self).key(),
                old(self).pos(),
                old(cell)@,
            ),
            tag is Some <==> cell_recognized(
                final(cell)@,
                *f,
                old(self).digest_alg(),
                old(self).absorbed(),
            ),
            tag is Some ==> final(self).absorbed() == old(self).absorbed() + digest_input(
                final(cell)@,
                *f,
            ),
            tag is Some ==> final(self).last_digest() == digest_of(
                old(self).digest_alg(),
                final(self).absorbed(),
            ) && final(self).last_digest().len() == digest_out_len(old(self).digest_alg()),
            tag is Some ==> tag->0@ == final(self).last_digest().take(SENDME_TAG_LEN as int),
            tag is None ==> final(self).absorbed() == old(self).absorbed() && final(self).last_digest() == old(self).last_digest(),
    {
        self.cipher.apply_keystream(&mut cell.0);
        let mut rcvd = Vec::new();
        if cell.is_recognized(f, &mut self.digest, &mut rcvd) {
            self.last_digest_val = rcvd;
            proof {
                assert(digest_out_len(self.digest.alg()) >= SENDME_TAG_LEN);
            }
            let tag = slice_to_vec(
                slice_subrange(self.last_digest_val.as_slice(), 0, SENDME_TAG_LEN),
            );
            proof {
                assert(tag@ =~= self.last_digest_val@.take(SENDME_TAG_LEN as int));
            }
            Some(tag)
        } else {
            None
        }
    }

    /// Role: client encrypting outward (outbound origination).
    pub fn originate_for(&mut self, f: &CellFormat, cell: &mut RelayCellBody) -> (tag: Vec<u8>)
        requires
            f.wf(),
            f.fits(old(self).digest_alg()),
            old(cell)@.len() == f.body_len,
            old(self).pos() + f.body_len <= ctr128_capacity(),
        ensures
            final(self).same_algs(*old(self)),
            final(self).pos() == old(self).pos() + f.body_len,
            final(self).absorbed() == old(self).absorbed() + originate_input(old(cell)@, *f),
            final(self).last_digest() == digest_of(
                old(self).digest_alg(),
                final(self).absorbed(),
            ),
            final(self).last_digest().len() == digest_out_len(old(self).digest_alg()),
            final(cell)@ == xor_stream(
                old(self).cipher_alg(),
                old(self).key(),
                old(self).pos(),
                originated_body(old(cell)@, *f, final(self).last_digest()),
            ),
            tag@ == final(self).last_digest().take(SENDME_TAG_LEN as int),
    {
        self.originate(f, cell)
    }

    /// Role: relay encrypting toward the client (inbound pass-through).
    pub fn encrypt_inbound(&mut self, cell: &mut RelayCellBody)
        requires
            old(self).pos() + old(cell)@.len() <= ctr128_capacity(),
        ensures
            final(self).same_algs(*old(self)),
            final(self).pos() == old(self).pos() + old(cell)@.len(),
            final(self).absorbed() == old(self).absorbed(),
            final(self).last_digest() == old(self).last_digest(),
            final(cell)@ == xor_stream(
                old(self).cipher_alg(),
                old(self).key(),
                old(self).pos(),
                old(cell)@,
            ),
    {
        self.encrypt(cell);
    }

    /// Role: client encrypting outward without origination (outbound
    /// pass-through).
    pub fn encrypt_outbound(&mut self, cell: &mut RelayCellBody)
        requires
            old(self).pos() + old(cell)@.len() <= ctr128_capacity(),
        ensures
            final(self).same_algs(*old(self)),
            final(self).pos() == old(self).pos() + old(cell)@.len(),
            final(self).absorbed() == old(self).absorbed(),
            final(self).last_digest() == old(self).last_digest(),
            final(cell)@ == xor_stream(
                old(self).cipher_alg(),
                old(self).key(),
                old(self).pos(),
                old(cell)@,
            ),
    {
        self.encrypt(cell);
    }

    /// Role: relay decrypting cells arriving from the client.
    pub fn decrypt_outbound(&mut self, f: &CellFormat, cell: &mut RelayCellBody) -> (tag: Option<
        Vec<u8>,
    >)
        requires
            f.wf(),
            f.fits(old(self).digest_alg()),
            old(cell)@.len() == f.body_len,
            old(self).pos() + f.body_len <= ctr128_capacity(),
        ensures
            final(self).same_algs(*old(self)),
            final(self).pos() == old(self).pos() + f.body_len,
            final(cell)@ == xor_stream(
                old(self).cipher_alg(),
                old(self).key(),
                old(self).pos(),
                old(cell)@,
            ),
            tag is Some <==> cell_recognized(
                final(cell)@,
                *f,
                old(self).digest_alg(),
                old(self).absorbed(),
            ),
            tag is Some ==> final(self).absorbed() == old(self).absorbed() + digest_input(
                final(cell)@,
                *f,
            ) && final(self).last_digest() == digest_of(
                old(self).digest_alg(),
                final(self).absorbed(),
            ) && final(self).last_digest().len() == digest_out_len(old(self).digest_alg())
                && tag->0@ == final(self).last_digest().take(SENDME_TAG_LEN as int),
            tag is None ==> final(self).absorbed() == old(self).absorbed() && final(self).last_digest() == old(self).last_digest(),
    {
        self.decrypt_and_check(f, cell)
    }

    /// Role: client decrypting cells arriving from a relay.
    pub fn decrypt_inbound(&mut self, f: &CellFormat, cell: &mut RelayCellBody) -> (tag: Option<
        Vec<u8>,
    >)
        requires
            f.wf(),
            f.fits(old(self).digest_alg()),
            old(cell)@.len() == f.body_len,
            old(self).pos() + f.body_len <= ctr128_capacity(),
        ensures
            final(self).same_algs(*old(self)),
            final(self).pos() == old(self).pos() + f.body_len,
            final(cell)@ == xor_stream(
                old(self).cipher_alg(),
                old(self).key(),
                old(self).pos(),
                old(cell)@,
            ),
            tag is Some <==> cell_recognized(
                final(cell)@,
                *f,
                old(self).digest_alg(),
                old(self).absorbed(),
            ),
            tag is Some ==> final(self).absorbed() == old(self).absorbed() + digest_input(
                final(cell)@,
                *f,
            ) && final(self).last_digest() == digest_of(
                old(self).digest_alg(),
                final(self).absorbed(),
            ) && final(self).last_digest().len() == digest_out_len(old(self).digest_alg())
                && tag->0@ == final(self).last_digest().take(SENDME_TAG_LEN as int),
            tag is None ==> final(self).absorbed() == old(self).absorbed() && final(self).last_digest() == old(self).last_digest(),
    {
        self.decrypt_and_check(f, cell)
    }
}

/// A pair of directional states shared between a client and a relay: one for
/// the outbound direction, one for the inbound direction, plus the
/// circuit-binding key.
pub struct CryptStatePair {
    /// State for cells sent away from the client.
    fwd: CryptState,
    /// State for cells sent towards the client.
    back: CryptState,
    /// The circuit-binding key.
    binding: CircuitBinding,
}

/// The exact seed length required by an algorithm pair:
/// two digest seeds, two cipher keys, and the binding key material.
pub open spec fn spec_seed_len(calg: CipherAlg, dalg: DigestAlg) -> int {
    2 * digest_out_len(dalg) + 2 * cipher_key_len(calg) + CIRC_BINDING_LEN
}

/// What a pair freshly derived from `seed` looks like: the seed splits, in
/// fixed order with no padding, into the forward digest seed, the backward
/// digest seed, the forward cipher key, the backward cipher key, and the
/// binding key material.
pub open spec fn derived_from(
    pair: CryptStatePair,
    calg: CipherAlg,
    dalg: DigestAlg,
    seed: Seq<u8>,
) -> bool {
    let d = digest_out_len(dalg);
    let k = cipher_key_len(calg);
    &&& seed.len() == spec_seed_len(calg, dalg)
    &&& pair.fwd().cipher_alg() == calg
    &&& pair.back().cipher_alg() == calg
    &&& pair.fwd().digest_alg() == dalg
    &&& pair.back().digest_alg() == dalg
    &&& pair.fwd().absorbed() == seed.subrange(0, d)
    &&& pair.back().absorbed() == seed.subrange(d, 2 * d)
    &&& pair.fwd().key() == seed.subrange(2 * d, 2 * d + k)
    &&& pair.back().key() == seed.subrange(2 * d + k, 2 * d + 2 * k)
    &&& pair.fwd().pos() == 0
    &&& pair.back().pos() == 0
    &&& pair.fwd().last_digest() == Seq::new(d as nat, |i: int| 0u8)
    &&& pair.back().last_digest() == Seq::new(d as nat, |i: int| 0u8)
    &&& pair.binding()@ == seed.subrange(2 * d + 2 * k, 2 * d + 2 * k + CIRC_BINDING_LEN)
}

impl CryptStatePair {
    /// The forward (away from the client) directional state.
    pub closed spec fn fwd(self) -> CryptState {
        self.fwd
    }

    /// The backward (towards the client) directional state.
    pub closed spec fn back(self) -> CryptState {
        self.back
    }

    /// The circuit-binding key.
    pub closed spec fn binding(self) -> CircuitBinding {
        self.binding
    }

    /// The exact seed length required by an algorithm pair.
    pub fn seed_len(calg: CipherAlg, dalg: DigestAlg) -> (n: usize)
        ensures
            n == spec_seed_len(calg, dalg),
    {
        2 * digest_len(dalg) + 2 * key_len(calg) + CIRC_BINDING_LEN
    }

    /// Derive a pair from an opaque seed laid out as
    /// `digest_seed_fwd ‖ digest_seed_back ‖ cipher_key_fwd ‖ cipher_key_back
    /// ‖ binding_key`.
    ///
    /// A seed of any other length is rejected with the internal/invariant
    /// error; it is never truncated or padded.
    pub fn initialize(calg: CipherAlg, dalg: DigestAlg, seed: &[u8]) -> (r: Result<
        Self,
        SeedLengthError,
    >)
        ensures
            r is Ok <==> seed@.len() == spec_seed_len(calg, dalg),
            r is Ok ==> derived_from(r->Ok_0, calg, dalg, seed@),
            r is Err ==> r->Err_0 == (SeedLengthError {
                got: seed@.len() as usize,
                expected: spec_seed_len(calg, dalg) as usize,
            }),
    {
        let dlen = digest_len(dalg);
        let klen = key_len(calg);
        let total = Self::seed_len(calg, dalg);
        if seed.len() != total {
            return Err(SeedLengthError { got: seed.len(), expected: total });
        }
        let df = slice_subrange(seed, 0, dlen);
        let db = slice_subrange(seed, dlen, 2 * dlen);
        let kf = slice_subrange(seed, 2 * dlen, 2 * dlen + klen);
        let kb = slice_subrange(seed, 2 * dlen + klen, 2 * dlen + 2 * klen);
        let bk = slice_subrange(seed, 2 * dlen + 2 * klen, total);
        let fwd = CryptState::new(calg, dalg, kf, df);
        let back = CryptState::new(calg, dalg, kb, db);
        let binding = match CircuitBinding::try_new(bk) {
            Ok(b) => b,
            Err(_) => vstd::pervasive::unreached(),
        };
        Ok(CryptStatePair { fwd, back, binding })
    }

    /// Split into the parts a client keeps: the forward state (for
    /// origination), the backward state (for recognition), and the binding
    /// key.
    pub fn split_client_layer(self) -> (r: (CryptState, CryptState, CircuitBinding))
        ensures
            r.0 == self.fwd(),
            r.1 == self.back(),
            r.2 == self.binding(),
    {
        (self.fwd, self.back, self.binding)
    }

    /// Split into the parts a relay keeps: the forward state (for
    /// recognition), the backward state (for origination), and the binding
    /// key.
    pub fn split_relay_layer(self) -> (r: (CryptState, CryptState, CircuitBinding))
        ensures
            r.0 == self.fwd(),
            r.1 == self.back(),
            r.2 == self.binding(),
    {
        let CryptStatePair { fwd, back, binding } = self;
        (fwd, back, binding)
    }

    /// Composed role for round-trip testing: originate a cell on the
    /// backward direction directly on the pair.
    pub fn originate(&mut self, f: &CellFormat, cell: &mut RelayCellBody) -> (tag: Vec<u8>)
        requires
            f.wf(),
            f.fits(old(self).back().digest_alg()),
            old(cell)@.len() == f.body_len,
            old(self).back().pos() + f.body_len <= ctr128_capacity(),
        ensures
            final(self).fwd() == old(self).fwd(),
            final(self).binding() == old(self).binding(),
            final(self).back().same_algs(old(self).back()),
            final(self).back().pos() == old(self).back().pos() + f.body_len,
            final(self).back().absorbed() == old(self).back().absorbed() + originate_input(
                old(cell)@,
                *f,
            ),
            final(self).back().last_digest() == digest_of(
                old(self).back().digest_alg(),
                final(self).back().absorbed(),
            ),
            final(self).back().last_digest().len() == digest_out_len(
                old(self).back().digest_alg(),
            ),
            final(cell)@ == xor_stream(
                old(self).back().cipher_alg(),
                old(self).back().key(),
                old(self).back().pos(),
                originated_body(old(cell)@, *f, final(self).back().last_digest()),
            ),
            tag@ == final(self).back().last_digest().take(SENDME_TAG_LEN as int),
    {
        self.back.originate(f, cell)
    }

    /// Composed role for round-trip testing: blind inbound encryption on the
    /// pair's backward direction.
    pub fn encrypt_inbound(&mut self, cell: &mut RelayCellBody)
        requires
            old(self).back().pos() + old(cell)@.len() <= ctr128_capacity(),
        ensures
            final(self).fwd() == old(self).fwd(),
            final(self).binding() == old(self).binding(),
            final(self).back().same_algs(old(self).back()),
            final(self).back().pos() == old(self).back().pos() + old(cell)@.len(),
            final(self).back().absorbed() == old(self).back().absorbed(),
            final(self).back().last_digest() == old(self).back().last_digest(),
            final(cell)@ == xor_stream(
                old(self).back().cipher_alg(),
                old(self).back().key(),
                old(self).back().pos(),
                old(cell)@,
            ),
    {
        self.back.encrypt_inbound(cell);
    }

    /// Composed role for round-trip testing: decrypt-and-check on the pair's
    /// forward direction.
    pub fn decrypt_outbound(&mut self, f: &CellFormat, cell: &mut RelayCellBody) -> (tag: Option<
        Vec<u8>,
    >)
        requires
            f.wf(),
            f.fits(old(self).fwd().digest_alg()),
            old(cell)@.len() == f.body_len,
            old(self).fwd().pos() + f.body_len <= ctr128_capacity(),
        ensures
            final(self).back() == old(self).back(),
            final(self).binding() == old(self).binding(),
            final(self).fwd().same_algs(old(self).fwd()),
            final(self).fwd().pos() == old(self).fwd().pos() + f.body_len,
            final(cell)@ == xor_stream(
                old(self).fwd().cipher_alg(),
                old(self).fwd().key(),
                old(self).fwd().pos(),
                old(cell)@,
            ),
            tag is Some <==> cell_recognized(
                final(cell)@,
                *f,
                old(self).fwd().digest_alg(),
                old(self).fwd().absorbed(),
            ),
            tag is Some ==> final(self).fwd().absorbed() == old(self).fwd().absorbed()
                + digest_input(final(cell)@, *f) && final(self).fwd().last_digest() == digest_of(
                old(self).fwd().digest_alg(),
                final(self).fwd().absorbed(),
            ) && tag->0@ == final(self).fwd().last_digest().take(SENDME_TAG_LEN as int),
            tag is None ==> final(self).fwd().absorbed() == old(self).fwd().absorbed() && final(self).fwd().last_digest() == old(self).fwd().last_digest(),
    {
        self.fwd.decrypt_and_check(f, cell)
    }
}

} // verus!
