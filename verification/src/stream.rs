//! The stream cipher for one direction of one hop.
//!
//! The cipher is keyed once at creation with an all-zero initialization
//! vector; uniqueness across the cell stream comes from the monotonically
//! advancing stream position, never from an IV.  Its mathematical view is
//! the key it was created with and the number of keystream bytes produced.

use vstd::prelude::*;

use crate::prim::{
    aes128_apply, aes128_key, aes128_keystream, aes128_new, aes128_pos, aes256_apply, aes256_key,
    aes256_keystream, aes256_new, aes256_pos, ctr128_capacity, Aes128Ctr, Aes256Ctr,
};

verus! {

/// Which stream-cipher algorithm a circuit negotiated.
#[derive(Clone, Copy, PartialEq, Eq, Structural, Debug)]
pub enum CipherAlg {
    /// AES-128-CTR, used by ordinary circuits.
    Aes128Ctr,
    /// AES-256-CTR, used by v3 onion-service circuits.
    Aes256Ctr,
}

/// Key width in bytes of a cipher algorithm.
pub open spec fn cipher_key_len(alg: CipherAlg) -> int {
    match alg {
        CipherAlg::Aes128Ctr => 16,
        CipherAlg::Aes256Ctr => 32,
    }
}

/// Key width in bytes of a cipher algorithm.
pub fn key_len(alg: CipherAlg) -> (n: usize)
    ensures
        n == cipher_key_len(alg),
{
    match alg {
        CipherAlg::Aes128Ctr => 16,
        CipherAlg::Aes256Ctr => 32,
    }
}

/// Byte `i` of the keystream generated under `alg` and `key`.
pub open spec fn keystream(alg: CipherAlg, key: Seq<u8>, i: int) -> u8 {
    match alg {
        CipherAlg::Aes128Ctr => aes128_keystream(key, i),
        CipherAlg::Aes256Ctr => aes256_keystream(key, i),
    }
}

/// `data` XORed with the keystream under `alg` and `key`, starting at stream
/// position `pos`.
pub open spec fn xor_stream(alg: CipherAlg, key: Seq<u8>, pos: int, data: Seq<u8>) -> Seq<u8> {
    Seq::new(data.len(), |i: int| data[i] ^ keystream(alg, key, pos + i))
}

/// Applying the same keystream twice gives the original data back: XOR is an
/// involution byte by byte.
pub proof fn lemma_xor_stream_involution(alg: CipherAlg, key: Seq<u8>, pos: int, data: Seq<u8>)
    ensures
        xor_stream(alg, key, pos, xor_stream(alg, key, pos, data)) == data,
{
    let once = xor_stream(alg, key, pos, data);
    let twice = xor_stream(alg, key, pos, once);
    assert forall|i: int| 0 <= i < data.len() implies twice[i] == data[i] by {
        let d = data[i];
        let k = keystream(alg, key, pos + i);
        assert((d ^ k) ^ k == d) by (bit_vector);
    }
    assert(twice =~= data);
}

/// A running stream-cipher instance.
pub enum RelayCipher {
    /// An AES-128-CTR instance.
    Aes128(Aes128Ctr),
    /// An AES-256-CTR instance.
    Aes256(Aes256Ctr),
}

impl RelayCipher {
    /// Which algorithm this instance runs.
    pub open spec fn alg(self) -> CipherAlg {
        match self {
            RelayCipher::Aes128(_) => CipherAlg::Aes128Ctr,
            RelayCipher::Aes256(_) => CipherAlg::Aes256Ctr,
        }
    }

    /// The key this instance was created with.
    pub closed spec fn key(self) -> Seq<u8> {
        match self {
            RelayCipher::Aes128(c) => aes128_key(c),
            RelayCipher::Aes256(c) => aes256_key(c),
        }
    }

    /// How many keystream bytes this instance has produced so far.
    pub closed spec fn pos(self) -> int {
        match self {
            RelayCipher::Aes128(c) => aes128_pos(c),
            RelayCipher::Aes256(c) => aes256_pos(c),
        }
    }

    /// Create an instance keyed with `key` at stream position zero.
    pub fn new(alg: CipherAlg, key: &[u8]) -> (r: Self)
        requires
            key@.len() == cipher_key_len(alg),
        ensures
            r.alg() == alg,
            r.key() == key@,
            r.pos() == 0,
    {
        match alg {
            CipherAlg::Aes128Ctr => RelayCipher::Aes128(aes128_new(key)),
            CipherAlg::Aes256Ctr => RelayCipher::Aes256(aes256_new(key)),
        }
    }

    /// XOR the keystream into `buf` in place, advancing the stream position
    /// by the buffer's length.
    pub fn apply_keystream(&mut self, buf: &mut Vec<u8>)
        requires
            old(self).pos() + old(buf)@.len() <= ctr128_capacity(),
        ensures
            final(self).alg() == old(self).alg(),
            final(self).key() == old(self).key(),
            final(self).pos() == old(self).pos() + old(buf)@.len(),
            final(buf)@ == xor_stream(old(self).alg(), old(self).key(), old(self).pos(), old(buf)@),
    {
        let ghost alg = self.alg();
        let ghost key = self.key();
        let ghost pos = self.pos();
        let ghost data = buf@;
        match self {
            RelayCipher::Aes128(c) => aes128_apply(c, buf),
            RelayCipher::Aes256(c) => aes256_apply(c, buf),
        }
        proof {
            assert(buf@ =~= xor_stream(alg, key, pos, data));
        }
    }
}

} // verus!
