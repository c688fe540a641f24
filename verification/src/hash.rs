//! The running keyed digest for one direction of one hop.
//!
//! An accumulator absorbs every cell successfully processed in its
//! direction, in order.  Its mathematical view is the full byte stream
//! absorbed so far; finalizing is modelled by the uninterpreted digest
//! functions of [`crate::prim`].

use vstd::prelude::*;

use crate::prim::{
    sha1_absorbed, sha1_clone, sha1_digest_of, sha1_finalize, sha1_new, sha1_update, sha3_absorbed,
    sha3_clone, sha3_digest_of, sha3_finalize, sha3_new, sha3_update,
};

verus! {

/// Which digest algorithm a circuit negotiated for cell authentication.
#[derive(Clone, Copy, PartialEq, Eq, Structural, Debug)]
pub enum DigestAlg {
    /// SHA-1, used by ordinary circuits.
    Sha1,
    /// SHA3-256, used by v3 onion-service circuits.
    Sha3_256,
}

/// Output width in bytes of a digest algorithm.
pub open spec fn digest_out_len(alg: DigestAlg) -> int {
    match alg {
        DigestAlg::Sha1 => 20,
        DigestAlg::Sha3_256 => 32,
    }
}

/// The digest of `data` under `alg`.
pub open spec fn digest_of(alg: DigestAlg, data: Seq<u8>) -> Seq<u8> {
    match alg {
        DigestAlg::Sha1 => sha1_digest_of(data),
        DigestAlg::Sha3_256 => sha3_digest_of(data),
    }
}

/// Output width in bytes of a digest algorithm.
pub fn digest_len(alg: DigestAlg) -> (n: usize)
    ensures
        n == digest_out_len(alg),
{
    match alg {
        DigestAlg::Sha1 => 20,
        DigestAlg::Sha3_256 => 32,
    }
}

/// A running keyed-digest accumulator.
pub enum RunningDigest {
    /// A SHA-1 accumulator.
    Sha1(sha1::Sha1),
    /// A SHA3-256 accumulator.
    Sha3_256(sha3::Sha3_256),
}

impl RunningDigest {
    /// Which algorithm this accumulator runs.
    pub open spec fn alg(self) -> DigestAlg {
        match self {
            RunningDigest::Sha1(_) => DigestAlg::Sha1,
            RunningDigest::Sha3_256(_) => DigestAlg::Sha3_256,
        }
    }

    /// Every byte this accumulator has absorbed, oldest first.
    pub closed spec fn absorbed(self) -> Seq<u8> {
        match self {
            RunningDigest::Sha1(d) => sha1_absorbed(d),
            RunningDigest::Sha3_256(d) => sha3_absorbed(d),
        }
    }

    /// Create an accumulator that has absorbed nothing.
    pub fn new(alg: DigestAlg) -> (r: Self)
        ensures
            r.alg() == alg,
            r.absorbed() == Seq::<u8>::empty(),
    {
        match alg {
            DigestAlg::Sha1 => RunningDigest::Sha1(sha1_new()),
            DigestAlg::Sha3_256 => RunningDigest::Sha3_256(sha3_new()),
        }
    }

    /// Absorb `data`, appending it to the accumulated stream.
    pub fn update(&mut self, data: &[u8])
        ensures
            final(self).alg() == old(self).alg(),
            final(self).absorbed() == old(self).absorbed() + data@,
    {
        match self {
            RunningDigest::Sha1(d) => sha1_update(d, data),
            RunningDigest::Sha3_256(d) => sha3_update(d, data),
        }
    }

    /// An independent copy of the accumulator, for a disposable probe.
    pub fn clone_state(&self) -> (r: Self)
        ensures
            r.alg() == self.alg(),
            r.absorbed() == self.absorbed(),
    {
        match self {
            RunningDigest::Sha1(d) => RunningDigest::Sha1(sha1_clone(d)),
            RunningDigest::Sha3_256(d) => RunningDigest::Sha3_256(sha3_clone(d)),
        }
    }

    /// Finalize a snapshot of the accumulated stream without disturbing the
    /// accumulator itself.
    pub fn snapshot(&self) -> (r: Vec<u8>)
        ensures
            r@ == digest_of(self.alg(), self.absorbed()),
            r@.len() == digest_out_len(self.alg()),
    {
        match self {
            RunningDigest::Sha1(d) => sha1_finalize(sha1_clone(d)),
            RunningDigest::Sha3_256(d) => sha3_finalize(sha3_clone(d)),
        }
    }
}

} // verus!
