//! Library-wide laws relating the layer operations.

use vstd::prelude::*;

use crate::cell::{
    cell_recognized, digest_input, originate_input, originated_body, CellFormat,
};
use crate::crypt::{derived_from, CryptStatePair};
use crate::hash::{digest_of, digest_out_len, DigestAlg};
use crate::stream::{lemma_xor_stream_involution, xor_stream, CipherAlg};

verus! {

/// Law: key derivation is deterministic.  Two pairs derived from the same
/// seed with the same algorithm choices agree on every observable part of
/// their state: keys, digest primings, positions, and binding key.
pub proof fn lemma_derivation_deterministic(
    first: CryptStatePair,
    second: CryptStatePair,
    calg: CipherAlg,
    dalg: DigestAlg,
    seed: Seq<u8>,
)
    requires
        derived_from(first, calg, dalg, seed),
        derived_from(second, calg, dalg, seed),
    ensures
        first.fwd().key() == second.fwd().key(),
        first.back().key() == second.back().key(),
        first.fwd().absorbed() == second.fwd().absorbed(),
        first.back().absorbed() == second.back().absorbed(),
        first.fwd().pos() == second.fwd().pos(),
        first.back().pos() == second.back().pos(),
        first.binding()@ == second.binding()@,
{
}

/// Law: originate then decrypt-and-check round-trips.  Sealing any cell body
/// under a directional state, then decrypting the resulting ciphertext under
/// a state with the same key, stream position, digest algorithm and
/// accumulated stream, recovers exactly the sealed plaintext, recognizes it,
/// and computes the same digest value (hence the same authentication tag)
/// that origination reported.
///
/// The digest-width hypothesis states only that the digest output has its
/// algorithm's nominal width, which every digest computed by this library
/// has.
pub proof fn lemma_originate_recognize_roundtrip(
    body: Seq<u8>,
    f: CellFormat,
    dalg: DigestAlg,
    calg: CipherAlg,
    absorbed: Seq<u8>,
    key: Seq<u8>,
    pos: int,
)
    requires
        f.wf(),
        f.fits(dalg),
        body.len() == f.body_len,
        digest_of(dalg, absorbed + originate_input(body, f)).len() == digest_out_len(dalg),
    ensures
        ({
            let dg = digest_of(dalg, absorbed + originate_input(body, f));
            let sealed = originated_body(body, f, dg);
            let wire = xor_stream(calg, key, pos, sealed);
            &&& xor_stream(calg, key, pos, wire) == sealed
            &&& cell_recognized(sealed, f, dalg, absorbed)
            &&& digest_of(dalg, absorbed + digest_input(sealed, f)) == dg
        }),
{
    let dg = digest_of(dalg, absorbed + originate_input(body, f));
    let sealed = originated_body(body, f, dg);
    lemma_xor_stream_involution(calg, key, pos, sealed);
    assert(digest_input(sealed, f) =~= originate_input(body, f));
    assert(sealed.subrange(f.digest_start as int, f.digest_end as int) =~= dg.take(
        f.digest_width(),
    ));
}

/// Law: the running digest is order sensitive.  Absorbing two distinct
/// equal-length cells in the two possible orders leaves the accumulator with
/// different absorbed streams, so the two post-states are never
/// interchangeable.
pub proof fn lemma_digest_order_sensitive(s0: Seq<u8>, a: Seq<u8>, b: Seq<u8>)
    requires
        a.len() == b.len(),
        a != b,
    ensures
        s0 + a + b != s0 + b + a,
{
    if s0 + a + b == s0 + b + a {
        assert forall|i: int| 0 <= i < a.len() implies a[i] == b[i] by {
            assert((s0 + a + b)[s0.len() + i] == a[i]);
            assert((s0 + b + a)[s0.len() + i] == b[i]);
        }
        assert(a =~= b);
    }
}

} // verus!
