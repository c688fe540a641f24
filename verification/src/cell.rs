//! Relay cell bodies and the digest/recognized authentication protocol.
//!
//! A relay cell body is a fixed-size byte buffer holding two short
//! authentication fields at format-defined offsets: a "recognized" field
//! whose valid value is all-zero, and a "digest" field holding a truncated
//! prefix of the running digest finalized over the cell with both fields
//! zeroed.

use vstd::prelude::*;
use vstd::slice::slice_subrange;

use crate::hash::{digest_of, digest_out_len, DigestAlg, RunningDigest};

verus! {

/// How one relay-cell wire format partitions the fixed-size body.
///
/// Distinct formats place the fields differently; the algorithm is otherwise
/// format-agnostic.
#[derive(Clone, Copy, PartialEq, Eq, Structural, Debug)]
pub struct CellFormat {
    /// First byte of the recognized field.
    pub recognized_start: usize,
    /// One past the last byte of the recognized field.
    pub recognized_end: usize,
    /// First byte of the digest field.
    pub digest_start: usize,
    /// One past the last byte of the digest field.
    pub digest_end: usize,
    /// Width of the whole cell body.
    pub body_len: usize,
}

impl CellFormat {
    /// Both fields lie inside the body and the recognized field comes first.
    pub open spec fn wf(self) -> bool {
        self.recognized_start <= self.recognized_end
            && self.recognized_end <= self.digest_start
            && self.digest_start <= self.digest_end
            && self.digest_end <= self.body_len
    }

    /// The digest field is no wider than the digest algorithm's output, so a
    /// truncated prefix of the output fills it completely.
    pub open spec fn fits(self, alg: DigestAlg) -> bool {
        self.digest_end - self.digest_start <= digest_out_len(alg)
    }

    /// Width of the digest field.
    pub open spec fn digest_width(self) -> int {
        self.digest_end - self.digest_start
    }

    /// The v0 relay cell format: a 509-byte body with the recognized field at
    /// bytes 1..3 and the digest field at bytes 5..9.
    pub fn v0() -> (f: Self)
        ensures
            f == spec_v0_format(),
            f.wf(),
            f.fits(DigestAlg::Sha1),
            f.fits(DigestAlg::Sha3_256),
    {
        CellFormat {
            recognized_start: 1,
            recognized_end: 3,
            digest_start: 5,
            digest_end: 9,
            body_len: 509,
        }
    }
}

/// The v0 format constants.
pub open spec fn spec_v0_format() -> CellFormat {
    CellFormat {
        recognized_start: 1,
        recognized_end: 3,
        digest_start: 5,
        digest_end: 9,
        body_len: 509,
    }
}

/// `body` with the bytes of `[start, end)` replaced by zeros.
pub open spec fn zeroed_range(body: Seq<u8>, start: int, end: int) -> Seq<u8> {
    Seq::new(body.len(), |i: int| if start <= i < end { 0u8 } else { body[i] })
}

/// Every byte of `s` is zero.
pub open spec fn all_zero(s: Seq<u8>) -> bool {
    forall|i: int| 0 <= i < s.len() ==> s[i] == 0
}

/// The byte stream a cell contributes to the running digest when it is
/// checked: its body with the digest field read as zeros.
pub open spec fn digest_input(body: Seq<u8>, f: CellFormat) -> Seq<u8> {
    zeroed_range(body, f.digest_start as int, f.digest_end as int)
}

/// The byte stream an originating endpoint feeds to the running digest: the
/// body with both the recognized and the digest field zeroed.
pub open spec fn originate_input(body: Seq<u8>, f: CellFormat) -> Seq<u8> {
    digest_input(zeroed_range(body, f.recognized_start as int, f.recognized_end as int), f)
}

/// `body` as `originate` rewrites it before encryption: recognized field
/// zeroed, digest field holding the matching prefix of `dg`, everything else
/// unchanged.
pub open spec fn originated_body(body: Seq<u8>, f: CellFormat, dg: Seq<u8>) -> Seq<u8> {
    Seq::new(
        body.len(),
        |i: int|
            if f.recognized_start <= i < f.recognized_end {
                0u8
            } else if f.digest_start <= i < f.digest_end {
                dg[i - f.digest_start]
            } else {
                body[i]
            },
    )
}

/// A just-decrypted cell body is an authenticated plaintext for an
/// accumulator in state `absorbed`: its recognized field is all-zero and its
/// digest field equals the truncated digest of the accumulated stream
/// extended with this cell's digest input.
pub open spec fn cell_recognized(
    body: Seq<u8>,
    f: CellFormat,
    alg: DigestAlg,
    absorbed: Seq<u8>,
) -> bool {
    &&& all_zero(body.subrange(f.recognized_start as int, f.recognized_end as int))
    &&& body.subrange(f.digest_start as int, f.digest_end as int) == digest_of(
        alg,
        absorbed + digest_input(body, f),
    ).take(f.digest_width())
}

/// One relay cell body.  Each operation takes exclusive access, mutates it
/// in place, and returns a short derived tag; no state persists in the
/// buffer itself.
pub struct RelayCellBody(pub Vec<u8>);

impl View for RelayCellBody {
    type V = Seq<u8>;

    open spec fn view(&self) -> Seq<u8> {
        self.0@
    }
}

/// Overwrite the bytes of `[start, end)` with zeros.
fn zero_fill(v: &mut Vec<u8>, start: usize, end: usize)
    requires
        start <= end <= old(v)@.len(),
    ensures
        final(v)@ == zeroed_range(old(v)@, start as int, end as int),
{
    let mut i = start;
    while i < end
        invariant
            start <= i <= end <= v@.len(),
            v@.len() == old(v)@.len(),
            forall|j: int| 0 <= j < v@.len() && !(start <= j < i) ==> v@[j] == old(v)@[j],
            forall|j: int| start <= j < i ==> v@[j] == 0,
        decreases end - i,
    {
        v[i] = 0;
        i += 1;
    }
    assert(v@ =~= zeroed_range(old(v)@, start as int, end as int));
}

impl RelayCellBody {
    /// The recognized field.
    pub fn recognized(&self, f: &CellFormat) -> (r: &[u8])
        requires
            f.wf(),
            self@.len() == f.body_len,
        ensures
            r@ == self@.subrange(f.recognized_start as int, f.recognized_end as int),
    {
        slice_subrange(self.0.as_slice(), f.recognized_start, f.recognized_end)
    }

    /// The digest field.
    pub fn digest(&self, f: &CellFormat) -> (r: &[u8])
        requires
            f.wf(),
            self@.len() == f.body_len,
        ensures
            r@ == self@.subrange(f.digest_start as int, f.digest_end as int),
    {
        slice_subrange(self.0.as_slice(), f.digest_start, f.digest_end)
    }

    /// Prepare this cell for origination: zero the recognized and digest
    /// fields, feed the whole zeroed body to the running digest, snapshot the
    /// digest into `used_digest`, and write its truncated prefix into the
    /// digest field.
    pub fn set_digest(&mut self, f: &CellFormat, d: &mut RunningDigest, used_digest: &mut Vec<u8>)
        requires
            f.wf(),
            f.fits(old(d).alg()),
            old(self)@.len() == f.body_len,
        ensures
            final(d).alg() == old(d).alg(),
            final(d).absorbed() == old(d).absorbed() + originate_input(old(self)@, *f),
            final(used_digest)@ == digest_of(old(d).alg(), final(d).absorbed()),
            final(used_digest)@.len() == digest_out_len(old(d).alg()),
            final(self)@ == originated_body(old(self)@, *f, final(used_digest)@),
    {
        let ghost body0 = self@;
        zero_fill(&mut self.0, f.recognized_start, f.recognized_end);
        zero_fill(&mut self.0, f.digest_start, f.digest_end);
        proof {
            assert(self@ =~= originate_input(body0, *f));
        }
        d.update(self.0.as_slice());
        let snap = d.snapshot();
        let width = f.digest_end - f.digest_start;
        let mut i: usize = 0;
        while i < width
            invariant
                i <= width,
                width == f.digest_width(),
                f.wf(),
                self@.len() == f.body_len,
                snap@.len() >= width,
                forall|j: int|
                    0 <= j < self@.len() && !(f.digest_start <= j < f.digest_start + i) ==> self@[j]
                        == originate_input(body0, *f)[j],
                forall|j: int|
                    f.digest_start <= j < f.digest_start + i ==> self@[j] == snap@[j
                        - f.digest_start],
            decreases width - i,
        {
            self.0[f.digest_start + i] = snap[i];
            i += 1;
        }
        *used_digest = snap;
        proof {
            assert(self@ =~= originated_body(body0, *f, used_digest@));
        }
    }

    /// Check whether this just-decrypted cell is an authenticated plaintext
    /// for the running digest `d`.
    ///
    /// On a match the probe state is committed: the accumulator absorbs the
    /// cell's digest input and the full finalized value is stored in `rcvd`.
    /// On a mismatch both are left exactly as they were, so a later layer or
    /// a later cell can still authenticate.  Both field comparisons run in
    /// constant time with respect to the buffer's contents.
    pub fn is_recognized(&self, f: &CellFormat, d: &mut RunningDigest, rcvd: &mut Vec<u8>) -> (r:
        bool)
        requires
            f.wf(),
            f.fits(old(d).alg()),
            self@.len() == f.body_len,
        ensures
            r == cell_recognized(self@, *f, old(d).alg(), old(d).absorbed()),
            final(d).alg() == old(d).alg(),
            r ==> final(d).absorbed() == old(d).absorbed() + digest_input(self@, *f),
            r ==> final(rcvd)@ == digest_of(
                old(d).alg(),
                old(d).absorbed() + digest_input(self@, *f),
            ) && final(rcvd)@.len() == digest_out_len(old(d).alg()),
            !r ==> *final(d) == *old(d) && *final(rcvd) == *old(rcvd),
    {
        let width = f.recognized_end - f.recognized_start;
        let zeros = vec![0u8; width];
        let rec = self.recognized(f);
        if !crate::prim::ct_bytes_eq(rec, zeros.as_slice()) {
            proof {
                let sub = self@.subrange(f.recognized_start as int, f.recognized_end as int);
                assert(all_zero(sub) ==> sub =~= zeros@);
            }
            return false;
        }
        let mut scratch = d.clone_state();
        scratch.update(slice_subrange(self.0.as_slice(), 0, f.digest_start));
        let dwidth = f.digest_end - f.digest_start;
        let dzeros = vec![0u8; dwidth];
        scratch.update(dzeros.as_slice());
        scratch.update(slice_subrange(self.0.as_slice(), f.digest_end, self.0.len()));
        proof {
            assert(scratch.absorbed() =~= old(d).absorbed() + digest_input(self@, *f));
        }
        let result = scratch.snapshot();
        let actual = self.digest(f);
        let expected = slice_subrange(result.as_slice(), 0, dwidth);
        proof {
            assert(expected@ =~= digest_of(old(d).alg(), old(d).absorbed() + digest_input(self@, *f)).take(
                f.digest_width(),
            ));
        }
        if crate::prim::ct_bytes_eq(actual, expected) {
            *d = scratch;
            *rcvd = result;
            true
        } else {
            false
        }
    }
}

/// Public wrapper around [`RelayCellBody`] exposing the digest/recognized
/// algorithm on plain byte arrays.
pub struct RelayBody(pub RelayCellBody);

impl View for RelayBody {
    type V = Seq<u8>;

    open spec fn view(&self) -> Seq<u8> {
        self.0@
    }
}

impl RelayBody {
    /// Wrap a fixed-size cell body.
    pub fn from(body: [u8; 509]) -> (r: Self)
        ensures
            r@ == body@,
    {
        let v = vstd::slice::slice_to_vec(body.as_slice());
        RelayBody(RelayCellBody(v))
    }

    /// The raw bytes of the body.
    pub fn as_bytes(&self) -> (r: &[u8])
        ensures
            r@ == self@,
    {
        self.0.0.as_slice()
    }

    /// Wrapper around [`RelayCellBody::set_digest`].
    pub fn set_digest(&mut self, f: &CellFormat, d: &mut RunningDigest, used_digest: &mut Vec<u8>)
        requires
            f.wf(),
            f.fits(old(d).alg()),
            old(self)@.len() == f.body_len,
        ensures
            final(d).alg() == old(d).alg(),
            final(d).absorbed() == old(d).absorbed() + originate_input(old(self)@, *f),
            final(used_digest)@ == digest_of(old(d).alg(), final(d).absorbed()),
            final(used_digest)@.len() == digest_out_len(old(d).alg()),
            final(self)@ == originated_body(old(self)@, *f, final(used_digest)@),
    {
        self.0.set_digest(f, d, used_digest)
    }

    /// Wrapper around [`RelayCellBody::is_recognized`].
    pub fn is_recognized(&self, f: &CellFormat, d: &mut RunningDigest, rcvd: &mut Vec<u8>) -> (r:
        bool)
        requires
            f.wf(),
            f.fits(old(d).alg()),
            self@.len() == f.body_len,
        ensures
            r == cell_recognized(self@, *f, old(d).alg(), old(d).absorbed()),
            final(d).alg() == old(d).alg(),
            r ==> final(d).absorbed() == old(d).absorbed() + digest_input(self@, *f),
            r ==> final(rcvd)@ == digest_of(
                old(d).alg(),
                old(d).absorbed() + digest_input(self@, *f),
            ) && final(rcvd)@.len() == digest_out_len(old(d).alg()),
            !r ==> *final(d) == *old(d) && *final(rcvd) == *old(rcvd),
    {
        self.0.is_recognized(f, d, rcvd)
    }
}

} // verus!
