//! Trusted boundary around the outside cryptographic primitives.
//!
//! Everything the library needs from the stream-cipher, digest and
//! constant-time-comparison crates is funnelled through the declarations and
//! wrappers in this module.  Each wrapper's contract states what the outside
//! call does in terms of uninterpreted names for the primitive's mathematics
//! (`sha1_digest_of`, `aes128_keystream`, ...) and view functions for the
//! opaque state objects (`sha1_absorbed`, `aes128_pos`, ...).

use vstd::prelude::*;

verus! {

// ---------------------------------------------------------------------------
// Outside type declarations
// ---------------------------------------------------------------------------

#[verifier::external_type_specification]
#[verifier::external_body]
pub struct ExSha1(sha1::Sha1);

#[verifier::external_type_specification]
#[verifier::external_body]
pub struct ExSha3_256(sha3::Sha3_256);

/// Opaque holder for a running AES-128-CTR instance (a big-endian 128-bit
/// counter over AES-128).  The cipher type of the outside crate is generic
/// over traits Verus does not read, so it is hidden in this field instead of
/// being declared.
#[verifier::external_body]
pub struct Aes128Ctr {
    inner: ctr::Ctr128BE<aes::Aes128>,
}

/// Opaque holder for a running AES-256-CTR instance (a big-endian 128-bit
/// counter over AES-256), hidden for the same reason as [`Aes128Ctr`].
#[verifier::external_body]
pub struct Aes256Ctr {
    inner: ctr::Ctr128BE<aes::Aes256>,
}

// ---------------------------------------------------------------------------
// SHA-1
// ---------------------------------------------------------------------------

/// The SHA-1 digest of `data`.
pub uninterp spec fn sha1_digest_of(data: Seq<u8>) -> Seq<u8>;

/// The bytes absorbed so far by a running SHA-1 accumulator.
pub uninterp spec fn sha1_absorbed(d: sha1::Sha1) -> Seq<u8>;

/// Relies on `digest::Digest::new` for `sha1::Sha1`: a fresh accumulator has
/// absorbed nothing.
#[verifier::external_body]
pub(crate) fn sha1_new() -> (d: sha1::Sha1)
    ensures
        sha1_absorbed(d) == Seq::<u8>::empty(),
{
    digest::Digest::new()
}

/// Relies on `digest::Digest::update` for `sha1::Sha1`: the data is appended
/// to the bytes absorbed so far.
#[verifier::external_body]
pub(crate) fn sha1_update(d: &mut sha1::Sha1, data: &[u8])
    ensures
        sha1_absorbed(*final(d)) == sha1_absorbed(*old(d)) + data@,
{
    digest::Digest::update(d, data);
}

/// Relies on the `Clone` impl of `sha1::Sha1`: the copy has absorbed the same
/// bytes as the original.
#[verifier::external_body]
pub(crate) fn sha1_clone(d: &sha1::Sha1) -> (r: sha1::Sha1)
    ensures
        sha1_absorbed(r) == sha1_absorbed(*d),
{
    d.clone()
}

/// Relies on `digest::Digest::finalize` for `sha1::Sha1`: the output is the
/// 20-byte SHA-1 digest of the absorbed bytes.
#[verifier::external_body]
pub(crate) fn sha1_finalize(d: sha1::Sha1) -> (r: Vec<u8>)
    ensures
        r@ == sha1_digest_of(sha1_absorbed(d)),
        r@.len() == 20,
{
    digest::Digest::finalize(d).to_vec()
}

// ---------------------------------------------------------------------------
// SHA3-256
// ---------------------------------------------------------------------------

/// The SHA3-256 digest of `data`.
pub uninterp spec fn sha3_digest_of(data: Seq<u8>) -> Seq<u8>;

/// The bytes absorbed so far by a running SHA3-256 accumulator.
pub uninterp spec fn sha3_absorbed(d: sha3::Sha3_256) -> Seq<u8>;

/// Relies on `digest::Digest::new` for `sha3::Sha3_256`: a fresh accumulator
/// has absorbed nothing.
#[verifier::external_body]
pub(crate) fn sha3_new() -> (d: sha3::Sha3_256)
    ensures
        sha3_absorbed(d) == Seq::<u8>::empty(),
{
    digest::Digest::new()
}

/// Relies on `digest::Digest::update` for `sha3::Sha3_256`: the data is
/// appended to the bytes absorbed so far.
#[verifier::external_body]
pub(crate) fn sha3_update(d: &mut sha3::Sha3_256, data: &[u8])
    ensures
        sha3_absorbed(*final(d)) == sha3_absorbed(*old(d)) + data@,
{
    digest::Digest::update(d, data);
}

/// Relies on the `Clone` impl of `sha3::Sha3_256`: the copy has absorbed the
/// same bytes as the original.
#[verifier::external_body]
pub(crate) fn sha3_clone(d: &sha3::Sha3_256) -> (r: sha3::Sha3_256)
    ensures
        sha3_absorbed(r) == sha3_absorbed(*d),
{
    d.clone()
}

/// Relies on `digest::Digest::finalize` for `sha3::Sha3_256`: the output is
/// the 32-byte SHA3-256 digest of the absorbed bytes.
#[verifier::external_body]
pub(crate) fn sha3_finalize(d: sha3::Sha3_256) -> (r: Vec<u8>)
    ensures
        r@ == sha3_digest_of(sha3_absorbed(d)),
        r@.len() == 32,
{
    digest::Digest::finalize(d).to_vec()
}

// ---------------------------------------------------------------------------
// AES-CTR keystreams
// ---------------------------------------------------------------------------

/// How many keystream bytes a 128-bit block counter can produce before the
/// underlying cipher would refuse to continue.
pub open spec fn ctr128_capacity() -> int {
    0x100000000000000000000000000000000int * 16
}

/// Byte `i` of the AES-128-CTR keystream under `key` with an all-zero
/// initialization vector.
pub uninterp spec fn aes128_keystream(key: Seq<u8>, i: int) -> u8;

/// The key a running AES-128-CTR instance was created with.
pub uninterp spec fn aes128_key(c: Aes128Ctr) -> Seq<u8>;

/// How many keystream bytes a running AES-128-CTR instance has produced.
pub uninterp spec fn aes128_pos(c: Aes128Ctr) -> int;

/// Relies on `cipher::KeyIvInit::new_from_slices` for `Aes128Ctr`: builds the
/// cipher from a 16-byte key and the all-zero initialization vector, at
/// stream position zero.
#[verifier::external_body]
pub(crate) fn aes128_new(key: &[u8]) -> (c: Aes128Ctr)
    requires
        key@.len() == 16,
    ensures
        aes128_key(c) == key@,
        aes128_pos(c) == 0,
{
    Aes128Ctr { inner: cipher::KeyIvInit::new_from_slices(key, &[0u8; 16]).unwrap() }
}

/// Relies on `cipher::StreamCipher::apply_keystream` for `Aes128Ctr`: XORs
/// the generated keystream into the buffer and advances the stream position
/// by the buffer's length.
#[verifier::external_body]
pub(crate) fn aes128_apply(c: &mut Aes128Ctr, buf: &mut Vec<u8>)
    requires
        aes128_pos(*old(c)) + old(buf)@.len() <= ctr128_capacity(),
    ensures
        aes128_key(*final(c)) == aes128_key(*old(c)),
        aes128_pos(*final(c)) == aes128_pos(*old(c)) + old(buf)@.len(),
        final(buf)@.len() == old(buf)@.len(),
        forall|i: int|
            0 <= i < old(buf)@.len() ==> final(buf)@[i] == (old(buf)@[i] ^ aes128_keystream(
                aes128_key(*old(c)),
                aes128_pos(*old(c)) + i,
            )),
{
    cipher::StreamCipher::apply_keystream(&mut c.inner, buf.as_mut_slice());
}

/// Byte `i` of the AES-256-CTR keystream under `key` with an all-zero
/// initialization vector.
pub uninterp spec fn aes256_keystream(key: Seq<u8>, i: int) -> u8;

/// The key a running AES-256-CTR instance was created with.
pub uninterp spec fn aes256_key(c: Aes256Ctr) -> Seq<u8>;

/// How many keystream bytes a running AES-256-CTR instance has produced.
pub uninterp spec fn aes256_pos(c: Aes256Ctr) -> int;

/// Relies on `cipher::KeyIvInit::new_from_slices` for `Aes256Ctr`: builds the
/// cipher from a 32-byte key and the all-zero initialization vector, at
/// stream position zero.
#[verifier::external_body]
pub(crate) fn aes256_new(key: &[u8]) -> (c: Aes256Ctr)
    requires
        key@.len() == 32,
    ensures
        aes256_key(c) == key@,
        aes256_pos(c) == 0,
{
    Aes256Ctr { inner: cipher::KeyIvInit::new_from_slices(key, &[0u8; 16]).unwrap() }
}

/// Relies on `cipher::StreamCipher::apply_keystream` for `Aes256Ctr`: XORs
/// the generated keystream into the buffer and advances the stream position
/// by the buffer's length.
#[verifier::external_body]
pub(crate) fn aes256_apply(c: &mut Aes256Ctr, buf: &mut Vec<u8>)
    requires
        aes256_pos(*old(c)) + old(buf)@.len() <= ctr128_capacity(),
    ensures
        aes256_key(*final(c)) == aes256_key(*old(c)),
        aes256_pos(*final(c)) == aes256_pos(*old(c)) + old(buf)@.len(),
        final(buf)@.len() == old(buf)@.len(),
        forall|i: int|
            0 <= i < old(buf)@.len() ==> final(buf)@[i] == (old(buf)@[i] ^ aes256_keystream(
                aes256_key(*old(c)),
                aes256_pos(*old(c)) + i,
            )),
{
    cipher::StreamCipher::apply_keystream(&mut c.inner, buf.as_mut_slice());
}

// ---------------------------------------------------------------------------
// Constant-time comparison
// ---------------------------------------------------------------------------

/// Relies on subtle's `ConstantTimeEq` for `[u8]`: returns whether the two
/// slices are equal, taking time independent of their contents (it
/// short-circuits only on a length mismatch).
#[verifier::external_body]
pub(crate) fn ct_bytes_eq(a: &[u8], b: &[u8]) -> (r: bool)
    ensures
        r == (a@ == b@),
{
    bool::from(subtle::ConstantTimeEq::ct_eq(a, b))
}

} // verus!
