//! The hash functions of outside crates, and what this library relies on of them.
use vstd::prelude::*;
use digest::Digest;
use crate::algorithm::Algorithm;

verus! {

/// Most bytes that one computation may absorb. The digest families count the
/// input in bits in a `u64`, which must not overflow.
pub const MAX_INPUT_LEN: u64 = 0x1fff_ffff_ffff_ffff;

#[verifier::external_type_specification]
#[verifier::external_body]
pub struct ExCrc32Hasher(crc32fast::Hasher);

/// The bytes that a CRC-32 hasher has been fed since it was made.
pub uninterp spec fn crc32_fed(h: crc32fast::Hasher) -> Seq<u8>;

/// The CRC-32 of `data`, as `crc32fast::Hasher::finalize` returns it.
pub uninterp spec fn crc32_of(data: Seq<u8>) -> u32;

/// Relies on `crc32fast::Hasher::new`: a hasher in the initial state, fed nothing yet.
pub assume_specification[ crc32fast::Hasher::new ]() -> (r: crc32fast::Hasher)
    ensures
        crc32_fed(r) == Seq::<u8>::empty(),
;

/// Relies on `crc32fast::Hasher::update`: `buf` is appended to what was fed.
/// The hasher adds the length to a `u64` count, which must not overflow.
pub assume_specification[ crc32fast::Hasher::update ](h: &mut crc32fast::Hasher, buf: &[u8])
    requires
        crc32_fed(*old(h)).len() + buf@.len() <= u64::MAX,
    ensures
        crc32_fed(*final(h)) == crc32_fed(*old(h)) + buf@,
;

/// Relies on `crc32fast::Hasher::finalize`: the CRC-32 of everything fed.
pub assume_specification[ crc32fast::Hasher::finalize ](h: crc32fast::Hasher) -> (r: u32)
    ensures
        r == crc32_of(crc32_fed(h)),
;

/// A hasher of one of the digest families, used through `digest::DynDigest`.
#[verifier::external_body]
pub struct DynHasher {
    inner: Box<dyn digest::DynDigest>,
}

/// The bytes that a digest hasher has been fed since it was made.
pub uninterp spec fn dyn_fed(h: DynHasher) -> Seq<u8>;

/// The algorithm that a digest hasher computes.
pub uninterp spec fn dyn_algorithm(h: DynHasher) -> Algorithm;

/// The digest of `data` under `alg`, as `DynDigest::finalize` returns it.
pub uninterp spec fn digest_of(alg: Algorithm, data: Seq<u8>) -> Seq<u8>;

/// Relies on `md5::Md5::new` (through `digest::Digest`): a hasher in its
/// initial state, fed nothing yet.
#[verifier::external_body]
pub(crate) fn new_md5() -> (r: DynHasher)
    ensures
        dyn_algorithm(r) == Algorithm::Md5,
        dyn_fed(r) == Seq::<u8>::empty(),
{
    DynHasher { inner: Box::new(<md5::Md5 as Digest>::new()) }
}

/// Relies on `sha1::Sha1::new` (through `digest::Digest`): a hasher in its
/// initial state, fed nothing yet.
#[verifier::external_body]
pub(crate) fn new_sha1() -> (r: DynHasher)
    ensures
        dyn_algorithm(r) == Algorithm::Sha1,
        dyn_fed(r) == Seq::<u8>::empty(),
{
    DynHasher { inner: Box::new(<sha1::Sha1 as Digest>::new()) }
}

/// Relies on `sha2::Sha256::new` (through `digest::Digest`): a hasher in its
/// initial state, fed nothing yet.
#[verifier::external_body]
pub(crate) fn new_sha256() -> (r: DynHasher)
    ensures
        dyn_algorithm(r) == Algorithm::Sha256,
        dyn_fed(r) == Seq::<u8>::empty(),
{
    DynHasher { inner: Box::new(<sha2::Sha256 as Digest>::new()) }
}

/// Relies on `sha2::Sha512::new` (through `digest::Digest`): a hasher in its
/// initial state, fed nothing yet.
#[verifier::external_body]
pub(crate) fn new_sha512() -> (r: DynHasher)
    ensures
        dyn_algorithm(r) == Algorithm::Sha512,
        dyn_fed(r) == Seq::<u8>::empty(),
{
    DynHasher { inner: Box::new(<sha2::Sha512 as Digest>::new()) }
}

/// Relies on `sha3::Sha3_224::new` (through `digest::Digest`): a hasher in its
/// initial state, fed nothing yet.
#[verifier::external_body]
pub(crate) fn new_sha3_224() -> (r: DynHasher)
    ensures
        dyn_algorithm(r) == Algorithm::Sha3_224,
        dyn_fed(r) == Seq::<u8>::empty(),
{
    DynHasher { inner: Box::new(<sha3::Sha3_224 as Digest>::new()) }
}

/// Relies on `sha3::Sha3_256::new` (through `digest::Digest`): a hasher in its
/// initial state, fed nothing yet.
#[verifier::external_body]
pub(crate) fn new_sha3_256() -> (r: DynHasher)
    ensures
        dyn_algorithm(r) == Algorithm::Sha3_256,
        dyn_fed(r) == Seq::<u8>::empty(),
{
    DynHasher { inner: Box::new(<sha3::Sha3_256 as Digest>::new()) }
}

/// Relies on `sha3::Sha3_384::new` (through `digest::Digest`): a hasher in its
/// initial state, fed nothing yet.
#[verifier::external_body]
pub(crate) fn new_sha3_384() -> (r: DynHasher)
    ensures
        dyn_algorithm(r) == Algorithm::Sha3_384,
        dyn_fed(r) == Seq::<u8>::empty(),
{
    DynHasher { inner: Box::new(<sha3::Sha3_384 as Digest>::new()) }
}

/// Relies on `sha3::Sha3_512::new` (through `digest::Digest`): a hasher in its
/// initial state, fed nothing yet.
#[verifier::external_body]
pub(crate) fn new_sha3_512() -> (r: DynHasher)
    ensures
        dyn_algorithm(r) == Algorithm::Sha3_512,
        dyn_fed(r) == Seq::<u8>::empty(),
{
    DynHasher { inner: Box::new(<sha3::Sha3_512 as Digest>::new()) }
}

/// Relies on `digest::DynDigest::update`: `data` is appended to what was fed.
/// The total must stay below the bit count's limit.
#[verifier::external_body]
pub(crate) fn dyn_update(h: &mut DynHasher, data: &[u8])
    requires
        dyn_fed(*old(h)).len() + data@.len() <= MAX_INPUT_LEN,
    ensures
        dyn_fed(*final(h)) == dyn_fed(*old(h)) + data@,
        dyn_algorithm(*final(h)) == dyn_algorithm(*old(h)),
{
    h.inner.update(data)
}

/// Relies on `digest::DynDigest::finalize`: the digest of everything fed, of
/// the algorithm's output size.
#[verifier::external_body]
pub(crate) fn dyn_finalize(h: DynHasher) -> (r: Vec<u8>)
    ensures
        r@ == digest_of(dyn_algorithm(h), dyn_fed(h)),
        r@.len() == dyn_algorithm(h).output_len(),
{
    h.inner.finalize().into_vec()
}

#[verifier::external_type_specification]
#[verifier::external_body]
pub struct ExIoError(std::io::Error);

/// Relies on `std::io::Read::read`: reads into `buf`, whose length a slice
/// cannot change. The count it returns is checked by the caller.
#[verifier::external_body]
pub(crate) fn read_some<R: std::io::Read>(src: &mut R, buf: &mut Vec<u8>) -> (r: Result<usize, std::io::Error>)
    ensures
        final(buf)@.len() == old(buf)@.len(),
{
    src.read(buf.as_mut_slice())
}

/// Relies on `std::io::Error::from(ErrorKind::FileTooLarge)`: the error for an
/// input longer than one computation can absorb.
#[verifier::external_body]
pub(crate) fn too_large_error() -> std::io::Error {
    std::io::Error::from(std::io::ErrorKind::FileTooLarge)
}

/// Relies on `std::io::Error::from(ErrorKind::InvalidData)`: the error for a
/// reader that claims to have read more bytes than the buffer holds.
#[verifier::external_body]
pub(crate) fn bad_count_error() -> std::io::Error {
    std::io::Error::from(std::io::ErrorKind::InvalidData)
}

} // verus!
