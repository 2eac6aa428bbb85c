//! A hash computation in progress, the same for every algorithm.
use vstd::prelude::*;
use crate::algorithm::Algorithm;
use crate::backend::{
    crc32_fed, crc32_of, digest_of, dyn_algorithm, dyn_fed, dyn_finalize, dyn_update, new_md5,
    new_sha1, new_sha256, new_sha3_224, new_sha3_256, new_sha3_384, new_sha3_512, new_sha512,
    DynHasher, MAX_INPUT_LEN,
};
use crate::hex::hex_spec;

verus! {

/// The four bytes of `x`, most significant first.
pub open spec fn be_bytes(x: u32) -> Seq<u8> {
    seq![
        (x / 0x100_0000) as u8,
        ((x / 0x1_0000) % 0x100) as u8,
        ((x / 0x100) % 0x100) as u8,
        (x % 0x100) as u8,
    ]
}

impl Algorithm {
    /// The algorithm's native output for the input `data`.
    pub open spec fn digest_spec(self, data: Seq<u8>) -> Seq<u8> {
        match self {
            Algorithm::Crc32 => be_bytes(crc32_of(data)),
            _ => digest_of(self, data),
        }
    }

    /// The checksum of `data`: its digest in lower-case hexadecimal.
    pub open spec fn checksum_spec(self, data: Seq<u8>) -> Seq<char> {
        hex_spec(self.digest_spec(data))
    }
}

fn u32_to_be_bytes(x: u32) -> (r: Vec<u8>)
    ensures
        r@ == be_bytes(x),
{
    let r = vec![
        (x / 0x100_0000) as u8,
        ((x / 0x1_0000) % 0x100) as u8,
        ((x / 0x100) % 0x100) as u8,
        (x % 0x100) as u8,
    ];
    assert(r@ =~= be_bytes(x));
    r
}

/// The running state of one checksum computation. It is made fresh for each
/// input, absorbs the input in chunks of any size, and is consumed when the
/// result is taken.
pub enum Accumulator {
    Crc32(crc32fast::Hasher),
    Digest(DynHasher),
}

impl Accumulator {
    pub open spec fn algorithm(self) -> Algorithm {
        match self {
            Accumulator::Crc32(_) => Algorithm::Crc32,
            Accumulator::Digest(h) => dyn_algorithm(h),
        }
    }

    /// Every byte absorbed so far, in order.
    pub open spec fn absorbed(self) -> Seq<u8> {
        match self {
            Accumulator::Crc32(h) => crc32_fed(h),
            Accumulator::Digest(h) => dyn_fed(h),
        }
    }

    pub open spec fn wf(self) -> bool {
        match self {
            Accumulator::Crc32(_) => true,
            Accumulator::Digest(h) => dyn_algorithm(h) != Algorithm::Crc32,
        }
    }

    /// A computation of `alg` that has absorbed nothing yet.
    pub fn new(alg: Algorithm) -> (r: Accumulator)
        ensures
            r.wf(),
            r.algorithm() == alg,
            r.absorbed() == Seq::<u8>::empty(),
    {
        match alg {
            Algorithm::Crc32 => Accumulator::Crc32(crc32fast::Hasher::new()),
            Algorithm::Md5 => Accumulator::Digest(new_md5()),
            Algorithm::Sha1 => Accumulator::Digest(new_sha1()),
            Algorithm::Sha256 => Accumulator::Digest(new_sha256()),
            Algorithm::Sha512 => Accumulator::Digest(new_sha512()),
            Algorithm::Sha3_224 => Accumulator::Digest(new_sha3_224()),
            Algorithm::Sha3_256 => Accumulator::Digest(new_sha3_256()),
            Algorithm::Sha3_384 => Accumulator::Digest(new_sha3_384()),
            Algorithm::Sha3_512 => Accumulator::Digest(new_sha3_512()),
        }
    }

    /// Absorbs `chunk` after everything absorbed before.
    pub fn absorb(&mut self, chunk: &[u8])
        requires
            old(self).wf(),
            old(self).absorbed().len() + chunk@.len() <= MAX_INPUT_LEN,
        ensures
            final(self).wf(),
            final(self).algorithm() == old(self).algorithm(),
            final(self).absorbed() == old(self).absorbed() + chunk@,
    {
        match self {
            Accumulator::Crc32(h) => h.update(chunk),
            Accumulator::Digest(h) => dyn_update(h, chunk),
        }
    }

    /// Ends the computation: the algorithm's output for all bytes absorbed.
    pub fn finalize(self) -> (r: Vec<u8>)
        requires
            self.wf(),
        ensures
            r@ == self.algorithm().digest_spec(self.absorbed()),
            r@.len() == self.algorithm().output_len(),
    {
        match self {
            Accumulator::Crc32(h) => u32_to_be_bytes(h.finalize()),
            Accumulator::Digest(h) => dyn_finalize(h),
        }
    }
}

} // verus!
