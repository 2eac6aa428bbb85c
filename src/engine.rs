//! Checksums of whole inputs: in memory, in chunks, or read from a stream.
use vstd::prelude::*;
use vstd::slice::slice_subrange;
use vstd::string::StringExecFns;
use crate::accumulator::Accumulator;
use crate::algorithm::Algorithm;
use crate::backend::{bad_count_error, read_some, too_large_error, MAX_INPUT_LEN};
use crate::hex::{hex_encode, is_lower_hex_digit, lemma_hex_shape};

verus! {

/// What reading a stream does next, after one read.
pub enum Step {
    /// Go on reading, with the bytes read so far absorbed.
    Continue(Accumulator),
    /// The input has ended: its checksum.
    Done(String),
    /// The input is longer than one computation can absorb.
    TooLarge,
    /// The read failed with this error.
    Failed(std::io::Error),
}

/// Size of the buffer through which a stream is read.
pub const CHUNK_LEN: usize = 8192;

/// The bytes of `chunks`, one after another.
pub open spec fn concat(chunks: Seq<Vec<u8>>) -> Seq<u8> {
    chunks.map_values(|c: Vec<u8>| c@).flatten()
}

/// One line of a report: the checksum, a space, an asterisk (the conventional
/// mark of a binary read) and the path exactly as the caller gave it.
pub fn checksum_line(checksum: &str, path: &str) -> (r: String)
    ensures
        r@ == checksum@ + seq![' ', '*'] + path@,
{
    let mut line = String::from_str(checksum);
    let mark = " *";
    proof {
        reveal_strlit(" *");
    }
    line.append(mark);
    line.append(path);
    assert(line@ =~= checksum@ + seq![' ', '*'] + path@);
    line
}

impl Algorithm {
    /// The checksum well formed: two lower-case hexadecimal digits per output byte.
    pub open spec fn is_checksum_shape(self, s: Seq<char>) -> bool {
        s.len() == 2 * self.output_len() && forall|i: int|
            0 <= i < s.len() ==> is_lower_hex_digit(#[trigger] s[i])
    }

    /// Takes a finished accumulator to its checksum.
    fn finish(acc: Accumulator) -> (r: String)
        requires
            acc.wf(),
        ensures
            r@ == acc.algorithm().checksum_spec(acc.absorbed()),
            acc.algorithm().is_checksum_shape(r@),
    {
        let digest = acc.finalize();
        proof {
            lemma_hex_shape(digest@);
        }
        hex_encode(digest.as_slice())
    }

    /// The checksum of `data`, held in memory.
    pub fn checksum_bytes(&self, data: &[u8]) -> (r: String)
        requires
            data@.len() <= MAX_INPUT_LEN,
        ensures
            r@ == self.checksum_spec(data@),
            self.is_checksum_shape(r@),
    {
        let mut acc = Accumulator::new(*self);
        acc.absorb(data);
        assert(acc.absorbed() =~= data@);
        Self::finish(acc)
    }

    /// The checksum of the bytes of `chunks` taken in order: however the input
    /// is cut into chunks, the result is that of the whole.
    pub fn checksum_chunks(&self, chunks: &Vec<Vec<u8>>) -> (r: String)
        requires
            concat(chunks@).len() <= MAX_INPUT_LEN,
        ensures
            r@ == self.checksum_spec(concat(chunks@)),
            self.is_checksum_shape(r@),
    {
        let mut acc = Accumulator::new(*self);
        let mut i: usize = 0;
        while i < chunks.len()
            invariant
                i <= chunks@.len(),
                concat(chunks@).len() <= MAX_INPUT_LEN,
                acc.wf(),
                acc.algorithm() == *self,
                acc.absorbed() == concat(chunks@.subrange(0, i as int)),
            decreases chunks@.len() - i,
        {
            proof {
                broadcast use Seq::lemma_flatten_push;
                let seen = chunks@.subrange(0, i as int);
                assert(chunks@.subrange(0, i + 1) =~= seen.push(chunks@[i as int]));
                assert(seen.push(chunks@[i as int]).map_values(|c: Vec<u8>| c@)
                    =~= seen.map_values(|c: Vec<u8>| c@).push(chunks@[i as int]@));
                assert(concat(chunks@.subrange(0, i + 1)) == acc.absorbed() + chunks@[i as int]@);
                let done = chunks@.subrange(0, i + 1);
                let rest = chunks@.subrange(i + 1, chunks@.len() as int);
                assert(chunks@.map_values(|c: Vec<u8>| c@) =~= done.map_values(|c: Vec<u8>| c@)
                    + rest.map_values(|c: Vec<u8>| c@));
                vstd::seq_lib::lemma_flatten_concat(
                    done.map_values(|c: Vec<u8>| c@),
                    rest.map_values(|c: Vec<u8>| c@),
                );
            }
            acc.absorb(chunks[i].as_slice());
            i += 1;
        }
        assert(chunks@.subrange(0, chunks@.len() as int) =~= chunks@);
        Self::finish(acc)
    }

    /// The decision after one read from a stream, with `acc` holding the
    /// `total` bytes read before it: the end of the input (an empty read)
    /// gives the checksum of everything absorbed; bytes read are absorbed,
    /// unless the input would grow past `MAX_INPUT_LEN`; a read error ends
    /// the computation with that very error.
    pub fn after_read(&self, acc: Accumulator, total: u64, read: Result<&[u8], std::io::Error>) -> (r: Step)
        requires
            acc.wf(),
            acc.algorithm() == *self,
            acc.absorbed().len() == total,
            total <= MAX_INPUT_LEN,
        ensures
            (read matches Ok(b) && b@.len() == 0) ==> (r matches Step::Done(s) && s@
                == self.checksum_spec(acc.absorbed()) && self.is_checksum_shape(s@)),
            (read matches Ok(b) && b@.len() > 0 && acc.absorbed().len() + b@.len() <= MAX_INPUT_LEN)
                ==> (r matches Step::Continue(next) && next.wf() && next.algorithm() == *self
                && next.absorbed() == acc.absorbed() + read->Ok_0@),
            (read matches Ok(b) && acc.absorbed().len() + b@.len() > MAX_INPUT_LEN) ==> r is TooLarge,
            read matches Err(e) ==> r == Step::Failed(e),
    {
        match read {
            Err(e) => Step::Failed(e),
            Ok(b) => {
                if b.len() == 0 {
                    Step::Done(Self::finish(acc))
                } else if b.len() as u64 > MAX_INPUT_LEN - total {
                    Step::TooLarge
                } else {
                    let mut next = acc;
                    next.absorb(b);
                    Step::Continue(next)
                }
            },
        }
    }

    /// Reads `data` to its end through a buffer of `CHUNK_LEN` bytes and
    /// returns the checksum of what was read, deciding after each read by
    /// `after_read`. A read error is returned as it came, with no retry. An
    /// input longer than `MAX_INPUT_LEN` bytes is refused with an error, and so
    /// is a read that reports more bytes than the buffer holds.
    pub fn get_checksum_string<R: std::io::Read>(&self, data: &mut R) -> (r: Result<String, std::io::Error>)
        ensures
            r matches Ok(s) ==> exists|read: Seq<u8>|
                read.len() <= MAX_INPUT_LEN && s@ == #[trigger] self.checksum_spec(read),
            r matches Ok(s) ==> self.is_checksum_shape(s@),
    {
        let mut acc = Accumulator::new(*self);
        let mut total: u64 = 0;
        let mut buf: Vec<u8> = vec![0u8; CHUNK_LEN];
        loop
            invariant
                acc.wf(),
                acc.algorithm() == *self,
                acc.absorbed().len() == total,
                total <= MAX_INPUT_LEN,
                buf@.len() == CHUNK_LEN,
            decreases MAX_INPUT_LEN - total,
        {
            let read = match read_some(data, &mut buf) {
                Ok(n) => {
                    if n > buf.len() {
                        return Err(bad_count_error());
                    }
                    Ok(slice_subrange(buf.as_slice(), 0, n))
                },
                Err(e) => Err(e),
            };
            let len: usize = match &read {
                Ok(b) => b.len(),
                Err(_) => 0,
            };
            let ghost before = acc.absorbed();
            match self.after_read(acc, total, read) {
                Step::Continue(next) => {
                    acc = next;
                    total = total + len as u64;
                },
                Step::Done(s) => {
                    assert(s@ == self.checksum_spec(before));
                    return Ok(s);
                },
                Step::TooLarge => {
                    return Err(too_large_error());
                },
                Step::Failed(e) => {
                    return Err(e);
                },
            }
        }
    }
}

} // verus!
