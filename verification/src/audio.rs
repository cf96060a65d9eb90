//! Audio from the recorder: its command line and the samples in its output.
use vstd::prelude::*;

use crate::text::{str_text_of, texts};

verus! {

/// Samples per second.
pub const SAMPLE_RATE: u32 = 16_000;

/// The bytes of one block: 50 ms of four-byte samples.
pub const CHUNK_BYTES: usize = 3_200;

/// The arguments of the recorder: raw samples of one channel on its output,
/// from the given source where there is one.
pub open spec fn recorder_args(source: Option<Seq<char>>) -> Seq<Seq<char>> {
    let fixed = seq![
        "--raw"@,
        "--format"@,
        "f32"@,
        "--rate"@,
        "16000"@,
        "--channels"@,
        "1"@,
        "-"@,
    ];
    match source {
        Some(name) => fixed + seq!["--target"@, name],
        None => fixed,
    }
}

/// The arguments of the recorder.
pub fn capture_args(source: Option<&str>) -> (out: Vec<String>)
    ensures
        texts(out@) == recorder_args(str_text_of(source)),
{
    let mut out: Vec<String> = Vec::new();
    out.push("--raw".to_owned());
    out.push("--format".to_owned());
    out.push("f32".to_owned());
    out.push("--rate".to_owned());
    out.push("16000".to_owned());
    out.push("--channels".to_owned());
    out.push("1".to_owned());
    out.push("-".to_owned());
    if let Some(name) = source {
        out.push("--target".to_owned());
        out.push(name.to_owned());
    }
    proof {
        assert(texts(out@) =~= recorder_args(str_text_of(source)));
    }
    out
}

/// The number that four bytes hold, the least significant first.
pub open spec fn le_word(b0: u8, b1: u8, b2: u8, b3: u8) -> u32 {
    (b0 + b1 * 0x100 + b2 * 0x1_0000 + b3 * 0x100_0000) as u32
}

/// The words in `bytes`; up to three bytes at the end make no word.
pub open spec fn le_words(bytes: Seq<u8>) -> Seq<u32> {
    Seq::new(
        bytes.len() / 4,
        |i: int| le_word(bytes[4 * i], bytes[4 * i + 1], bytes[4 * i + 2], bytes[4 * i + 3]),
    )
}

/// The words in `bytes`, each the bits of one sample.
pub fn decode_samples(bytes: &[u8]) -> (out: Vec<u32>)
    ensures
        out@ == le_words(bytes@),
{
    let len: usize = bytes.len();
    let n: usize = len / 4;
    let mut out: Vec<u32> = Vec::new();
    let mut i: usize = 0;
    while i < n
        invariant
            i <= n,
            len == bytes@.len(),
            n == len / 4,
            out@ == le_words(bytes@).take(i as int),
        decreases n - i,
    {
        let at: usize = 4 * i;
        let word: u32 = bytes[at] as u32 + bytes[at + 1] as u32 * 0x100 + bytes[at + 2] as u32
            * 0x1_0000 + bytes[at + 3] as u32 * 0x100_0000;
        out.push(word);
        i += 1;
        proof {
            assert(out@ =~= le_words(bytes@).take(i as int));
        }
    }
    proof {
        assert(le_words(bytes@).take(n as int) =~= le_words(bytes@));
    }
    out
}

/// A block that is being read.
#[derive(Debug)]
pub struct Chunk {
    pub bytes: Vec<u8>,
}

impl Chunk {
    /// A block holds no more than its size.
    pub open spec fn well_formed(self) -> bool {
        self.bytes@.len() <= CHUNK_BYTES
    }

    /// An empty block.
    pub fn new() -> (r: Self)
        ensures
            r.well_formed(),
            r.bytes@ == Seq::<u8>::empty(),
    {
        Chunk { bytes: Vec::new() }
    }

    /// How many bytes the next read may bring; zero for a full block.
    pub fn wanted(&self) -> (r: usize)
        requires
            self.well_formed(),
        ensures
            r == CHUNK_BYTES - self.bytes@.len(),
    {
        CHUNK_BYTES - self.bytes.len()
    }

    /// Takes what a read brought; tells whether to read on: not at the end of
    /// the stream, where a read brings nothing, nor once the block is full.
    pub fn feed(&mut self, read: &[u8]) -> (more: bool)
        requires
            old(self).well_formed(),
            old(self).bytes@.len() + read@.len() <= CHUNK_BYTES,
        ensures
            final(self).well_formed(),
            final(self).bytes@ == old(self).bytes@ + read@,
            more == (read@.len() > 0 && final(self).bytes@.len() < CHUNK_BYTES),
    {
        let mut i: usize = 0;
        while i < read.len()
            invariant
                i <= read@.len(),
                self.bytes@ == old(self).bytes@ + read@.take(i as int),
            decreases read@.len() - i,
        {
            self.bytes.push(read[i]);
            i += 1;
            proof {
                assert(self.bytes@ =~= old(self).bytes@ + read@.take(i as int));
            }
        }
        proof {
            assert(read@.take(i as int) =~= read@);
        }
        read.len() > 0 && self.bytes.len() < CHUNK_BYTES
    }

    /// The samples of the block; none at the end of the stream.
    pub fn samples(&self) -> (out: Vec<u32>)
        ensures
            out@ == le_words(self.bytes@),
    {
        decode_samples(self.bytes.as_slice())
    }
}

/// The four bytes of a word, the least significant first.
pub open spec fn le_bytes(word: u32) -> Seq<u8> {
    seq![
        (word % 0x100) as u8,
        (word / 0x100 % 0x100) as u8,
        (word / 0x1_0000 % 0x100) as u8,
        (word / 0x100_0000) as u8,
    ]
}

/// A sample that was written is read back, whatever stood before it, as long
/// as that is a whole number of samples.
pub proof fn law_samples_roundtrip(before: Seq<u8>, word: u32)
    requires
        before.len() % 4 == 0,
    ensures
        le_words(before + le_bytes(word)) == le_words(before).push(word),
{
    let all = before + le_bytes(word);
    let n = before.len() as int / 4;
    assert(all.len() == before.len() + 4);
    assert(4 * n == before.len());
    assert forall|i: int| 0 <= i < n + 1 implies le_words(all)[i] == le_words(before).push(
        word,
    )[i] by {
        if i < n {
            assert(all[4 * i] == before[4 * i]);
            assert(all[4 * i + 1] == before[4 * i + 1]);
            assert(all[4 * i + 2] == before[4 * i + 2]);
            assert(all[4 * i + 3] == before[4 * i + 3]);
        } else {
            assert(all[4 * i] == le_bytes(word)[0]);
            assert(all[4 * i + 1] == le_bytes(word)[1]);
            assert(all[4 * i + 2] == le_bytes(word)[2]);
            assert(all[4 * i + 3] == le_bytes(word)[3]);
        }
    }
    assert(le_words(all) =~= le_words(before).push(word));
}

/// Loose bytes at the end change nothing.
pub proof fn law_partial_sample_is_dropped(bytes: Seq<u8>, rest: Seq<u8>)
    requires
        bytes.len() % 4 == 0,
        rest.len() < 4,
    ensures
        le_words(bytes + rest) == le_words(bytes),
{
    assert((bytes + rest).len() / 4 == bytes.len() / 4);
    assert forall|i: int| 0 <= i < bytes.len() as int / 4 implies le_words(bytes + rest)[i]
        == le_words(bytes)[i] by {
        assert((bytes + rest)[4 * i] == bytes[4 * i]);
        assert((bytes + rest)[4 * i + 1] == bytes[4 * i + 1]);
        assert((bytes + rest)[4 * i + 2] == bytes[4 * i + 2]);
        assert((bytes + rest)[4 * i + 3] == bytes[4 * i + 3]);
    }
    assert(le_words(bytes + rest) =~= le_words(bytes));
}

} // verus!
