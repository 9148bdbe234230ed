//! Sample headers and signed 8-bit PCM bodies.
use vstd::prelude::*;

verus! {

/// Size in bytes of a sample header.
pub const SAMPLE_HEADER_BYTES: usize = 30;

/// What `String::from_utf8_lossy` makes of a byte sequence.
pub uninterp spec fn lossy_utf8(b: Seq<u8>) -> Seq<char>;

/// Relies on `String::from_utf8_lossy`: the text is a function of the bytes alone.
#[verifier::external_body]
pub(crate) fn text_of(b: &[u8]) -> (r: String)
    ensures
        r@ == lossy_utf8(b@),
{
    String::from_utf8_lossy(b).into_owned()
}

/// Copies `b[start..start + n]`.
pub fn copy_bytes(b: &[u8], start: usize, n: usize) -> (r: Vec<u8>)
    requires
        start + n <= b@.len(),
    ensures
        r@ == b@.subrange(start as int, start + n),
{
    let len = b.len();
    let mut r: Vec<u8> = Vec::new();
    let mut i: usize = 0;
    while i < n
        invariant
            len == b@.len(),
            i <= n,
            start + n <= b@.len(),
            r@ == b@.subrange(start as int, start + i),
        decreases n - i,
    {
        r.push(b[start + i]);
        i += 1;
        assert(r@ =~= b@.subrange(start as int, start + i));
    }
    r
}

/// Big-endian 16-bit word at `off`.
pub open spec fn be16(b: Seq<u8>, off: int) -> int {
    b[off] as int * 256 + b[off + 1] as int
}

/// The low nibble of `b`, sign-extended from 4 bits.
pub open spec fn nibble_signed(b: u8) -> int {
    let n = (b & 0x0F) as int;
    if n >= 8 { n - 16 } else { n }
}

pub struct Sample {
    pub name: String,
    /// Length in 16-bit words.
    pub length: usize,
    /// Finetune in `-8..=7`.
    pub finetune: i8,
    pub volume: u8,
    /// Loop start in 16-bit words.
    pub loop_start: usize,
    /// Loop length in 16-bit words.
    pub loop_len: usize,
    pub data: Vec<i8>,
}

impl Sample {
    /// The header fields are in range and the body is empty or complete.
    pub open spec fn well_formed(&self) -> bool {
        &&& self.length < 65536
        &&& self.loop_start < 65536
        &&& self.loop_len < 65536
        &&& -8 <= self.finetune <= 7
        &&& self.volume < 256
        &&& (self.data@.len() == 0 || self.data@.len() == 2 * self.length)
    }

    /// The sample's header fields are those of the 30-byte header `b`.
    pub open spec fn has_header(&self, b: Seq<u8>) -> bool {
        &&& self.name@ == lossy_utf8(b.subrange(0, 22))
        &&& self.length == be16(b, 22)
        &&& self.finetune as int == nibble_signed(b[24])
        &&& self.volume == b[25]
        &&& self.loop_start == be16(b, 26)
        &&& self.loop_len == be16(b, 28)
    }

    /// Reads a sample header; the body is loaded by `load_data`.
    pub fn load(sample_data: &[u8]) -> (r: Sample)
        requires
            sample_data@.len() >= 30,
        ensures
            r.has_header(sample_data@),
            r.data@.len() == 0,
            r.well_formed(),
    {
        let name_bytes = copy_bytes(sample_data, 0, 22);
        let name = text_of(name_bytes.as_slice());
        let length = sample_data[22] as usize * 256 + sample_data[23] as usize;
        let b24 = sample_data[24];
        let nib = b24 & 0x0F;
        assert(nib < 16) by (bit_vector)
            requires
                nib == b24 & 0x0F,
        ;
        let finetune: i8 = if nib >= 8 { nib as i8 - 16 } else { nib as i8 };
        let volume = sample_data[25];
        let loop_start = sample_data[26] as usize * 256 + sample_data[27] as usize;
        let loop_len = sample_data[28] as usize * 256 + sample_data[29] as usize;
        Sample { name, length, finetune, volume, loop_start, loop_len, data: Vec::new() }
    }

    /// Appends the `2 * length` PCM bytes at the start of `pcm` to the body, as
    /// signed bytes, and returns how many bytes it consumed.
    pub fn load_data(&mut self, pcm: &[u8]) -> (r: usize)
        requires
            old(self).data@.len() == 0,
            old(self).length < 65536,
            pcm@.len() >= 2 * old(self).length,
        ensures
            r == 2 * old(self).length,
            final(self).data@.len() == r,
            forall|k: int| 0 <= k < r ==> #[trigger] final(self).data@[k] == pcm@[k] as i8,
            final(self).name == old(self).name,
            final(self).length == old(self).length,
            final(self).finetune == old(self).finetune,
            final(self).volume == old(self).volume,
            final(self).loop_start == old(self).loop_start,
            final(self).loop_len == old(self).loop_len,
    {
        if self.length == 0 {
            return 0;
        }
        let n = self.length * 2;
        let mut byte: usize = 0;
        while byte < n
            invariant
                n == 2 * self.length,
                byte <= n,
                pcm@.len() >= n,
                self.data@.len() == byte,
                forall|k: int| 0 <= k < byte ==> #[trigger] self.data@[k] == pcm@[k] as i8,
                self.name == old(self).name,
                self.length == old(self).length,
                self.finetune == old(self).finetune,
                self.volume == old(self).volume,
                self.loop_start == old(self).loop_start,
                self.loop_len == old(self).loop_len,
            decreases n - byte,
        {
            self.data.push(pcm[byte] as i8);
            byte += 1;
        }
        n
    }
}

} // verus!
