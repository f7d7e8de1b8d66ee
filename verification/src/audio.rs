//! Blocks of decoded audio: per-channel sample lines, in one of several
//! sample formats.

use vstd::prelude::*;

verus! {

/// The sample format of an audio block.
#[derive(Clone, Copy, Debug, PartialEq, Eq, Structural)]
pub enum AudioFormat {
    /// No format: the block holds no samples.
    Unspecified,
    U8,
    I16,
    I32,
    I64,
    F32,
    F64,
}

/// The samples of an audio block, tagged by their format. Each variant holds
/// the buffer type that the embedding program uses for that format.
#[derive(Clone)]
pub enum AudioDataContext<U8B, I16B, I32B, I64B, F32B, F64B> {
    /// No samples.
    Unspecified,
    U8(U8B),
    I16(I16B),
    I32(I32B),
    I64(I64B),
    F32(F32B),
    F64(F64B),
}

impl<U8B, I16B, I32B, I64B, F32B, F64B> AudioDataContext<U8B, I16B, I32B, I64B, F32B, F64B> {
    /// The format that the tag names.
    pub open spec fn spec_format(&self) -> AudioFormat {
        match self {
            AudioDataContext::Unspecified => AudioFormat::Unspecified,
            AudioDataContext::U8(_) => AudioFormat::U8,
            AudioDataContext::I16(_) => AudioFormat::I16,
            AudioDataContext::I32(_) => AudioFormat::I32,
            AudioDataContext::I64(_) => AudioFormat::I64,
            AudioDataContext::F32(_) => AudioFormat::F32,
            AudioDataContext::F64(_) => AudioFormat::F64,
        }
    }

    /// The format of the samples held.
    #[verifier::when_used_as_spec(spec_format)]
    pub fn format(&self) -> (r: AudioFormat)
        ensures
            r == self.spec_format(),
    {
        match self {
            AudioDataContext::Unspecified => AudioFormat::Unspecified,
            AudioDataContext::U8(_) => AudioFormat::U8,
            AudioDataContext::I16(_) => AudioFormat::I16,
            AudioDataContext::I32(_) => AudioFormat::I32,
            AudioDataContext::I64(_) => AudioFormat::I64,
            AudioDataContext::F32(_) => AudioFormat::F32,
            AudioDataContext::F64(_) => AudioFormat::F64,
        }
    }
}

/// The samples of one block in one format: one line of samples per channel.
#[derive(Clone)]
pub struct AudioData<T> {
    data: Vec<Vec<T>>,
}

impl<T> AudioData<T> {
    /// The sample lines, one per channel.
    pub closed spec fn lines(&self) -> Seq<Seq<T>> {
        Seq::new(self.data@.len(), |c: int| self.data@[c]@)
    }

    /// The block whose channels hold the lines of `data`, in that order.
    pub fn new(data: Vec<Vec<T>>) -> (r: Self)
        ensures
            r.lines() == Seq::new(data@.len(), |c: int| data@[c]@),
    {
        Self { data }
    }

    /// The number of channels.
    pub fn channels_len(&self) -> (r: usize)
        ensures
            r == self.lines().len(),
    {
        self.data.len()
    }

    /// The samples of channel `index`, where the block has such a channel.
    pub fn get_channel_line(&self, index: usize) -> (r: Option<&[T]>)
        ensures
            match r {
                Some(line) => index < self.lines().len() && line@ == self.lines()[index as int],
                None => index >= self.lines().len(),
            },
    {
        if index < self.data.len() {
            Some(self.data[index].as_slice())
        } else {
            None
        }
    }
}

} // verus!
