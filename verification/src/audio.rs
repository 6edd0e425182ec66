//! The tensor a synthesis yields and the samples that are taken from it.

use vstd::prelude::*;

verus! {

/// How the samples of an audio file are to be read.
#[derive(Debug, Clone, Copy, PartialEq, Eq, Structural)]
pub enum SampleKind {
    /// As IEEE floats.
    Float,
    /// As signed integers.
    Int,
}

/// The output of the network: `shape[0]` batch elements of `shape[1]` channels of
/// `shape[2]` samples each, stored in that order. A sample is a 32-bit float,
/// held by its bit pattern.
#[derive(Debug, Clone, PartialEq, Eq)]
pub struct AudioTensor {
    pub shape: [usize; 3],
    pub values: Vec<u32>,
}

impl AudioTensor {
    /// Whether the values fill the shape.
    pub open spec fn wf(&self) -> bool {
        self.values.len() == self.shape[0] * self.shape[1] * self.shape[2]
    }

    /// Whether every batch element has a channel 0 to take samples from.
    pub open spec fn has_channel_zero(&self) -> bool {
        self.shape[0] == 0 || self.shape[1] >= 1
    }

    /// Sample `k` of channel `c` of batch element `i`.
    pub open spec fn at(&self, i: int, c: int, k: int) -> u32 {
        self.values@[i * self.shape[1] * self.shape[2] + c * self.shape[2] + k]
    }

    /// The samples of channel 0 of batch element `i`.
    pub open spec fn channel_zero(&self, i: int) -> Seq<u32> {
        self.values@.subrange(
            i * self.shape[1] * self.shape[2],
            i * self.shape[1] * self.shape[2] + self.shape[2],
        )
    }

    /// The samples of channel 0 of the first `n` batch elements, one element after
    /// the other.
    pub open spec fn mono_upto(&self, n: int) -> Seq<u32>
        decreases n,
    {
        if n <= 0 {
            seq![]
        } else {
            self.mono_upto(n - 1) + self.channel_zero(n - 1)
        }
    }

    /// The samples of channel 0 of every batch element, one element after the
    /// other.
    pub open spec fn mono(&self) -> Seq<u32> {
        self.mono_upto(self.shape[0] as int)
    }

    /// Whether the values fill the shape.
    pub fn is_well_formed(&self) -> (ok: bool)
        ensures
            ok == self.wf(),
    {
        let count: usize = self.values.len();
        match self.shape[0].checked_mul(self.shape[1]) {
            Some(planes) => match planes.checked_mul(self.shape[2]) {
                Some(size) => size == count,
                None => false,
            },
            None => {
                // Without samples the product is zero whatever the rest is.
                if self.shape[2] == 0 {
                    count == 0
                } else {
                    assert(self.shape[0] * self.shape[1] * self.shape[2] >= self.shape[0]
                        * self.shape[1]) by (nonlinear_arith)
                        requires
                            self.shape[2] >= 1,
                            self.shape[0] * self.shape[1] >= 0,
                    ;
                    false
                }
            },
        }
    }

    /// Takes the samples of channel 0 of every batch element, one element after
    /// the other; `None` for a tensor whose values do not fill its shape or that
    /// has batch elements without a channel.
    pub fn mono_samples(&self) -> (samples: Option<Vec<u32>>)
        ensures
            match samples {
                Some(samples) => self.wf() && self.has_channel_zero() && samples@ == self.mono(),
                None => !(self.wf() && self.has_channel_zero()),
            },
    {
        if !self.is_well_formed() {
            return None;
        }
        let batches: usize = self.shape[0];
        let channels: usize = self.shape[1];
        let width: usize = self.shape[2];
        if batches > 0 && channels == 0 {
            return None;
        }
        let count: usize = self.values.len();
        let mut samples: Vec<u32> = Vec::new();
        let mut i: usize = 0;
        while i < batches
            invariant
                i <= batches,
                batches == self.shape[0],
                channels == self.shape[1],
                width == self.shape[2],
                batches == 0 || channels >= 1,
                count == self.values.len(),
                count == batches * channels * width,
                samples@ == self.mono_upto(i as int),
            decreases batches - i,
        {
            assert(i * channels * width + width <= batches * channels * width) by (nonlinear_arith)
                requires
                    i < batches,
                    channels >= 1,
                    width >= 0,
            ;
            assert(width == 0 || i * channels <= batches * channels * width) by (nonlinear_arith)
                requires
                    i < batches,
                    channels >= 1,
                    width >= 0,
            ;
            let start: usize = if width == 0 {
                0
            } else {
                i * channels * width
            };
            assert(start == i * channels * width) by (nonlinear_arith)
                requires
                    start == if width == 0 {
                        0
                    } else {
                        i * channels * width
                    },
            ;
            let ghost before = samples@;
            let mut k: usize = 0;
            while k < width
                invariant
                    k <= width,
                    start + width <= count,
                    count == self.values.len(),
                    samples@ == before + self.values@.subrange(start as int, start + k),
                decreases width - k,
            {
                samples.push(self.values[start + k]);
                k += 1;
            }
            i += 1;
        }
        Some(samples)
    }
}

/// The samples taken from the first `n` batch elements are `shape[2]` from each:
/// sample `k` of channel 0 of element `i` stands at place `i * shape[2] + k`.
pub proof fn lemma_mono_upto_layout(audio: AudioTensor, n: int)
    requires
        audio.wf(),
        audio.has_channel_zero(),
        0 <= n <= audio.shape[0],
    ensures
        audio.mono_upto(n).len() == n * audio.shape[2],
        forall|i: int, k: int|
            0 <= i < n && 0 <= k < audio.shape[2] ==> audio.mono_upto(n)[i * audio.shape[2] + k]
                == #[trigger] audio.at(i, 0, k),
    decreases n,
{
    let channels = audio.shape[1] as int;
    let width = audio.shape[2] as int;
    if n > 0 {
        lemma_mono_upto_layout(audio, n - 1);
        let last = n - 1;
        assert(last * channels * width + width <= audio.shape[0] * channels * width
            && last * channels * width >= 0) by (nonlinear_arith)
            requires
                0 <= last < audio.shape[0],
                channels >= 1,
                width >= 0,
        ;
        assert(n * width == last * width + width) by (nonlinear_arith)
            requires
                last == n - 1,
        ;
        assert forall|i: int, k: int| 0 <= i < n && 0 <= k < width implies audio.mono_upto(n)[i
            * width + k] == #[trigger] audio.at(i, 0, k) by {
            if i < last {
                assert(i * width + k < last * width) by (nonlinear_arith)
                    requires
                        0 <= i < last,
                        0 <= k < width,
                ;
                assert(i * width + k >= 0) by (nonlinear_arith)
                    requires
                        0 <= i,
                        0 <= k,
                        0 <= width,
                ;
            } else {
                assert(0 * width == 0);
            }
        }
    }
}

/// The samples taken from a tensor are `shape[2]` from each batch element, and
/// they are those of channel 0: no value of another channel is among them.
pub proof fn lemma_mono_layout(audio: AudioTensor)
    requires
        audio.wf(),
        audio.has_channel_zero(),
    ensures
        audio.mono().len() == audio.shape[0] * audio.shape[2],
        forall|i: int, k: int|
            0 <= i < audio.shape[0] && 0 <= k < audio.shape[2] ==> audio.mono()[i
                * audio.shape[2] + k] == #[trigger] audio.at(i, 0, k),
{
    lemma_mono_upto_layout(audio, audio.shape[0] as int);
}

/// Two tensors of one shape that agree on channel 0 give the same samples,
/// whatever their other channels hold.
pub proof fn lemma_mono_reads_channel_zero(a: AudioTensor, b: AudioTensor)
    requires
        a.wf(),
        b.wf(),
        a.shape == b.shape,
        a.has_channel_zero(),
        forall|i: int, k: int|
            0 <= i < a.shape[0] && 0 <= k < a.shape[2] ==> #[trigger] a.at(i, 0, k) == b.at(
                i,
                0,
                k,
            ),
    ensures
        a.mono() == b.mono(),
{
    lemma_same_channel_zero(a, b, a.shape[0] as int);
}

proof fn lemma_same_channel_zero(a: AudioTensor, b: AudioTensor, n: int)
    requires
        a.wf(),
        b.wf(),
        a.shape == b.shape,
        a.has_channel_zero(),
        0 <= n <= a.shape[0],
        forall|i: int, k: int|
            0 <= i < a.shape[0] && 0 <= k < a.shape[2] ==> #[trigger] a.at(i, 0, k) == b.at(
                i,
                0,
                k,
            ),
    ensures
        a.mono_upto(n) == b.mono_upto(n),
    decreases n,
{
    if n > 0 {
        lemma_same_channel_zero(a, b, n - 1);
        let last = n - 1;
        let channels = a.shape[1] as int;
        let width = a.shape[2] as int;
        assert(last * channels * width + width <= a.shape[0] * channels * width && last
            * channels * width >= 0) by (nonlinear_arith)
            requires
                0 <= last < a.shape[0],
                channels >= 1,
                width >= 0,
        ;
        assert forall|k: int| 0 <= k < width implies a.channel_zero(last)[k] == b.channel_zero(
            last,
        )[k] by {
            assert(a.at(last, 0, k) == b.at(last, 0, k));
            assert(0 * width == 0);
        }
        assert(a.channel_zero(last) =~= b.channel_zero(last));
    }
}

} // verus!
