//! Batch shape: request validation and the trimming of one interleaved model
//! output into per-item frame ranges.
use vstd::prelude::*;

verus! {

/// Why a synthesis run stopped.
#[derive(Debug, Clone, Copy, PartialEq, Eq, Structural)]
pub enum TtsError {
    /// The request is malformed: style and text counts differ, or the batch is empty.
    Config,
    /// A model or style could not be loaded, inference failed, or the model's
    /// output broke its shape contract.
    Model,
    /// The output directory or an output file could not be written.
    Io,
}

/// A request names one style per text, and at least one text.
pub open spec fn batch_is_valid(n_styles: nat, n_texts: nat) -> bool {
    n_styles == n_texts && n_texts >= 1
}

/// The batch size of a request with `n_styles` style paths and `n_texts`
/// texts, or `Config` where the two do not form a batch.
pub fn check_batch(n_styles: usize, n_texts: usize) -> (r: Result<usize, TtsError>)
    ensures
        batch_is_valid(n_styles as nat, n_texts as nat) <==> r is Ok,
        r is Ok ==> r->Ok_0 == n_texts,
        r is Err ==> r->Err_0 == TtsError::Config,
{
    if n_styles != n_texts || n_texts == 0 {
        Err(TtsError::Config)
    } else {
        Ok(n_texts)
    }
}

/// Half-open range `[start, end)` of frames in an interleaved waveform.
#[derive(Debug, Clone, Copy, PartialEq, Eq, Structural)]
pub struct FrameRange {
    pub start: usize,
    pub end: usize,
}

/// Frames kept of a slot of `slot` frames whose voiced part is `voiced` frames.
pub open spec fn kept_frames(voiced: nat, slot: nat) -> nat {
    if voiced <= slot {
        voiced
    } else {
        slot
    }
}

/// The model's output fits a batch of `batch` items: one duration per item,
/// and a waveform that splits into equal slots.
pub open spec fn output_fits(batch: nat, samples: nat, n_durations: nat) -> bool {
    n_durations == batch && samples % batch == 0
}

/// Range kept of item `i`: its slot starts at `i * slot`, and the range ends
/// where the voiced audio ends, or at the end of the slot.
pub open spec fn kept_range(i: nat, slot: nat, voiced: nat) -> (nat, nat) {
    (i * slot, i * slot + kept_frames(voiced, slot))
}

/// `ranges` keeps, of each of the `batch` equal slots of a waveform of
/// `samples` frames, the frames that `voiced` gives it; no range leaves its slot.
pub open spec fn is_trim_of(ranges: Seq<FrameRange>, batch: nat, samples: nat, voiced: Seq<u64>) -> bool {
    &&& batch >= 1
    &&& ranges.len() == batch
    &&& forall|i: int|
        0 <= i < batch ==> ((#[trigger] ranges[i]).start as nat, ranges[i].end as nat)
            == kept_range(i as nat, samples / batch, voiced[i] as nat)
    &&& forall|i: int|
        0 <= i < batch ==> (#[trigger] ranges[i]).end <= (i + 1) * (samples / batch) <= samples
}

/// Each kept range is as long as the voiced part of its slot, or the whole
/// slot where the voiced part is longer, and so never longer than the slot.
pub proof fn lemma_trim_lengths(ranges: Seq<FrameRange>, batch: nat, samples: nat, voiced: Seq<u64>)
    requires
        is_trim_of(ranges, batch, samples, voiced),
    ensures
        forall|i: int|
            0 <= i < batch ==> {
                &&& (#[trigger] ranges[i]).end - ranges[i].start == kept_frames(
                    voiced[i] as nat,
                    samples / batch,
                )
                &&& ranges[i].end - ranges[i].start <= samples / batch
            },
{
    assert forall|i: int| 0 <= i < batch implies (#[trigger] ranges[i]).end - ranges[i].start
        == kept_frames(voiced[i] as nat, samples / batch) by {
        assert((ranges[i].start as nat, ranges[i].end as nat) == kept_range(
            i as nat,
            samples / batch,
            voiced[i] as nat,
        ));
    }
}

/// Splits a waveform of `samples` frames, laid out as `batch` equal slots, and
/// keeps of slot `i` its first `voiced[i]` frames (the whole slot where
/// `voiced[i]` is longer). `Model` where the output does not fit the batch.
pub fn trim_ranges(batch: usize, samples: usize, voiced: &Vec<u64>) -> (r: Result<
    Vec<FrameRange>,
    TtsError,
>)
    requires
        batch >= 1,
    ensures
        r is Ok <==> output_fits(batch as nat, samples as nat, voiced@.len()),
        r is Err ==> r->Err_0 == TtsError::Model,
        r is Ok ==> is_trim_of(r->Ok_0@, batch as nat, samples as nat, voiced@),
{
    if voiced.len() != batch || samples % batch != 0 {
        return Err(TtsError::Model);
    }
    let slot = samples / batch;
    let mut ranges: Vec<FrameRange> = Vec::new();
    let mut i: usize = 0;
    while i < batch
        invariant
            batch >= 1,
            voiced@.len() == batch,
            slot == samples / batch,
            samples % batch == 0,
            i <= batch,
            ranges@.len() == i,
            forall|j: int|
                0 <= j < i ==> ((#[trigger] ranges@[j]).start as nat, ranges@[j].end as nat)
                    == kept_range(j as nat, slot as nat, voiced@[j] as nat),
            forall|j: int| 0 <= j < i ==> (#[trigger] ranges@[j]).end <= (j + 1) * slot <= samples,
        decreases batch - i,
    {
        proof {
            assert(samples == batch * slot) by {
                vstd::arithmetic::div_mod::lemma_fundamental_div_mod(samples as int, batch as int);
            }
            assert((i + 1) * slot <= batch * slot) by (nonlinear_arith)
                requires
                    i + 1 <= batch,
            ;
            assert((i + 1) * slot == i * slot + slot) by (nonlinear_arith);
        }
        let start = i * slot;
        let v = voiced[i];
        let len = if v <= slot as u64 {
            v as usize
        } else {
            slot
        };
        ranges.push(FrameRange { start, end: start + len });
        i += 1;
    }
    Ok(ranges)
}

} // verus!
