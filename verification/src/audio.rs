//! Sample bookkeeping of the spectrum audio sampler: which captured samples
//! are analysed, and how the transform input is padded.
use vstd::prelude::*;

verus! {

/// Number of samples per channel fed to the spectrum transform.
pub const SPECTRUM_WINDOW: usize = 1024;

/// Only every `FRAME_STEP`-th captured frame is analysed.
pub const FRAME_STEP: usize = 4;

/// Number of spectrum values the visualizer uploads per frame.
pub const SPECTRUM_SLOTS: usize = 16;

/// How many spectrum values are uploaded for a left and a right spectrum of
/// the given lengths: as many as both channels have, at most `SPECTRUM_SLOTS`.
pub fn spectrum_slots(left_len: usize, right_len: usize) -> (r: usize)
    ensures
        r <= left_len,
        r <= right_len,
        r <= SPECTRUM_SLOTS,
        r == left_len || r == right_len || r == SPECTRUM_SLOTS,
{
    let both = if left_len < right_len {
        left_len
    } else {
        right_len
    };
    if both < SPECTRUM_SLOTS {
        both
    } else {
        SPECTRUM_SLOTS
    }
}

/// How many frames out of `frames` captured ones are analysed.
pub open spec fn picked_count(frames: nat) -> nat {
    let every_fourth = (frames + 3) / 4;
    if every_fourth < 1024 {
        every_fourth
    } else {
        1024
    }
}

/// Splits interleaved stereo samples (left, right, left, right, ...) of
/// `frames` frames into a left and a right channel, keeping every fourth
/// frame and at most `SPECTRUM_WINDOW` frames.
pub fn pick_stereo_frames<T: Copy>(samples: &[T], frames: usize) -> (r: (Vec<T>, Vec<T>))
    requires
        samples@.len() >= 2 * frames,
    ensures
        r.0@.len() == picked_count(frames as nat),
        r.1@.len() == picked_count(frames as nat),
        forall|k: int|
            0 <= k < r.0@.len() ==> #[trigger] r.0@[k] == samples@[8 * k] && r.1@[k]
                == samples@[8 * k + 1],
{
    let mut left: Vec<T> = Vec::new();
    let mut right: Vec<T> = Vec::new();
    let mut i: usize = 0;
    while i < frames && left.len() < SPECTRUM_WINDOW
        invariant
            samples@.len() >= 2 * frames,
            left@.len() == right@.len(),
            left@.len() <= 1024,
            i == 4 * left@.len(),
            i < frames + 4,
            left@.len() <= (frames + 3) / 4,
            forall|k: int|
                0 <= k < left@.len() ==> #[trigger] left@[k] == samples@[8 * k] && right@[k]
                    == samples@[8 * k + 1],
        decreases frames + 4 - i,
    {
        let l = samples[i * 2];
        let r = samples[i * 2 + 1];
        left.push(l);
        right.push(r);
        i += FRAME_STEP;
    }
    (left, right)
}

/// The input of a spectrum transform of length `size`: the first samples of
/// `input`, zero-padded (with `zero`) when there are fewer than `size`.
pub fn fft_input<T: Copy>(input: &[T], size: usize, zero: T) -> (r: Vec<T>)
    ensures
        r@.len() == size,
        forall|k: int|
            0 <= k < size ==> #[trigger] r@[k] == if k < input@.len() {
                input@[k]
            } else {
                zero
            },
{
    let n = if size < input.len() {
        size
    } else {
        input.len()
    };
    let mut out: Vec<T> = Vec::new();
    let mut i: usize = 0;
    while i < size
        invariant
            n <= size,
            n <= input@.len(),
            n == size || n == input@.len(),
            out@.len() == i,
            i <= size,
            forall|k: int|
                0 <= k < i ==> #[trigger] out@[k] == if k < input@.len() {
                    input@[k]
                } else {
                    zero
                },
        decreases size - i,
    {
        if i < n {
            out.push(input[i]);
        } else {
            out.push(zero);
        }
        i += 1;
    }
    out
}

} // verus!
