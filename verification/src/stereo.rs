//! Two mono streams interleaved into one stereo buffer.

use vstd::prelude::*;

verus! {

/// The number of stereo frames that can be written: one for each pair of a left and a
/// right sample, as far as the output has room for whole frames.
pub open spec fn paired_frames(left: nat, right: nat, out: nat) -> nat {
    let room = out / 2;
    if left <= right && left <= room {
        left
    } else if right <= room {
        right
    } else {
        room
    }
}

/// The output after interleaving: frame `k` holds the `k`-th left sample and then the
/// `k`-th right one; slots behind the last frame written keep what they held.
pub open spec fn interleaved<T>(left: Seq<T>, right: Seq<T>, before: Seq<T>) -> Seq<T> {
    Seq::new(
        before.len(),
        |i: int|
            if i / 2 < paired_frames(left.len(), right.len(), before.len()) {
                if i % 2 == 0 {
                    left[i / 2]
                } else {
                    right[i / 2]
                }
            } else {
                before[i]
            },
    )
}

/// Writes `left` and `right` to `out` as stereo frames, left sample first, until one of
/// the two runs out or `out` has no room for another whole frame.
pub fn interleave<T: Copy>(left: &[T], right: &[T], out: &mut [T])
    ensures
        final(out)@ == interleaved(left@, right@, old(out)@),
{
    let len: usize = out.len();
    let room: usize = len / 2;
    let shorter: usize = if left.len() <= right.len() {
        left.len()
    } else {
        right.len()
    };
    let frames: usize = if shorter <= room {
        shorter
    } else {
        room
    };
    let mut k: usize = 0;
    while k < frames
        invariant
            k <= frames,
            frames == paired_frames(left@.len(), right@.len(), old(out)@.len()),
            frames <= left@.len(),
            frames <= right@.len(),
            2 * frames <= len,
            len == out@.len(),
            len == old(out)@.len(),
            forall|i: int|
                0 <= i < 2 * k ==> #[trigger] out@[i] == if i % 2 == 0 {
                    left@[i / 2]
                } else {
                    right@[i / 2]
                },
            forall|i: int| 2 * k <= i < out@.len() ==> #[trigger] out@[i] == old(out)@[i],
        decreases frames - k,
    {
        out[2 * k] = left[k];
        out[2 * k + 1] = right[k];
        k += 1;
    }
    assert(out@ =~= interleaved(left@, right@, old(out)@));
}

} // verus!
