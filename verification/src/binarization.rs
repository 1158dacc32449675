//! Cooperative, chunked binarization of an RGBA pixel buffer.
//!
//! A single pass over a multi-megapixel buffer can exceed a frame budget, so
//! the transform is split into bounded slices: [`binarization_step`]
//! processes one slice and records its progress in a [`Temp`] cursor, and the
//! host scheduler re-invokes it (after yielding) until the pass is complete.
//! The transform thresholds every colour byte and leaves every alpha byte
//! (position 3 modulo 4) untouched.
//!
//! The runner is deterministic given the buffer and resumable from any
//! cursor value, and the final buffer does not depend on the slice size:
//! see [`lemma_chunking_independent`].

use vstd::prelude::*;

verus! {

/// The binarization threshold applied to one colour byte.
pub open spec fn binarize_byte(b: u8) -> u8 {
    if b > 128 {
        255
    } else {
        0
    }
}

/// The buffer after binarizing the positions in `[lo, hi)`, alpha bytes
/// excepted; every other position is unchanged.
pub open spec fn apply_range(s: Seq<u8>, lo: int, hi: int) -> Seq<u8> {
    Seq::new(
        s.len(),
        |i: int|
            if lo <= i < hi && i % 4 != 3 {
                binarize_byte(s[i])
            } else {
                s[i]
            },
    )
}

/// The buffer after running the chunked transform to completion from
/// position `idx`, one slice of `step` positions at a time.
pub open spec fn run_chunks(s: Seq<u8>, idx: int, max: int, step: int) -> Seq<u8>
    decreases max - idx,
{
    if idx >= max || step < 1 {
        s
    } else {
        let next = if idx + step <= max {
            idx + step
        } else {
            max
        };
        run_chunks(apply_range(s, idx, next), next, max, step)
    }
}

/// Progress of one chunked pass: the next position to process and the
/// position at which the pass is complete.
#[derive(Clone, Copy, Debug, PartialEq, Eq, Structural)]
pub struct Temp {
    pub index: usize,
    pub max_index: usize,
}

impl Temp {
    pub open spec fn wf(self) -> bool {
        self.index <= self.max_index
    }

    pub fn new(index: usize, max_index: usize) -> (r: Temp)
        requires
            index <= max_index,
        ensures
            r.index == index,
            r.max_index == max_index,
            r.wf(),
    {
        Temp { index, max_index }
    }
}

/// Process one slice: binarize the colour bytes in
/// `[temp.index, min(temp.index + step, temp.max_index))`, advance the
/// cursor, and report whether the pass ran out of buffer within this slice.
///
/// A result of `true` means the cursor has been clamped to `max_index` and no
/// further slice is needed; `false` means another slice remains (even when
/// the cursor has just reached `max_index` exactly, in which case the next
/// slice processes nothing and reports completion).
#[verifier::loop_isolation(false)]
pub fn binarization_step(image_data: &mut Vec<u8>, temp: &mut Temp, step: usize) -> (done: bool)
    requires
        old(temp).wf(),
        old(temp).max_index <= old(image_data).len(),
    ensures
        final(temp).max_index == old(temp).max_index,
        final(temp).index == if old(temp).index + step <= old(temp).max_index {
            old(temp).index + step
        } else {
            old(temp).max_index as int
        },
        final(temp).wf(),
        done == (old(temp).index + step > old(temp).max_index),
        final(image_data)@ == apply_range(
            old(image_data)@,
            old(temp).index as int,
            final(temp).index as int,
        ),
{
    let mut i: usize = 0;
    let mut hit_end: bool = false;
    while i < step && !hit_end
        invariant
            i <= step,
            *temp == *old(temp),
            image_data@.len() == old(image_data)@.len(),
            temp.index + i <= temp.max_index,
            hit_end ==> temp.index + i == temp.max_index && i < step,
            image_data@ == apply_range(old(image_data)@, temp.index as int, temp.index + i),
        decreases step - i + (if hit_end { 0int } else { 1int }),
    {
        let index = temp.index + i;
        if index >= temp.max_index {
            hit_end = true;
        } else {
            if index % 4 != 3 {
                let b = image_data[index];
                let v: u8 = if b > 128 {
                    255
                } else {
                    0
                };
                image_data.set(index, v);
            }
            i = i + 1;
            proof {
                assert(image_data@ =~= apply_range(
                    old(image_data)@,
                    temp.index as int,
                    temp.index + i,
                ));
            }
        }
    }
    if hit_end {
        temp.index = temp.max_index;
        true
    } else {
        temp.index = temp.index + step;
        false
    }
}

/// Binarizing two adjacent ranges, one after the other, binarizes their
/// union: slices compose.
pub proof fn lemma_apply_range_compose(s: Seq<u8>, a: int, b: int, c: int)
    requires
        a <= b <= c,
    ensures
        apply_range(apply_range(s, a, b), b, c) == apply_range(s, a, c),
{
    assert(apply_range(apply_range(s, a, b), b, c) =~= apply_range(s, a, c));
}

/// Running the chunked transform to completion from `idx` binarizes exactly
/// the remaining range, whatever the slice size.
pub proof fn lemma_run_chunks_complete(s: Seq<u8>, idx: int, max: int, step: int)
    requires
        0 <= idx <= max,
        step >= 1,
    ensures
        run_chunks(s, idx, max, step) == apply_range(s, idx, max),
    decreases max - idx,
{
    if idx >= max {
        assert(apply_range(s, idx, max) =~= s);
    } else {
        let next = if idx + step <= max {
            idx + step
        } else {
            max
        };
        lemma_run_chunks_complete(apply_range(s, idx, next), next, max, step);
        lemma_apply_range_compose(s, idx, next, max);
    }
}

/// Law: chunking never changes the result, only the scheduling. A full pass
/// with any slice size — one slice covering the whole buffer, or single-byte
/// slices, or anything between — produces the buffer binarized eagerly in
/// one step.
pub proof fn lemma_chunking_independent(s: Seq<u8>, max: int, step1: int, step2: int)
    requires
        0 <= max,
        step1 >= 1,
        step2 >= 1,
    ensures
        run_chunks(s, 0, max, step1) == apply_range(s, 0, max),
        run_chunks(s, 0, max, step1) == run_chunks(s, 0, max, step2),
{
    lemma_run_chunks_complete(s, 0, max, step1);
    lemma_run_chunks_complete(s, 0, max, step2);
}

} // verus!
