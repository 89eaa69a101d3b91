//! The buffer-writing half of an encode call, verified for every id sequence
//! the tokenizer can hand back: a bounds-checked "write at most capacity
//! items into the caller's sink" with deterministic prefix truncation.

use vstd::prelude::*;

use crate::status::STATUS_ENCODE_FAILED;

verus! {

/// How many ids one encode call writes: the whole sequence when it fits the
/// declared capacity, otherwise exactly the capacity (prefix truncation; the
/// excess is dropped silently).
pub open spec fn written_count(full: nat, cap: nat) -> nat {
    if full <= cap {
        full
    } else {
        cap
    }
}

/// Law: the number of ids written never exceeds the capacity nor the length
/// of the full sequence; a capacity of zero receives nothing; a buffer at
/// least as large as the sequence receives it whole.
pub proof fn lemma_written_count_bounds(full: nat, cap: nat)
    ensures
        written_count(full, cap) <= cap,
        written_count(full, cap) <= full,
        cap == 0 ==> written_count(full, cap) == 0,
        full <= cap ==> written_count(full, cap) == full,
{
}

/// Finish an encode call from the tokenizer's result: report failure with the
/// buffer untouched, or copy the longest prefix of `ids` that fits into
/// `out`, left to right and in order, leave every remaining slot exactly as
/// it was, and return how many ids were written.
pub fn complete_encode(encoded: Option<Vec<u32>>, out: Vec<u32>) -> (res: (i32, Vec<u32>))
    requires
        out@.len() <= i32::MAX,
    ensures
        res.1@.len() == out@.len(),
        encoded is None ==> res.0 == STATUS_ENCODE_FAILED && res.1 == out,
        (encoded matches Some(ids) ==> {
            &&& res.0 == written_count(ids@.len(), out@.len())
            &&& forall|j: int| 0 <= j < res.0 ==> res.1@[j] == ids@[j]
            &&& forall|j: int| res.0 <= j < out@.len() ==> res.1@[j] == out@[j]
        }),
{
    match encoded {
        None => (STATUS_ENCODE_FAILED, out),
        Some(ids) => {
            let mut filled = out;
            let count: usize = if ids.len() <= filled.len() {
                ids.len()
            } else {
                filled.len()
            };
            let ghost orig = filled@;
            let mut i: usize = 0;
            while i < count
                invariant
                    i <= count,
                    count <= ids@.len(),
                    count <= filled@.len(),
                    filled@.len() == orig.len(),
                    count == written_count(ids@.len(), orig.len()),
                    forall|j: int| 0 <= j < i ==> filled@[j] == ids@[j],
                    forall|j: int| i <= j < orig.len() ==> filled@[j] == orig[j],
                decreases count - i,
            {
                let v = ids[i];
                filled.set(i, v);
                i = i + 1;
            }
            (count as i32, filled)
        },
    }
}

} // verus!
