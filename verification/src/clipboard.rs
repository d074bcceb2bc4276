//! Clipboard format negotiation.
//!
//! The pasteboard itself is the platform's; what belongs to this crate is
//! the one decision made over it: of the formats a caller can consume,
//! which one to prefer given what the clipboard currently offers.

use vstd::prelude::*;

verus! {

/// Whether some offered format identifier equals `wanted`.
pub open spec fn offers(available: Seq<String>, wanted: Seq<char>) -> bool {
    exists|k: int| 0 <= k < available.len() && #[trigger] available[k]@ == wanted
}

/// Picks the preferred clipboard format: the first of the caller's
/// candidate formats, in the caller's priority order, that the clipboard
/// offers; nothing when none is offered.
pub fn preferred_format(candidates: &Vec<String>, available: &Vec<String>) -> (r: Option<usize>)
    ensures
        (r matches Some(i) ==> i < candidates@.len() && offers(available@, candidates@[i as int]@)
            && (forall|j: int| 0 <= j < i ==> !offers(available@, #[trigger] candidates@[j]@))),
        r is None ==> forall|j: int|
            0 <= j < candidates@.len() ==> !offers(available@, #[trigger] candidates@[j]@),
{
    let mut i: usize = 0;
    while i < candidates.len()
        invariant
            i <= candidates@.len(),
            forall|j: int| 0 <= j < i ==> !offers(available@, #[trigger] candidates@[j]@),
        decreases candidates@.len() - i,
    {
        let mut k: usize = 0;
        while k < available.len()
            invariant
                k <= available@.len(),
                i < candidates@.len(),
                forall|j: int| 0 <= j < i ==> !offers(available@, #[trigger] candidates@[j]@),
                forall|m: int| 0 <= m < k ==> #[trigger] available@[m]@ != candidates@[i as int]@,
            decreases available@.len() - k,
        {
            if available[k].eq(&candidates[i]) {
                proof {
                    assert(available@[k as int]@ == candidates@[i as int]@);
                    assert(offers(available@, candidates@[i as int]@));
                }
                return Some(i);
            }
            k = k + 1;
        }
        i = i + 1;
    }
    None
}

} // verus!
