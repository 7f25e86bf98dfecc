//! A linear scan over a small fixed sequence: is the target value present?

use vstd::prelude::*;

verus! {

/// The fixed sequence that the scan searches.
pub open spec fn haystack() -> Seq<u32> {
    seq![1u32, 2u32, 3u32, 4u32, 5u32]
}

/// Scans the fixed sequence for `needle` and reports whether it is present,
/// which is the case exactly for the values 1 through 5.
pub fn const_default(needle: u32) -> (found: bool)
    ensures
        found == haystack().contains(needle),
        found == (1 <= needle <= 5),
{
    let mut haystack_v: Vec<u32> = Vec::new();
    haystack_v.push(1);
    haystack_v.push(2);
    haystack_v.push(3);
    haystack_v.push(4);
    haystack_v.push(5);
    let mut found = false;
    let mut idx: usize = 0;
    while idx < haystack_v.len()
        invariant_except_break
            !found,
        invariant
            haystack_v@ =~= haystack(),
            idx <= haystack_v.len(),
            !found ==> forall|j: int| 0 <= j < idx ==> haystack()[j] != needle,
            found ==> haystack().contains(needle),
        ensures
            found == haystack().contains(needle),
            !found ==> forall|j: int| 0 <= j < haystack().len() ==> haystack()[j] != needle,
        decreases haystack_v.len() - idx,
    {
        if haystack_v[idx] == needle {
            found = true;
            break;
        }
        idx += 1;
    }
    proof {
        lemma_haystack_membership(needle);
    }
    found
}

/// The fixed sequence holds exactly the values 1 through 5.
pub proof fn lemma_haystack_membership(needle: u32)
    ensures
        haystack().contains(needle) <==> 1 <= needle <= 5,
{
    if 1 <= needle <= 5 {
        assert(haystack()[needle - 1] == needle);
    }
}

} // verus!
