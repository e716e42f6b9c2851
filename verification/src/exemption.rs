//! The golden-sample exemption check: exact, case-sensitive membership of
//! the raw scanned identifier in the loaded allow-list. An exempt unit is
//! waved through without ever contacting the result store.

use vstd::prelude::*;

verus! {

/// Whether `id` appears verbatim in the loaded exemption list: no case
/// folding and no trimming, character-for-character equality with some line.
pub open spec fn spec_is_golden_sample(id: Seq<char>, exemptions: Seq<String>) -> bool {
    exists|i: int| 0 <= i < exemptions.len() && (#[trigger] exemptions[i])@ == id
}

/// Tests whether the scanned identifier is a golden sample.
pub fn is_golden_sample(id: &str, exemptions: &Vec<String>) -> (r: bool)
    ensures
        r == spec_is_golden_sample(id@, exemptions@),
{
    let probe = String::from_str(id);
    let mut i: usize = 0;
    while i < exemptions.len()
        invariant
            0 <= i <= exemptions@.len(),
            probe@ == id@,
            forall|j: int| 0 <= j < i ==> (#[trigger] exemptions@[j])@ != id@,
        decreases exemptions@.len() - i,
    {
        if exemptions[i] == probe {
            return true;
        }
        i = i + 1;
    }
    false
}

} // verus!
