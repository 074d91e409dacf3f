//! The content policy: which cell data is forbidden.

use vstd::prelude::*;

verus! {

/// The bytes that no cell data may begin with: the ASCII word "carrot".
pub open spec fn forbidden_pattern() -> Seq<u8> {
    seq![0x63u8, 0x61u8, 0x72u8, 0x72u8, 0x6fu8, 0x74u8]
}

/// Whether `data` begins with the forbidden pattern. Data equal to the
/// pattern counts, data shorter than the pattern never does.
pub open spec fn is_forbidden(data: Seq<u8>) -> bool {
    forbidden_pattern().is_prefix_of(data)
}

/// Whether `data` begins with `pattern`.
pub fn starts_with(data: &[u8], pattern: &[u8]) -> (found: bool)
    ensures
        found == pattern@.is_prefix_of(data@),
{
    if pattern.len() > data.len() {
        return false;
    }
    let mut i: usize = 0;
    while i < pattern.len()
        invariant
            i <= pattern.len() <= data.len(),
            forall|j: int| 0 <= j < i ==> pattern@[j] == data@[j],
        decreases pattern.len() - i,
    {
        if pattern[i] != data[i] {
            return false;
        }
        i += 1;
    }
    proof {
        assert(pattern@ =~= data@.subrange(0, pattern@.len() as int));
    }
    true
}

/// Whether `data` begins with the forbidden pattern.
pub fn has_forbidden_prefix(data: &[u8]) -> (found: bool)
    ensures
        found == is_forbidden(data@),
{
    let pattern: [u8; 6] = [0x63, 0x61, 0x72, 0x72, 0x6f, 0x74];
    proof {
        assert(pattern@ =~= forbidden_pattern());
    }
    starts_with(data, pattern.as_slice())
}

} // verus!
