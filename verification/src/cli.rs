//! What the command-line client computes itself, apart from its calls to the node.

use vstd::prelude::*;
use vstd::string::StringSliceAdditionalSpecFns;

verus! {

/// The number under which a submitted proposal is reported: the combined
/// byte length of its description, parameter and new value.
pub fn proposal_number(description: &str, parameter: &str, value: &str) -> (n: usize)
    requires
        description.spec_bytes().len() + parameter.spec_bytes().len() + value.spec_bytes().len() <= usize::MAX,
    ensures
        n == description.spec_bytes().len() + parameter.spec_bytes().len() + value.spec_bytes().len(),
{
    description.len() + parameter.len() + value.len()
}

} // verus!
