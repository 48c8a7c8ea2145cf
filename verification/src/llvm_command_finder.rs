//! Which LLVM command names the build driver should try, and in what
//! order. The driver looks each candidate up on the search path and takes
//! the first hit; only the candidate list is decided here.

use vstd::prelude::*;
use vstd::string::StringExecFns;

use crate::position::{decimal, push_decimal};

verus! {

/// The oldest LLVM major version the toolchain accepts.
pub const MINIMUM_VERSION: usize = 11;

/// The newest LLVM major version the toolchain accepts.
pub const MAXIMUM_VERSION: usize = 12;

/// The command names to try for the LLVM tool `command`, preferred first:
/// each version-suffixed form from the newest supported version down, and
/// the bare command last.
#[verifier::loop_isolation(false)]
pub fn candidate_commands(command: &str) -> (candidates: Vec<String>)
    ensures
        candidates@.len() == MAXIMUM_VERSION - MINIMUM_VERSION + 2,
        forall|i: int|
            0 <= i < candidates@.len() - 1 ==> (#[trigger] candidates@[i])@ == command@
                + seq!['-'] + decimal((MAXIMUM_VERSION - i) as nat),
        candidates@.last()@ == command@,
{
    let mut candidates: Vec<String> = Vec::with_capacity(MAXIMUM_VERSION - MINIMUM_VERSION + 2);
    let mut version: usize = MAXIMUM_VERSION;

    proof {
        reveal_strlit("-");
        assert(("-")@ =~= seq!['-']);
    }

    while version >= MINIMUM_VERSION
        invariant
            MINIMUM_VERSION - 1 <= version <= MAXIMUM_VERSION,
            candidates@.len() == MAXIMUM_VERSION - version,
            forall|i: int|
                0 <= i < candidates@.len() ==> (#[trigger] candidates@[i])@ == command@
                    + seq!['-'] + decimal((MAXIMUM_VERSION - i) as nat),
        decreases version,
    {
        let mut candidate = command.to_owned();
        candidate.append("-");
        push_decimal(version, &mut candidate);
        proof {
            assert(candidate@ =~= command@ + seq!['-'] + decimal(version as nat));
        }
        candidates.push(candidate);
        version = version - 1;
    }

    candidates.push(command.to_owned());
    candidates
}

} // verus!
