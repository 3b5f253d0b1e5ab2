//! What this library takes from the verification engine: values that the
//! engine chooses, and the assertion that it checks.

use vstd::prelude::*;

verus! {

/// `cvlr::nondet::nondet` at `u64`: a value of the engine's choosing. Nothing
/// is claimed of it.
#[verifier::external_body]
pub(crate) fn nondet_u64() -> u64 {
    cvlr::nondet::nondet::<u64>()
}

/// `cvlr::nondet::nondet` at `u8`: a value of the engine's choosing. Nothing
/// is claimed of it.
#[verifier::external_body]
pub(crate) fn nondet_u8() -> u8 {
    cvlr::nondet::nondet::<u8>()
}

/// `cvlr::asserts::cvlr_assert_checked`: it reports a condition to the
/// engine and fails where the condition is false. The contract leaves the
/// false condition out, so every call of it is an assertion that is proved.
#[verifier::external_body]
pub(crate) fn cvlr_assert(holds: bool)
    requires
        holds,
{
    cvlr::asserts::cvlr_assert_checked(holds)
}

} // verus!
