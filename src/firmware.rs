//! The PSCI error type of the firmware's `CPU_ON` call.

use vstd::prelude::*;

verus! {

/// The error returned by `smccc::psci::cpu_on`, carried through as it is.
#[verifier::external_type_specification]
#[verifier::external_body]
pub struct ExPsciError(smccc::psci::Error);

} // verus!
