//! Callback dispatch core.
//!
//! [`PotentialImpl`] binds a user-supplied evaluator to a handle. The
//! evaluator is the one opaque collaborator of this crate: it is given an
//! input configuration and an output structure, and must either populate
//! the output with a freshly produced owned forces tensor and return
//! success, or leave the forces absent and return a specific failure
//! status. The dispatch performs no retry and surfaces the evaluator's
//! status verbatim, once per invocation.
//!
//! The dispatch validates that the handle and all three input tensors are
//! present before the evaluator runs; on a missing one it reports
//! `RGPOT_INVALID_PARAMETER` and leaves the output untouched.

use vstd::prelude::*;

use crate::status::rgpot_status_t;
use crate::types::{rgpot_force_input_t, rgpot_force_out_t};

verus! {

/// A potential-energy evaluator, implemented by users of this crate.
///
/// Nothing is promised of an implementation: the dispatch around it states
/// only what holds whatever the evaluator does. On success an evaluator is
/// expected to set `output.forces` to an owned tensor of shape
/// `[n_atoms, 3]` together with the energy; on failure it is expected to
/// leave `output.forces` absent and return the failure status.
pub trait PotentialCallback {
    /// Perform one evaluation of `input`, writing results into `output`.
    fn call(&mut self, input: &rgpot_force_input_t, output: &mut rgpot_force_out_t) -> (status:
        rgpot_status_t);
}

/// Handle binding an evaluator to the dispatch core.
///
/// The evaluator's own state (the opaque context of a foreign callback)
/// lives inside `C`; when the handle is dropped, `C`'s own destructor runs
/// exactly once, which is the only implicit effect in this crate.
pub struct PotentialImpl<C: PotentialCallback> {
    callback: C,
}

impl<C: PotentialCallback> PotentialImpl<C> {
    /// The evaluator this handle carries.
    pub closed spec fn evaluator(self) -> C {
        self.callback
    }

    /// Bind an evaluator to a new handle: the handle carries exactly the
    /// evaluator handed in, and nothing is invoked during construction.
    pub fn new(callback: C) -> (pot: PotentialImpl<C>)
        ensures
            pot.evaluator() == callback,
    {
        PotentialImpl { callback }
    }

    /// Invoke the underlying evaluator once, passing the query and the
    /// output structure through unchanged.
    pub fn calculate(&mut self, input: &rgpot_force_input_t, output: &mut rgpot_force_out_t) -> (
        status: rgpot_status_t)
    {
        self.callback.call(input, output)
    }
}

/// Dispatch one evaluation: validate that the handle and all three input
/// tensors are present, then invoke the evaluator and surface its status
/// verbatim.
///
/// When the handle, the input, or any of the three tensors is missing, the
/// result is `RGPOT_INVALID_PARAMETER` and the output is not touched.
pub fn rgpot_potential_calculate<C: PotentialCallback>(
    pot: Option<&mut PotentialImpl<C>>,
    input: Option<&rgpot_force_input_t>,
    output: &mut rgpot_force_out_t,
) -> (status: rgpot_status_t)
    ensures
        (pot is None || input is None || (input matches Some(q) && (q.positions is None
            || q.atomic_numbers is None || q.box_matrix is None))) ==> (status
            == rgpot_status_t::RGPOT_INVALID_PARAMETER && *final(output) == *old(output)),
{
    match (pot, input) {
        (Some(p), Some(q)) => {
            if q.positions.is_none() || q.atomic_numbers.is_none() || q.box_matrix.is_none() {
                return rgpot_status_t::RGPOT_INVALID_PARAMETER;
            }
            p.calculate(q, output)
        },
        _ => rgpot_status_t::RGPOT_INVALID_PARAMETER,
    }
}

} // verus!
